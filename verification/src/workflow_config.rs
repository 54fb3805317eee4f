//! The per-project configuration of the workflow engine.

use vstd::prelude::*;
use std::path::PathBuf;
use crate::model::AgentError;

verus! {

/// The configuration file of a project, section by section.
#[derive(Debug, Clone)]
pub struct WorkflowConfig {
    pub version: String,
    pub project: Option<ProjectConfig>,
    pub analysis: Option<AnalysisConfig>,
    pub copilot: Option<CopilotConfig>,
    pub quality_gates: Option<QualityGatesConfig>,
    pub reporting: Option<ReportingConfig>,
    pub integrations: Option<IntegrationsConfig>,
    pub environments: Option<EnvironmentsConfig>,
}

#[derive(Debug, Clone)]
pub struct ProjectConfig {
    pub name: String,
    pub project_type: String,
    pub language: String,
    pub framework: Option<String>,
}

#[derive(Debug, Clone)]
pub struct AnalysisConfig {
    pub basics: Option<AnalysisBasicsConfig>,
    pub advanced: Option<AnalysisAdvancedConfig>,
}

#[derive(Debug, Clone)]
pub struct AnalysisBasicsConfig {
    pub code_quality: bool,
    pub security_scan: bool,
    pub dependency_check: bool,
    pub test_coverage: bool,
}

#[derive(Debug, Clone)]
pub struct AnalysisAdvancedConfig {
    pub performance_analysis: bool,
    pub architecture_review: bool,
    pub best_practices: bool,
}

#[derive(Debug, Clone)]
pub struct CopilotConfig {
    pub focus_areas: Vec<String>,
    pub template: String,
    pub depth: String,
}

#[derive(Debug, Clone)]
pub struct QualityGatesConfig {
    pub code_quality: Option<CodeQualityConfig>,
    pub security: Option<SecurityConfig>,
    pub test_coverage: Option<TestCoverageConfig>,
}

#[derive(Debug, Clone)]
pub struct CodeQualityConfig {
    pub max_warnings: u32,
    pub max_errors: u32,
    pub fail_on_error: bool,
}

#[derive(Debug, Clone)]
pub struct SecurityConfig {
    pub max_vulnerabilities: u32,
    pub severity_levels: Vec<String>,
    pub fail_on_vulnerability: bool,
}

#[derive(Debug, Clone)]
pub struct TestCoverageConfig {
    pub min_coverage: u32,
    pub fail_below_min: bool,
}

#[derive(Debug, Clone)]
pub struct ReportingConfig {
    pub formats: Vec<String>,
    pub output_dir: String,
}

#[derive(Debug, Clone)]
pub struct IntegrationsConfig {
    pub github: Option<GithubConfig>,
    pub cargo: Option<CargoConfig>,
}

#[derive(Debug, Clone)]
pub struct GithubConfig {
    pub enabled: bool,
    pub token: String,
}

#[derive(Debug, Clone)]
pub struct CargoConfig {
    pub enabled: bool,
    pub clippy: bool,
    pub fmt: bool,
    pub audit: bool,
    pub doc: bool,
}

#[derive(Debug, Clone)]
pub struct EnvironmentsConfig {
    pub development: Option<EnvironmentConfig>,
    pub testing: Option<EnvironmentConfig>,
    pub production: Option<EnvironmentConfig>,
}

#[derive(Debug, Clone)]
pub struct EnvironmentConfig {
    pub skip_security: bool,
    pub skip_performance: bool,
    pub skip_tests: bool,
    pub require_approval: Option<bool>,
}

/// What is wrong with the configuration of a project, if anything: the
/// version is missing, else the project has no name, else the rule on code
/// quality allows errors and yet fails on any error.
pub open spec fn workflow_config_fault(config: &WorkflowConfig) -> Option<Seq<char>> {
    if config.version@.len() == 0 {
        Some("Config version cannot be empty"@)
    } else if config.project is Some && config.project->0.name@.len() == 0 {
        Some("Project name cannot be empty"@)
    } else if config.quality_gates is Some && config.quality_gates->0.code_quality is Some
        && config.quality_gates->0.code_quality->0.max_errors > 0
        && config.quality_gates->0.code_quality->0.fail_on_error {
        Some("Cannot have max_errors > 0 with fail_on_error"@)
    } else {
        None
    }
}

/// Checks the configuration of a project.
pub fn validate_workflow_config(config: &WorkflowConfig) -> (r: Result<(), AgentError>)
    ensures
        match r {
            Ok(()) => workflow_config_fault(config) is None,
            Err(e) => e matches AgentError::Configuration(m) && workflow_config_fault(config)
                == Some(m@),
        },
{
    if config.version.as_str().is_empty() {
        return Err(AgentError::Configuration("Config version cannot be empty".to_owned()));
    }
    if let Some(project) = &config.project {
        if project.name.as_str().is_empty() {
            return Err(AgentError::Configuration("Project name cannot be empty".to_owned()));
        }
    }
    if let Some(quality_gates) = &config.quality_gates {
        if let Some(code_quality) = &quality_gates.code_quality {
            if code_quality.max_errors > 0 && code_quality.fail_on_error {
                return Err(
                    AgentError::Configuration(
                        "Cannot have max_errors > 0 with fail_on_error".to_owned(),
                    ),
                );
            }
        }
    }
    Ok(())
}

/// The configuration with the defaults filled in: it is handed back as it
/// is.
pub fn merge_with_defaults(config: WorkflowConfig) -> (r: WorkflowConfig)
    ensures
        r == config,
{
    config
}

/// Keeps the configuration of a project and the path of the file that it
/// is read from. Reading the file is left to the caller.
pub struct ConfigManager {
    config_path: PathBuf,
    config: Option<WorkflowConfig>,
}

impl ConfigManager {
    /// The path of the configuration file.
    pub closed spec fn path(&self) -> PathBuf {
        self.config_path
    }

    /// The configuration that was accepted last.
    pub closed spec fn accepted(&self) -> Option<WorkflowConfig> {
        self.config
    }

    /// A manager for the file at `config_path`, without a configuration.
    pub fn new(config_path: PathBuf) -> (manager: Self)
        ensures
            manager.path() == config_path,
            manager.accepted() is None,
    {
        ConfigManager { config_path, config: None }
    }

    /// The path of the configuration file.
    pub fn config_path(&self) -> (path: &PathBuf)
        ensures
            *path == self.path(),
    {
        &self.config_path
    }

    /// The configuration that was accepted last.
    pub fn config(&self) -> (config: &Option<WorkflowConfig>)
        ensures
            *config == self.accepted(),
    {
        &self.config
    }

    /// Takes a configuration that was read from the file: it is checked,
    /// the defaults are filled in, and it is kept. A configuration with a
    /// fault is refused, and the manager stays as it was.
    pub fn load_config(&mut self, read: WorkflowConfig) -> (r: Result<(), AgentError>)
        ensures
            final(self).path() == old(self).path(),
            match r {
                Ok(()) => workflow_config_fault(&read) is None && final(self).accepted() == Some(
                    read,
                ),
                Err(e) => (e matches AgentError::Configuration(m) && workflow_config_fault(&read)
                    == Some(m@)) && final(self).accepted() == old(self).accepted(),
            },
    {
        match validate_workflow_config(&read) {
            Ok(()) => {},
            Err(e) => {
                return Err(e);
            },
        }
        self.config = Some(merge_with_defaults(read));
        Ok(())
    }
}

} // verus!
