//! The data model shared by the agents and the workflow engine.

use vstd::prelude::*;
use vstd::string::StringExecFns;
use std::path::PathBuf;
use std::time::Duration;
use crate::named_map::NamedMap;
use crate::retry::RetryPolicy;

verus! {

/// The kind of project found in a directory.
#[derive(Debug, Clone, Copy, PartialEq, Eq, Structural)]
pub enum ProjectType {
    Rust,
    Nodejs,
    Python,
    Java,
    Go,
    React,
    Vue,
    Angular,
    Terraform,
    Docker,
    Generic,
}

impl ProjectType {
    /// The name of the project type, as it is written in the program.
    pub open spec fn name_text(self) -> Seq<char> {
        match self {
            ProjectType::Rust => "Rust"@,
            ProjectType::Nodejs => "Nodejs"@,
            ProjectType::Python => "Python"@,
            ProjectType::Java => "Java"@,
            ProjectType::Go => "Go"@,
            ProjectType::React => "React"@,
            ProjectType::Vue => "Vue"@,
            ProjectType::Angular => "Angular"@,
            ProjectType::Terraform => "Terraform"@,
            ProjectType::Docker => "Docker"@,
            ProjectType::Generic => "Generic"@,
        }
    }

    /// The name of the project type, as it is written in the program.
    pub fn name(&self) -> (r: &'static str)
        ensures
            r@ == self.name_text(),
    {
        match self {
            ProjectType::Rust => "Rust",
            ProjectType::Nodejs => "Nodejs",
            ProjectType::Python => "Python",
            ProjectType::Java => "Java",
            ProjectType::Go => "Go",
            ProjectType::React => "React",
            ProjectType::Vue => "Vue",
            ProjectType::Angular => "Angular",
            ProjectType::Terraform => "Terraform",
            ProjectType::Docker => "Docker",
            ProjectType::Generic => "Generic",
        }
    }
}

/// What project detection learned about a directory.
#[derive(Debug, Clone)]
pub struct ProjectInfo {
    pub project_type: ProjectType,
    pub language: String,
    pub framework: Option<String>,
    pub build_system: Option<String>,
    pub package_manager: Option<String>,
    pub root_path: PathBuf,
    pub config_files: Vec<PathBuf>,
    pub dependencies: Vec<Dependency>,
}

/// One declared dependency of a project.
#[derive(Debug, Clone)]
pub struct Dependency {
    pub name: String,
    pub version: String,
    pub source: DependencySource,
}

/// The package ecosystem a dependency was declared in.
#[derive(Debug, Clone)]
pub enum DependencySource {
    Cargo,
    Npm,
    Pip,
    Maven,
    Gradle,
    GoMod,
    Other(String),
}

/// What an agent is able to do.
#[derive(Debug, Clone, Copy, PartialEq, Eq, Structural)]
pub enum AgentCapability {
    ProjectDetection,
    CodeAnalysis,
    SecurityScan,
    PerformanceAnalysis,
    TestCoverage,
    DocumentationGeneration,
    CopilotIntegration,
    ReportGeneration,
}

/// The event that starts a workflow.
#[derive(Debug, Clone, Copy, PartialEq, Eq, Structural)]
pub enum WorkflowTrigger {
    PullRequest,
    Push,
    Manual,
    Schedule,
    Webhook,
}

/// A named unit of work bound to an agent.
#[derive(Debug, Clone)]
pub struct WorkflowStep {
    pub name: String,
    pub agent: String,
    pub input: WorkflowInput,
    pub output: WorkflowOutput,
    pub dependencies: Vec<String>,
    pub retry_policy: RetryPolicy,
    pub timeout: Duration,
}

/// Where a step takes its input from.
#[derive(Debug, Clone)]
pub enum WorkflowInput {
    ProjectPath(PathBuf),
    ProjectInfo,
    AnalysisResults,
    CopilotPrompt,
    Custom(serde_json::Value),
}

/// The kind of artifact a step or a workflow produces.
#[derive(Debug, Clone)]
pub enum WorkflowOutput {
    ProjectPath(PathBuf),
    ProjectInfo,
    AnalysisResults,
    CopilotPrompt,
    CopilotResponse,
    Report,
    Custom(serde_json::Value),
}

/// An immutable description of a workflow.
#[derive(Debug, Clone)]
pub struct WorkflowDefinition {
    pub name: String,
    pub version: String,
    pub description: String,
    pub triggers: Vec<WorkflowTrigger>,
    pub steps: Vec<WorkflowStep>,
    pub variables: NamedMap<WorkflowVariable>,
    pub outputs: Vec<WorkflowOutput>,
}

/// A variable declared by a workflow.
#[derive(Debug, Clone)]
pub struct WorkflowVariable {
    pub name: String,
    pub value: serde_json::Value,
    pub required: bool,
    pub default_value: Option<serde_json::Value>,
}

/// The per-run input of a workflow.
#[derive(Debug, Clone)]
pub struct WorkflowContext {
    pub project_path: PathBuf,
    pub environment: Environment,
    pub variables: NamedMap<serde_json::Value>,
    pub metadata: NamedMap<String>,
}

/// The environment a run is made for.
#[derive(Debug, Clone, Copy, PartialEq, Eq, Structural)]
pub enum Environment {
    Development,
    Testing,
    Production,
}

/// What a run hands back to its caller.
#[derive(Debug, Clone)]
pub struct WorkflowResult {
    pub success: bool,
    pub outputs: NamedMap<serde_json::Value>,
    pub execution_time: Duration,
    pub error: Option<String>,
    pub logs: Vec<LogEntry>,
}

/// One line of a run's log. The time is in milliseconds since the Unix epoch.
#[derive(Debug, Clone)]
pub struct LogEntry {
    pub timestamp: i64,
    pub level: LogLevel,
    pub message: String,
    pub metadata: NamedMap<String>,
}

/// The severity of a log line.
#[derive(Debug, Clone, Copy, PartialEq, Eq, Structural)]
pub enum LogLevel {
    Debug,
    Info,
    Warn,
    Error,
}

/// Why an agent or the engine could not do what was asked.
#[derive(Debug, Clone)]
pub enum AgentError {
    Configuration(String),
    Execution(String),
    Timeout(String),
    UnsupportedProjectType(ProjectType),
    MissingCapability(String),
    RetryExhausted(String),
    Io(String),
    Serialization(String),
    GitHubIntegration(String),
    Other(String),
    CodeAnalysis(String),
}

impl AgentError {
    /// The error as it is shown to a reader: what kind of error it is, and
    /// its own text.
    pub open spec fn message_text(self) -> Seq<char> {
        match self {
            AgentError::Configuration(m) => "Configuration error: "@ + m@,
            AgentError::Execution(m) => "Execution error: "@ + m@,
            AgentError::Timeout(m) => "Timeout error: "@ + m@,
            AgentError::UnsupportedProjectType(t) => "Unsupported project type: "@ + t.name_text(),
            AgentError::MissingCapability(m) => "Missing required capability: "@ + m@,
            AgentError::RetryExhausted(m) => "Retry exhausted: "@ + m@,
            AgentError::Io(m) => "IO error: "@ + m@,
            AgentError::Serialization(m) => "Serialization error: "@ + m@,
            AgentError::GitHubIntegration(m) => "GitHub integration error: "@ + m@,
            AgentError::Other(m) => "Other error: "@ + m@,
            AgentError::CodeAnalysis(m) => "Code analysis error: "@ + m@,
        }
    }

    /// The error as it is shown to a reader.
    pub fn message(&self) -> (text: String)
        ensures
            text@ == self.message_text(),
    {
        match self {
            AgentError::Configuration(m) => "Configuration error: ".to_owned().concat(m.as_str()),
            AgentError::Execution(m) => "Execution error: ".to_owned().concat(m.as_str()),
            AgentError::Timeout(m) => "Timeout error: ".to_owned().concat(m.as_str()),
            AgentError::UnsupportedProjectType(t) => "Unsupported project type: ".to_owned().concat(
                t.name(),
            ),
            AgentError::MissingCapability(m) => "Missing required capability: ".to_owned().concat(
                m.as_str(),
            ),
            AgentError::RetryExhausted(m) => "Retry exhausted: ".to_owned().concat(m.as_str()),
            AgentError::Io(m) => "IO error: ".to_owned().concat(m.as_str()),
            AgentError::Serialization(m) => "Serialization error: ".to_owned().concat(m.as_str()),
            AgentError::GitHubIntegration(m) => "GitHub integration error: ".to_owned().concat(
                m.as_str(),
            ),
            AgentError::Other(m) => "Other error: ".to_owned().concat(m.as_str()),
            AgentError::CodeAnalysis(m) => "Code analysis error: ".to_owned().concat(m.as_str()),
        }
    }
}

} // verus!
