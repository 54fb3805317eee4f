use agent_workflow::config::find_config_fault;
use agent_workflow::config::validate_config;
use agent_workflow::config::AgentConfig;
use agent_workflow::config::ConfigError;
use agent_workflow::config::ConfigManager;
use agent_workflow::config::ConfigFault;
use agent_workflow::config::GlobalConfig;
use agent_workflow::config::RetryPolicyConfig;
use agent_workflow::config::WorkflowConfig;
use agent_workflow::config::WorkflowStepConfig;
use agent_workflow::model::AgentError;
use agent_workflow::named_map::NamedMap;
use agent_workflow::workflow_config;
use std::path::PathBuf;

fn agent(name: &str, version: &str) -> AgentConfig {
    AgentConfig {
        name: name.to_string(),
        version: version.to_string(),
        description: "Test agent".to_string(),
        enabled: true,
        settings: NamedMap::new(),
        dependencies: Vec::new(),
    }
}

fn step(name: &str, dependencies: &[&str]) -> WorkflowStepConfig {
    WorkflowStepConfig {
        name: name.to_string(),
        agent: "a".to_string(),
        input: NamedMap::new(),
        dependencies: dependencies.iter().map(|d| d.to_string()).collect(),
        timeout_seconds: 30,
        retry_policy: RetryPolicyConfig::default(),
    }
}

fn workflow(name: &str, steps: Vec<WorkflowStepConfig>) -> WorkflowConfig {
    WorkflowConfig {
        name: name.to_string(),
        version: "1".to_string(),
        description: String::new(),
        enabled: true,
        triggers: vec![],
        steps,
        variables: NamedMap::new(),
    }
}

fn message(result: Result<(), ConfigError>) -> String {
    match result {
        Err(ConfigError::ValidationError(m)) => m,
        other => panic!("expected a validation error, got {:?}", other),
    }
}

#[test]
fn test_config_validation() {
    let mut config = GlobalConfig::default();

    config.agents.insert("test_agent".to_string(), agent("test_agent", "1.0.0"));

    let manager = ConfigManager::new(PathBuf::from("test.json"));
    assert!(manager.validate_config().is_ok());
    assert!(validate_config(&config).is_ok());
}

#[test]
fn test_config_validation_empty_name() {
    let mut config = GlobalConfig::default();

    config.agents.insert("test_agent".to_string(), agent("", "1.0.0"));

    let mut manager = ConfigManager::new(PathBuf::from("test.json"));
    *manager.get_config_mut() = config.clone();
    assert!(manager.validate_config().is_err());
    assert!(validate_config(&config).is_err());
    assert_eq!(message(validate_config(&config)), "Agent name cannot be empty: test_agent");
    assert_eq!(
        validate_config(&config).unwrap_err().message(),
        "Validation error: Agent name cannot be empty: test_agent"
    );
    assert_eq!(
        ConfigError::FileNotFound(PathBuf::from("/x/config.json")).message(),
        "File not found: /x/config.json"
    );
    assert_eq!(ConfigError::ParseError("p".to_string()).message(), "Parse error: p");
    assert_eq!(ConfigError::IoError("i".to_string()).message(), "IO error: i");
    assert_eq!(ConfigError::SerializationError("s".to_string()).message(), "Serialization error: s");
}

#[test]
fn first_fault_of_a_configuration() {
    let mut config = GlobalConfig::default();
    assert_eq!(config.version, "1.0.0");
    config.agents.insert("fine".to_string(), agent("fine", "1"));
    config.agents.insert("bare".to_string(), agent("bare", ""));
    config.agents.insert("nameless".to_string(), agent("", ""));
    config.workflows.insert("w".to_string(), workflow("", vec![]));
    assert_eq!(find_config_fault(&config), Some(ConfigFault::AgentWithoutVersion { agent: 1 }));
    assert_eq!(message(validate_config(&config)), "Agent version cannot be empty: bare");
    config.agents.insert("bare".to_string(), agent("bare", "2"));
    assert_eq!(find_config_fault(&config), Some(ConfigFault::AgentWithoutName { agent: 2 }));
    config.agents.insert("nameless".to_string(), agent("named", "2"));
    assert_eq!(find_config_fault(&config), Some(ConfigFault::WorkflowWithoutName { workflow: 0 }));
    assert_eq!(message(validate_config(&config)), "Workflow name cannot be empty: w");
    config.workflows.insert("w".to_string(), workflow("flow", vec![]));
    assert_eq!(message(validate_config(&config)), "Workflow must have at least one step: w");
    config.workflows.insert(
        "w".to_string(),
        workflow("flow", vec![step("a", &["b"]), step("b", &["a", "c", "d"]), step("e", &["z"])]),
    );
    assert_eq!(
        find_config_fault(&config),
        Some(ConfigFault::UnknownDependency { workflow: 0, step: 1, dependency: 1 })
    );
    assert_eq!(
        message(validate_config(&config)),
        "Invalid dependency 'c' in step 'b' of workflow 'w': step not found"
    );
    config.workflows.insert("w".to_string(), workflow("flow", vec![step("a", &["a"])]));
    config.workflows.insert("second".to_string(), workflow("x", vec![]));
    assert_eq!(find_config_fault(&config), Some(ConfigFault::WorkflowWithoutSteps { workflow: 1 }));
    config.workflows.insert("second".to_string(), workflow("x", vec![step("s", &[])]));
    assert_eq!(find_config_fault(&config), None);
    assert!(validate_config(&config).is_ok());
}

#[test]
fn retry_policy_of_a_configured_step() {
    let policy = RetryPolicyConfig::default();
    assert_eq!(policy.max_attempts, 3);
    assert_eq!(policy.backoff_strategy, "exponential");
    assert_eq!(policy.max_delay_seconds, 60);
}

fn project_config(version: &str) -> workflow_config::WorkflowConfig {
    workflow_config::WorkflowConfig {
        version: version.to_string(),
        project: None,
        analysis: None,
        copilot: None,
        quality_gates: None,
        reporting: None,
        integrations: None,
        environments: None,
    }
}

fn quality(max_errors: u32, fail_on_error: bool) -> Option<workflow_config::QualityGatesConfig> {
    Some(workflow_config::QualityGatesConfig {
        code_quality: Some(workflow_config::CodeQualityConfig {
            max_warnings: 5,
            max_errors,
            fail_on_error,
        }),
        security: None,
        test_coverage: None,
    })
}

#[test]
fn configuration_of_a_project() {
    let fault = |config: &workflow_config::WorkflowConfig| {
        match workflow_config::validate_workflow_config(config) {
            Ok(()) => None,
            Err(AgentError::Configuration(m)) => Some(m),
            Err(other) => panic!("unexpected error {:?}", other),
        }
    };
    let mut config = project_config("");
    config.project = Some(workflow_config::ProjectConfig {
        name: String::new(),
        project_type: "generic".to_string(),
        language: "unknown".to_string(),
        framework: None,
    });
    config.quality_gates = quality(1, true);
    assert_eq!(fault(&config), Some("Config version cannot be empty".to_string()));
    config.version = "1.0".to_string();
    assert_eq!(fault(&config), Some("Project name cannot be empty".to_string()));
    config.project.as_mut().unwrap().name = "test".to_string();
    assert_eq!(fault(&config), Some("Cannot have max_errors > 0 with fail_on_error".to_string()));
    config.quality_gates = quality(0, true);
    assert_eq!(fault(&config), None);
    config.quality_gates = quality(7, false);
    assert_eq!(fault(&config), None);
    config.quality_gates = None;
    config.project = None;
    assert_eq!(fault(&config), None);
    let same = workflow_config::merge_with_defaults(project_config("2"));
    assert_eq!(same.version, "2");
}

#[test]
fn manager_keeps_configurations_by_name() {
    let mut manager = ConfigManager::new(PathBuf::from("settings/config.json"));
    assert_eq!(manager.config_path(), &PathBuf::from("settings/config.json"));
    assert_eq!(manager.get_config().version, "1.0.0");
    assert!(manager.get_config().agents.is_empty());
    assert!(manager.get_agent_config("a").is_none());
    manager.add_agent_config(agent("a", "1"));
    manager.add_agent_config(agent("b", "1"));
    manager.add_agent_config(agent("a", "2"));
    manager.add_workflow_config(workflow("w", vec![step("s", &[])]));
    assert_eq!(manager.get_config().agents.len(), 2);
    assert_eq!(manager.get_agent_config("a").unwrap().version, "2");
    assert_eq!(manager.get_workflow_config("w").unwrap().steps.len(), 1);
    assert!(manager.get_workflow_config("a").is_none());
    assert!(manager.validate_config().is_ok());
    manager.add_workflow_config(workflow("empty", vec![]));
    assert_eq!(
        manager.validate_config().unwrap_err().message(),
        "Validation error: Workflow must have at least one step: empty"
    );
    assert_eq!(manager.remove_workflow_config("empty").unwrap().name, "empty");
    assert!(manager.remove_workflow_config("empty").is_none());
    assert!(manager.validate_config().is_ok());
    assert_eq!(manager.remove_agent_config("a").unwrap().version, "2");
    assert!(manager.get_agent_config("a").is_none());
    assert_eq!(manager.get_config().agents.name_at(0), "b");
    manager.get_config_mut().version = "2.0.0".to_string();
    assert_eq!(manager.get_config().version, "2.0.0");
}

#[test]
fn names_leave_a_map_in_order() {
    let mut map: NamedMap<u8> = NamedMap::new();
    map.insert("x".to_string(), 1);
    map.insert("y".to_string(), 2);
    map.insert("z".to_string(), 3);
    assert_eq!(map.remove("y"), Some(2));
    assert_eq!(map.remove("y"), None);
    assert_eq!(map.len(), 2);
    assert_eq!(map.name_at(0), "x");
    assert_eq!(map.name_at(1), "z");
    assert_eq!(map.get("z"), Some(&3));
    assert_eq!(map.remove("x"), Some(1));
    assert_eq!(map.remove("z"), Some(3));
    assert!(map.is_empty());
}

#[test]
fn manager_keeps_the_configuration_of_a_project() {
    let mut manager = workflow_config::ConfigManager::new(PathBuf::from("project.toml"));
    assert_eq!(manager.config_path(), &PathBuf::from("project.toml"));
    assert!(manager.config().is_none());
    match manager.load_config(project_config("")) {
        Err(AgentError::Configuration(m)) => assert_eq!(m, "Config version cannot be empty"),
        other => panic!("unexpected {:?}", other),
    }
    assert!(manager.config().is_none());
    assert!(manager.load_config(project_config("1.0")).is_ok());
    assert_eq!(manager.config().as_ref().unwrap().version, "1.0");
    let mut faulty = project_config("2.0");
    faulty.quality_gates = quality(3, true);
    assert!(manager.load_config(faulty).is_err());
    assert_eq!(manager.config().as_ref().unwrap().version, "1.0");
}
