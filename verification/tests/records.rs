use agent_workflow::model::AgentCapability;
use agent_workflow::model::AgentError;
use agent_workflow::model::Environment;
use agent_workflow::model::LogLevel;
use agent_workflow::model::ProjectInfo;
use agent_workflow::model::ProjectType;
use agent_workflow::model::WorkflowContext;
use agent_workflow::named_map::NamedMap;
use agent_workflow::recorder::elapsed;
use agent_workflow::recorder::ExecutionRecorder;
use agent_workflow::recorder::ExecutionStatus;
use agent_workflow::registry::AgentProfile;
use agent_workflow::registry::AgentRegistry;
use serde_json::Value;
use std::path::PathBuf;
use std::time::Duration;

fn context() -> WorkflowContext {
    WorkflowContext {
        project_path: PathBuf::from("/project"),
        environment: Environment::Production,
        variables: NamedMap::new(),
        metadata: NamedMap::new(),
    }
}

fn profile(name: &str, types: &[ProjectType], capabilities: &[AgentCapability]) -> AgentProfile {
    AgentProfile {
        name: name.to_string(),
        version: "1".to_string(),
        description: String::new(),
        supported_types: types.to_vec(),
        capabilities: capabilities.to_vec(),
    }
}

#[test]
fn test_agent_registry() {
    let registry = AgentRegistry::new();
    assert_eq!(registry.list_agents().len(), 0);

    assert_eq!(registry.list_agents().len(), 0);
}

#[test]
fn test_project_info_creation() {
    let project_info = ProjectInfo {
        project_type: ProjectType::Rust,
        language: "rust".to_string(),
        framework: None,
        build_system: Some("cargo".to_string()),
        package_manager: Some("cargo".to_string()),
        root_path: PathBuf::from("/test"),
        config_files: vec![PathBuf::from("Cargo.toml")],
        dependencies: vec![],
    };

    assert!(matches!(project_info.project_type, ProjectType::Rust));
    assert_eq!(project_info.language, "rust");
}

#[test]
fn agents_by_what_they_can_do() {
    let mut registry = AgentRegistry::new();
    registry.register_agent(profile("a", &[ProjectType::Rust], &[AgentCapability::CodeAnalysis]));
    registry.register_agent(profile(
        "b",
        &[ProjectType::Go, ProjectType::Rust],
        &[AgentCapability::SecurityScan, AgentCapability::CodeAnalysis],
    ));
    registry.register_agent(profile("c", &[], &[]));
    registry.register_agent(profile("d", &[ProjectType::Go], &[AgentCapability::SecurityScan]));
    let names = |found: Vec<&AgentProfile>| found.iter().map(|p| p.name.clone()).collect::<Vec<_>>();
    assert_eq!(names(registry.find_agents_by_capability(&AgentCapability::CodeAnalysis)), vec!["a", "b"]);
    assert_eq!(names(registry.find_agents_by_capability(&AgentCapability::SecurityScan)), vec!["b", "d"]);
    assert!(registry.find_agents_by_capability(&AgentCapability::ReportGeneration).is_empty());
    assert_eq!(names(registry.find_agents_by_project_type(&ProjectType::Rust)), vec!["a", "b"]);
    assert_eq!(names(registry.find_agents_by_project_type(&ProjectType::Go)), vec!["b", "d"]);
    assert!(registry.find_agents_by_project_type(&ProjectType::Generic).is_empty());
    registry.register_agent(profile("a", &[ProjectType::Go], &[]));
    assert_eq!(registry.list_agents(), vec!["a", "b", "c", "d"]);
    assert_eq!(names(registry.find_agents_by_project_type(&ProjectType::Go)), vec!["a", "b", "d"]);
    assert!(registry.contains("c"));
    assert!(!registry.contains("e"));
    assert_eq!(registry.get_agent("a").unwrap().supported_types, vec![ProjectType::Go]);
    assert!(registry.get_agent("").is_none());
}

#[test]
fn names_keep_their_place_in_a_map() {
    let mut map: NamedMap<u32> = NamedMap::new();
    assert!(map.is_empty());
    assert_eq!(map.find("a"), 0);
    map.insert("a".to_string(), 1);
    map.insert("b".to_string(), 2);
    map.insert("a".to_string(), 3);
    map.insert("".to_string(), 4);
    assert_eq!(map.len(), 3);
    assert!(!map.is_empty());
    assert_eq!(map.name_at(0), "a");
    assert_eq!(map.name_at(1), "b");
    assert_eq!(map.name_at(2), "");
    assert_eq!(*map.value_at(0), 3);
    assert_eq!(*map.value_at(1), 2);
    assert_eq!(map.get("a"), Some(&3));
    assert_eq!(map.get(""), Some(&4));
    assert_eq!(map.get("c"), None);
    assert_eq!(map.find("b"), 1);
    assert_eq!(map.find("c"), 3);
    assert!(map.contains_key("b"));
    assert!(!map.contains_key("B"));
    let mut texts: NamedMap<String> = NamedMap::new();
    texts.insert("k".to_string(), "v".to_string());
    let copy = texts.duplicate();
    texts.insert("k".to_string(), "w".to_string());
    assert_eq!(copy.get("k").map(|s| s.as_str()), Some("v"));
    assert_eq!(copy.len(), 1);
}

#[test]
fn records_of_runs() {
    let mut recorder = ExecutionRecorder::new();
    assert!(recorder.get_execution_history().is_empty());
    assert!(recorder.get_execution(1).is_none());
    assert!(!recorder.log_execution_event(1, LogLevel::Info, "lost".to_string(), 5));
    assert!(!recorder.finish(1, true, NamedMap::new(), 5));
    assert!(recorder.start(1, "first".to_string(), context(), 1_000));
    assert!(!recorder.start(1, "again".to_string(), context(), 2_000));
    assert!(recorder.start(u128::MAX, "second".to_string(), context(), 3_000));
    assert_eq!(recorder.get_execution_history().len(), 2);
    {
        let record = recorder.get_execution(1).unwrap();
        assert_eq!(record.id, 1);
        assert_eq!(record.workflow_name, "first");
        assert_eq!(record.start_time, 1_000);
        assert_eq!(record.end_time, None);
        assert_eq!(record.execution_time, None);
        assert_eq!(record.status, ExecutionStatus::Running);
        assert_eq!(record.context.environment, Environment::Production);
        assert!(record.step_results.is_empty());
        assert!(record.logs.is_empty());
    }
    assert!(recorder.log_execution_event(1, LogLevel::Warn, "careful".to_string(), 1_200));
    assert!(recorder.log_execution_event(1, LogLevel::Error, "broken".to_string(), 1_300));
    let mut results: NamedMap<Value> = NamedMap::new();
    results.insert("s".to_string(), Value::Bool(true));
    assert!(recorder.finish(1, false, results, 4_500));
    assert!(!recorder.finish(1, true, NamedMap::new(), 9_000));
    assert!(recorder.log_execution_event(1, LogLevel::Debug, "late".to_string(), 9_100));
    assert!(recorder.finish(u128::MAX, true, NamedMap::new(), 2_000));
    let first = recorder.get_execution(1).unwrap();
    assert_eq!(first.status, ExecutionStatus::Failed);
    assert_eq!(first.end_time, Some(4_500));
    assert_eq!(first.execution_time, Some(Duration::from_millis(3_500)));
    assert_eq!(first.step_results.get("s"), Some(&Value::Bool(true)));
    assert_eq!(first.logs.len(), 3);
    assert_eq!(first.logs[0].level, LogLevel::Warn);
    assert_eq!(first.logs[0].message, "careful");
    assert_eq!(first.logs[0].timestamp, 1_200);
    assert!(first.logs[0].metadata.is_empty());
    assert_eq!(first.logs[2].message, "late");
    let second = recorder.get_execution(u128::MAX).unwrap();
    assert_eq!(second.status, ExecutionStatus::Completed);
    assert_eq!(second.end_time, Some(2_000));
    assert_eq!(second.execution_time, Some(Duration::from_millis(0)));
    assert!(second.logs.is_empty());
    let history = recorder.get_execution_history();
    assert_eq!(history[0].id, 1);
    assert_eq!(history[1].id, u128::MAX);
}

#[test]
fn time_between_two_instants() {
    assert_eq!(elapsed(10, 25), 15);
    assert_eq!(elapsed(25, 10), 0);
    assert_eq!(elapsed(7, 7), 0);
    assert_eq!(elapsed(i64::MIN, i64::MAX), u64::MAX);
    assert_eq!(elapsed(-5, 5), 10);
}

#[test]
fn texts_of_the_errors() {
    assert_eq!(AgentError::Configuration("c".to_string()).message(), "Configuration error: c");
    assert_eq!(AgentError::Execution("e".to_string()).message(), "Execution error: e");
    assert_eq!(
        AgentError::UnsupportedProjectType(ProjectType::Docker).message(),
        "Unsupported project type: Docker"
    );
    assert_eq!(ProjectType::Nodejs.name(), "Nodejs");
    assert_eq!(ProjectType::Generic.name(), "Generic");
}
