use agent_workflow::dag::has_circular_dependencies;
use agent_workflow::execution::create_execution_graph;
use agent_workflow::execution::NodeStatus;
use agent_workflow::model::AgentCapability;
use agent_workflow::model::AgentError;
use agent_workflow::model::ProjectType;
use agent_workflow::model::WorkflowDefinition;
use agent_workflow::model::WorkflowInput;
use agent_workflow::model::WorkflowOutput;
use agent_workflow::model::WorkflowStep;
use agent_workflow::model::WorkflowTrigger;
use agent_workflow::named_map::NamedMap;
use agent_workflow::registry::AgentProfile;
use agent_workflow::registry::AgentRegistry;
use agent_workflow::retry::RetryPolicy;
use agent_workflow::validator::check_workflow;
use agent_workflow::validator::find_step;
use agent_workflow::validator::resolve_dependencies;
use agent_workflow::validator::step_names_unique;
use agent_workflow::validator::validate_workflow;
use agent_workflow::validator::ValidationFailure;
use serde_json::Value;
use std::time::Duration;

fn registry(names: &[&str]) -> AgentRegistry {
    let mut registry = AgentRegistry::new();
    for name in names {
        registry.register_agent(AgentProfile {
            name: name.to_string(),
            version: "1".to_string(),
            description: String::new(),
            supported_types: vec![ProjectType::Rust],
            capabilities: vec![AgentCapability::SecurityScan],
        });
    }
    registry
}

fn step(name: &str, agent: &str, dependencies: &[&str]) -> WorkflowStep {
    WorkflowStep {
        name: name.to_string(),
        agent: agent.to_string(),
        input: WorkflowInput::Custom(Value::Null),
        output: WorkflowOutput::AnalysisResults,
        dependencies: dependencies.iter().map(|d| d.to_string()).collect(),
        retry_policy: RetryPolicy::default(),
        timeout: Duration::from_secs(1),
    }
}

fn workflow(name: &str, steps: Vec<WorkflowStep>) -> WorkflowDefinition {
    WorkflowDefinition {
        name: name.to_string(),
        version: "1.0".to_string(),
        description: String::new(),
        triggers: vec![WorkflowTrigger::Push],
        steps,
        variables: NamedMap::new(),
        outputs: vec![],
    }
}

fn configuration_error(result: Result<(), AgentError>) -> String {
    match result {
        Err(AgentError::Configuration(m)) => m,
        other => panic!("expected a configuration error, got {:?}", other),
    }
}

#[test]
fn acyclic_workflows_are_valid() {
    let agents = registry(&["a1", "a2"]);
    let diamond = workflow(
        "diamond",
        vec![
            step("top", "a1", &[]),
            step("left", "a2", &["top"]),
            step("right", "a1", &["top"]),
            step("bottom", "a2", &["left", "right", "top"]),
        ],
    );
    assert_eq!(check_workflow(&diamond, &agents), Ok(()));
    assert!(validate_workflow(&diamond, &agents).is_ok());
    let backwards = workflow(
        "backwards",
        vec![step("c", "a1", &["b"]), step("b", "a1", &["a"]), step("a", "a1", &[])],
    );
    assert!(validate_workflow(&backwards, &agents).is_ok());
    assert!(validate_workflow(&workflow("empty", vec![]), &agents).is_ok());
}

#[test]
fn cycles_are_refused() {
    let agents = registry(&["a"]);
    let own = workflow("own", vec![step("x", "a", &["x"])]);
    assert_eq!(check_workflow(&own, &agents), Err(ValidationFailure::CircularDependencies));
    assert_eq!(configuration_error(validate_workflow(&own, &agents)), "Circular dependencies detected");
    let two = workflow("two", vec![step("x", "a", &["y"]), step("y", "a", &["x"])]);
    assert_eq!(check_workflow(&two, &agents), Err(ValidationFailure::CircularDependencies));
    let far = workflow(
        "far",
        vec![
            step("free", "a", &[]),
            step("p", "a", &["free", "r"]),
            step("q", "a", &["p"]),
            step("r", "a", &["q"]),
        ],
    );
    assert_eq!(check_workflow(&far, &agents), Err(ValidationFailure::CircularDependencies));
}

#[test]
fn duplicate_step_names_are_refused() {
    let agents = registry(&["a"]);
    let twice = workflow("twice", vec![step("x", "a", &[]), step("y", "a", &[]), step("x", "a", &[])]);
    assert!(!step_names_unique(&twice));
    assert_eq!(check_workflow(&twice, &agents), Err(ValidationFailure::DuplicateStepNames));
    assert_eq!(configuration_error(validate_workflow(&twice, &agents)), "Duplicate step names found");
    let once = workflow("once", vec![step("x", "a", &[]), step("y", "a", &[])]);
    assert!(step_names_unique(&once));
    assert!(validate_workflow(&once, &agents).is_ok());
}

#[test]
fn checks_are_made_in_order() {
    let agents = registry(&["a"]);
    let nameless = workflow("", vec![step("x", "a", &[]), step("x", "nobody", &["gone"])]);
    assert_eq!(check_workflow(&nameless, &agents), Err(ValidationFailure::EmptyName));
    assert_eq!(
        configuration_error(validate_workflow(&nameless, &agents)),
        "Workflow name cannot be empty"
    );
    let named = workflow("w", vec![step("x", "a", &[]), step("x", "nobody", &["gone"])]);
    assert_eq!(check_workflow(&named, &agents), Err(ValidationFailure::DuplicateStepNames));
    let dangling = workflow(
        "w",
        vec![step("x", "nobody", &["y"]), step("y", "a", &["x", "gone", "lost"]), step("z", "a", &["far"])],
    );
    assert_eq!(
        check_workflow(&dangling, &agents),
        Err(ValidationFailure::MissingDependency { step: 1, dependency: 1 })
    );
    assert_eq!(
        configuration_error(validate_workflow(&dangling, &agents)),
        "Step 'y' depends on non-existent step 'gone'"
    );
    let unknown = workflow("w", vec![step("x", "a", &["y"]), step("y", "b", &["x"]), step("z", "c", &[])]);
    assert_eq!(check_workflow(&unknown, &agents), Err(ValidationFailure::UnknownAgent { step: 1 }));
    assert_eq!(
        configuration_error(validate_workflow(&unknown, &agents)),
        "Agent 'b' not found for step 'y'"
    );
}

#[test]
fn dependencies_are_resolved_to_positions() {
    let w = workflow(
        "w",
        vec![step("a", "x", &[]), step("b", "x", &["a"]), step("c", "x", &["b", "a", "b"])],
    );
    assert_eq!(resolve_dependencies(&w), Ok(vec![vec![], vec![0], vec![1, 0, 1]]));
    assert_eq!(find_step(&w, "c"), 2);
    assert_eq!(find_step(&w, "d"), 3);
    let broken = workflow("w", vec![step("a", "x", &["a", "zz"])]);
    assert_eq!(resolve_dependencies(&broken), Err((0, 1)));
}

#[test]
fn cycle_search_on_plain_graphs() {
    assert!(!has_circular_dependencies(&vec![]));
    assert!(!has_circular_dependencies(&vec![vec![], vec![0], vec![0, 1]]));
    assert!(has_circular_dependencies(&vec![vec![0]]));
    assert!(has_circular_dependencies(&vec![vec![1], vec![2], vec![0]]));
    assert!(has_circular_dependencies(&vec![vec![], vec![2], vec![3], vec![1]]));
    assert!(!has_circular_dependencies(&vec![vec![1, 2], vec![3], vec![3], vec![]]));
}

#[test]
fn execution_graph_has_dependents_in_rising_order() {
    let w = workflow(
        "w",
        vec![
            step("c", "x", &["a", "b", "a"]),
            step("a", "x", &[]),
            step("b", "x", &["a"]),
        ],
    );
    let graph = create_execution_graph(w).unwrap();
    assert_eq!(graph.len(), 3);
    assert_eq!(graph.node(0).dependencies, vec![1, 2, 1]);
    assert_eq!(graph.node(0).dependents, Vec::<usize>::new());
    assert_eq!(graph.node(1).dependents, vec![0, 2]);
    assert_eq!(graph.node(2).dependents, vec![0]);
    for i in 0..3 {
        assert_eq!(graph.node(i).status, NodeStatus::Pending);
        assert!(graph.node(i).result.is_none());
        assert!(graph.node(i).start_time.is_none());
        assert!(graph.node(i).end_time.is_none());
    }
    assert_eq!(graph.step(1).name, "a");
    assert_eq!(graph.definition().name, "w");
}

#[test]
fn execution_graph_refuses_a_bad_shape() {
    let cyclic = workflow("w", vec![step("a", "x", &["b"]), step("b", "x", &["a"])]);
    assert!(matches!(
        create_execution_graph(cyclic),
        Err(AgentError::Configuration(m)) if m == "Circular dependencies detected"
    ));
    let dangling = workflow("", vec![step("a", "x", &["b"])]);
    assert!(matches!(
        create_execution_graph(dangling),
        Err(AgentError::Configuration(m)) if m == "Step 'a' depends on non-existent step 'b'"
    ));
    let twice = workflow("w", vec![step("a", "x", &[]), step("a", "x", &[])]);
    assert!(matches!(
        create_execution_graph(twice),
        Err(AgentError::Configuration(m)) if m == "Duplicate step names found"
    ));
    let nameless_but_sound = workflow("", vec![step("a", "nobody", &[])]);
    assert!(create_execution_graph(nameless_but_sound).is_ok());
}

#[test]
fn registry_keeps_one_agent_for_each_name() {
    let mut agents = registry(&["a", "b"]);
    assert_eq!(agents.list_agents(), vec!["a", "b"]);
    assert!(agents.contains("a"));
    assert!(!agents.contains("c"));
    agents.register_agent(AgentProfile {
        name: "a".to_string(),
        version: "2".to_string(),
        description: String::new(),
        supported_types: vec![],
        capabilities: vec![],
    });
    assert_eq!(agents.list_agents(), vec!["a", "b"]);
    assert_eq!(agents.get_agent("a").unwrap().version, "2");
    assert!(agents.get_agent("z").is_none());
    assert_eq!(AgentRegistry::new().list_agents().len(), 0);
}
