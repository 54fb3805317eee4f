use agent_workflow::model::AgentCapability;
use agent_workflow::model::AgentError;
use agent_workflow::model::ProjectType;
use agent_workflow::model::WorkflowDefinition;
use agent_workflow::model::WorkflowInput;
use agent_workflow::model::WorkflowOutput;
use agent_workflow::model::WorkflowTrigger;
use agent_workflow::registry::AgentProfile;
use agent_workflow::registry::AgentRegistry;
use agent_workflow::retry::BackoffStrategy;
use agent_workflow::validator::check_workflow;
use agent_workflow::validator::ValidationFailure;
use agent_workflow::workflows::create_full_analysis_workflow;
use agent_workflow::workflows::create_performance_analysis_workflow;
use agent_workflow::workflows::create_pr_review_workflow;
use agent_workflow::workflows::create_security_scan_workflow;
use agent_workflow::workflows::create_workflow_definition;
use serde_json::Value;
use std::path::PathBuf;
use std::time::Duration;

fn shape(w: &WorkflowDefinition) -> Vec<(String, String, Vec<String>, u64)> {
    w.steps
        .iter()
        .map(|s| (s.name.clone(), s.agent.clone(), s.dependencies.clone(), s.timeout.as_secs()))
        .collect()
}

fn entry(name: &str, agent: &str, dependencies: &[&str], timeout: u64) -> (String, String, Vec<String>, u64) {
    (
        name.to_string(),
        agent.to_string(),
        dependencies.iter().map(|d| d.to_string()).collect(),
        timeout,
    )
}

fn registry_for(w: &WorkflowDefinition) -> AgentRegistry {
    let mut registry = AgentRegistry::new();
    for step in &w.steps {
        registry.register_agent(AgentProfile {
            name: step.agent.clone(),
            version: "1".to_string(),
            description: String::new(),
            supported_types: vec![ProjectType::Generic],
            capabilities: vec![AgentCapability::ReportGeneration],
        });
    }
    registry
}

fn object(members: &[(&str, Value)]) -> Value {
    let mut map = serde_json::Map::new();
    for (key, value) in members {
        map.insert(key.to_string(), value.clone());
    }
    Value::Object(map)
}

#[test]
fn test_workflow_creation() {
    let workflow = create_pr_review_workflow(123);
    assert!(workflow.is_ok());

    let workflow = workflow.unwrap();
    assert_eq!(workflow.name, "PR Review Workflow - PR #123");
    assert_eq!(workflow.steps.len(), 6);
}

#[test]
fn test_full_analysis_workflow() {
    let workflow = create_full_analysis_workflow();
    assert!(workflow.is_ok());

    let workflow = workflow.unwrap();
    assert_eq!(workflow.name, "Full Analysis Workflow");
    assert_eq!(workflow.steps.len(), 6);
}

#[test]
fn test_security_scan_workflow() {
    let workflow = create_security_scan_workflow();
    assert!(workflow.is_ok());

    let workflow = workflow.unwrap();
    assert_eq!(workflow.name, "Security Scan Workflow");
    assert_eq!(workflow.steps.len(), 4);
}

#[test]
fn test_performance_analysis_workflow() {
    let workflow = create_performance_analysis_workflow();
    assert!(workflow.is_ok());

    let workflow = workflow.unwrap();
    assert_eq!(workflow.name, "Performance Analysis Workflow");
    assert_eq!(workflow.steps.len(), 5);
}

#[test]
fn pr_review_workflow_in_full() {
    let w = create_pr_review_workflow(0).unwrap();
    assert_eq!(w.name, "PR Review Workflow - PR #0");
    let w = create_pr_review_workflow(u32::MAX).unwrap();
    assert_eq!(w.name, "PR Review Workflow - PR #4294967295");
    assert_eq!(w.version, "1.0");
    assert_eq!(w.triggers, vec![WorkflowTrigger::PullRequest]);
    assert_eq!(w.variables.len(), 0);
    assert!(matches!(w.outputs.as_slice(), [WorkflowOutput::Report]));
    assert_eq!(
        shape(&w),
        vec![
            entry("detect_project", "project_detector", &[], 30),
            entry("analyze_code_quality", "analysis_engine", &["detect_project"], 300),
            entry("security_scan", "security_scanner", &["detect_project"], 180),
            entry("generate_copilot_prompt", "prompt_generator", &["analyze_code_quality", "security_scan"], 60),
            entry("copilot_review", "copilot_integration", &["generate_copilot_prompt"], 600),
            entry("generate_report", "report_generator", &["copilot_review"], 120),
        ]
    );
    match &w.steps[0].input {
        WorkflowInput::ProjectPath(p) => assert_eq!(p, &PathBuf::from(".")),
        other => panic!("unexpected input {:?}", other),
    }
    assert!(matches!(w.steps[1].input, WorkflowInput::ProjectInfo));
    assert!(matches!(w.steps[4].input, WorkflowInput::CopilotPrompt));
    match &w.steps[3].input {
        WorkflowInput::Custom(v) => assert_eq!(
            v,
            &object(&[
                ("type", Value::String("pr_review".to_string())),
                ("pr_number", Value::from(u32::MAX)),
            ])
        ),
        other => panic!("unexpected input {:?}", other),
    }
    match &w.steps[5].input {
        WorkflowInput::Custom(v) => assert_eq!(
            v,
            &object(&[
                ("type", Value::String("pr_review".to_string())),
                ("include_analysis", Value::Bool(true)),
                ("include_copilot", Value::Bool(true)),
            ])
        ),
        other => panic!("unexpected input {:?}", other),
    }
    assert!(matches!(w.steps[0].output, WorkflowOutput::ProjectInfo));
    assert!(matches!(w.steps[3].output, WorkflowOutput::CopilotPrompt));
    assert!(matches!(w.steps[4].output, WorkflowOutput::CopilotResponse));
    assert!(matches!(w.steps[5].output, WorkflowOutput::Report));
    for step in &w.steps {
        assert_eq!(step.retry_policy.max_attempts, 3);
        assert_eq!(step.retry_policy.backoff_strategy, BackoffStrategy::Exponential);
        assert_eq!(step.retry_policy.max_delay, Duration::from_secs(60));
    }
}

#[test]
fn built_in_workflows_are_valid_once_their_agents_are_registered() {
    let all = vec![
        create_pr_review_workflow(7).unwrap(),
        create_full_analysis_workflow().unwrap(),
        create_security_scan_workflow().unwrap(),
        create_performance_analysis_workflow().unwrap(),
        create_workflow_definition("pr_review", Some(3)).unwrap(),
        create_workflow_definition("pr_review", None).unwrap(),
        create_workflow_definition("full_analysis", None).unwrap(),
        create_workflow_definition("security_scan", Some(1)).unwrap(),
        create_workflow_definition("performance_analysis", None).unwrap(),
    ];
    for w in &all {
        assert_eq!(check_workflow(w, &registry_for(w)), Ok(()), "{}", w.name);
        assert_eq!(
            check_workflow(w, &AgentRegistry::new()),
            Err(ValidationFailure::UnknownAgent { step: 0 })
        );
    }
}

#[test]
fn short_workflows_by_type() {
    let with = create_workflow_definition("pr_review", Some(42)).unwrap();
    assert_eq!(with.name, "PR Review Workflow - PR #42");
    assert_eq!(with.description, "Comprehensive PR review workflow");
    assert_eq!(
        shape(&with),
        vec![
            entry("detect_project", "project_detector", &[], 30),
            entry("analyze_code", "analysis_engine", &["detect_project"], 300),
            entry("copilot_review", "copilot_integration", &["analyze_code"], 600),
        ]
    );
    let without = create_workflow_definition("pr_review", None).unwrap();
    assert_eq!(without.name, "PR Review Workflow - PR #0");
    assert_eq!(without.steps.len(), 2);
    let full = create_workflow_definition("full_analysis", Some(1)).unwrap();
    assert_eq!(full.name, "Full Analysis Workflow");
    assert_eq!(full.triggers, vec![WorkflowTrigger::Manual]);
    assert_eq!(
        shape(&full),
        vec![
            entry("detect_project", "project_detector", &[], 30),
            entry("analyze_code", "analysis_engine", &["detect_project"], 300),
            entry("security_scan", "security_scanner", &["detect_project"], 180),
        ]
    );
    let security = create_workflow_definition("security_scan", None).unwrap();
    assert_eq!(security.description, "Security-focused analysis workflow");
    assert_eq!(security.steps.len(), 2);
    assert_eq!(security.steps[1].agent, "security_scanner");
    let performance = create_workflow_definition("performance_analysis", None).unwrap();
    assert_eq!(performance.steps[1].name, "performance_analysis");
    assert_eq!(performance.steps[1].timeout, Duration::from_secs(240));
    match create_workflow_definition("PR_REVIEW", None) {
        Err(AgentError::Configuration(m)) => assert_eq!(m, "Unknown workflow type: PR_REVIEW"),
        _ => panic!("unknown type accepted"),
    }
    assert!(create_workflow_definition("", Some(1)).is_err());
}
