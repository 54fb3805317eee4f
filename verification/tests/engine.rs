use agent_workflow::engine::StepProgress;
use agent_workflow::engine::WorkflowEngine;
use agent_workflow::execution::NodeStatus;
use agent_workflow::inputs::prepare_step_input;
use agent_workflow::inputs::InputPlan;
use agent_workflow::model::AgentCapability;
use agent_workflow::model::AgentError;
use agent_workflow::model::Environment;
use agent_workflow::model::LogLevel;
use agent_workflow::model::ProjectType;
use agent_workflow::model::WorkflowContext;
use agent_workflow::model::WorkflowDefinition;
use agent_workflow::model::WorkflowInput;
use agent_workflow::model::WorkflowOutput;
use agent_workflow::model::WorkflowResult;
use agent_workflow::model::WorkflowStep;
use agent_workflow::model::WorkflowTrigger;
use agent_workflow::named_map::NamedMap;
use agent_workflow::recorder::ExecutionStatus;
use agent_workflow::registry::AgentProfile;
use agent_workflow::registry::AgentRegistry;
use agent_workflow::retry::AttemptOutcome;
use agent_workflow::retry::BackoffStrategy;
use agent_workflow::retry::RetryPolicy;
use serde_json::Value;
use std::path::PathBuf;
use std::time::Duration;

fn profile(name: &str) -> AgentProfile {
    AgentProfile {
        name: name.to_string(),
        version: "1.0.0".to_string(),
        description: "test agent".to_string(),
        supported_types: vec![ProjectType::Generic],
        capabilities: vec![AgentCapability::CodeAnalysis],
    }
}

fn engine_with(agents: &[&str]) -> WorkflowEngine {
    let mut registry = AgentRegistry::new();
    for name in agents {
        registry.register_agent(profile(name));
    }
    WorkflowEngine::new(registry)
}

fn step(name: &str, output: WorkflowOutput, dependencies: &[&str], max_attempts: u32) -> WorkflowStep {
    WorkflowStep {
        name: name.to_string(),
        agent: "worker".to_string(),
        input: WorkflowInput::Custom(Value::Null),
        output,
        dependencies: dependencies.iter().map(|d| d.to_string()).collect(),
        retry_policy: RetryPolicy {
            max_attempts,
            backoff_strategy: BackoffStrategy::Fixed,
            max_delay: Duration::from_secs(60),
        },
        timeout: Duration::from_secs(30),
    }
}

fn workflow(steps: Vec<WorkflowStep>, outputs: Vec<WorkflowOutput>) -> WorkflowDefinition {
    WorkflowDefinition {
        name: "review".to_string(),
        version: "1.0".to_string(),
        description: "a workflow under test".to_string(),
        triggers: vec![WorkflowTrigger::Manual],
        steps,
        variables: NamedMap::new(),
        outputs,
    }
}

fn context() -> WorkflowContext {
    WorkflowContext {
        project_path: PathBuf::from("/project"),
        environment: Environment::Testing,
        variables: NamedMap::new(),
        metadata: NamedMap::new(),
    }
}

fn object(members: &[(&str, Value)]) -> Value {
    let mut map = serde_json::Map::new();
    for (key, value) in members {
        map.insert(key.to_string(), value.clone());
    }
    Value::Object(map)
}

/// Drives a run to its end. Each launched step is attempted until the
/// engine says that it is done; `agent` plays the agents. Returns the
/// result and the order in which the steps were launched.
fn drive(
    engine: &mut WorkflowEngine,
    definition: WorkflowDefinition,
    id: u128,
    agent: &mut dyn FnMut(&str, u32) -> AttemptOutcome,
) -> (Result<WorkflowResult, AgentError>, Vec<String>) {
    let mut launched = Vec::new();
    let mut run = match engine.start_workflow(definition, context(), id, 1_000) {
        Ok(run) => run,
        Err(e) => return (Err(e), launched),
    };
    let mut now = 1_000;
    let mut in_flight: Vec<usize> = Vec::new();
    loop {
        while let Some(position) = engine.launch_next(&mut run, now) {
            let name = run.schedule().execution_graph().step(position).name.clone();
            launched.push(name);
            in_flight.push(position);
        }
        if in_flight.is_empty() {
            break;
        }
        let position = in_flight.remove(0);
        let name = run.schedule().execution_graph().step(position).name.clone();
        let mut attempt = 1;
        loop {
            now += 10;
            let outcome = agent(&name, attempt);
            match engine.record_attempt(&mut run, position, attempt, outcome, now) {
                StepProgress::RetryAfter { attempt: next, .. } => attempt = next,
                StepProgress::NotRunning => panic!("step {} was not running", name),
                _ => break,
            }
        }
    }
    assert!(run.is_finished());
    (engine.finish_workflow(run, now), launched)
}

fn chain() -> WorkflowDefinition {
    workflow(
        vec![
            step("detect", WorkflowOutput::ProjectInfo, &[], 1),
            step("analyze", WorkflowOutput::AnalysisResults, &["detect"], 2),
            step("report", WorkflowOutput::Report, &["analyze"], 1),
        ],
        vec![WorkflowOutput::Report],
    )
}

#[test]
fn linear_chain_with_succeeding_agents_gives_a_report() {
    let mut engine = engine_with(&["worker"]);
    let detected = object(&[("language", Value::String("rust".to_string()))]);
    let analyzed = object(&[("issues", Value::from(3u64))]);
    let (d, a) = (detected.clone(), analyzed.clone());
    let mut agent = move |name: &str, _attempt: u32| match name {
        "detect" => AttemptOutcome::Succeeded(d.clone()),
        "analyze" => AttemptOutcome::Succeeded(a.clone()),
        _ => AttemptOutcome::Succeeded(Value::String("done".to_string())),
    };
    let (result, launched) = drive(&mut engine, chain(), 7, &mut agent);
    let result = result.unwrap();
    assert!(result.success);
    assert_eq!(result.error, None);
    assert_eq!(launched, vec!["detect", "analyze", "report"]);
    assert_eq!(result.outputs.len(), 1);
    let report = result.outputs.get("report").unwrap();
    assert_eq!(report.get("project_info"), Some(&detected));
    assert_eq!(report.get("analysis_results"), Some(&analyzed));
    assert_eq!(report.get("copilot_response"), None);
    let summary = report.get("summary").unwrap().as_str().unwrap();
    assert_eq!(
        summary,
        "Code Review Analysis Report\n===========================\n\n\
         Project Information:\n  language: \"rust\"\n\n\
         Analysis Results:\n  issues: 3\n\n"
    );
    assert_eq!(
        report.get("generated_at").unwrap().as_str().unwrap(),
        "1970-01-01T00:00:01.030+00:00"
    );
    let record = engine.get_execution(7).unwrap();
    assert_eq!(record.status, ExecutionStatus::Completed);
    assert_eq!(record.end_time, Some(1_030));
    assert_eq!(record.execution_time, Some(Duration::from_millis(30)));
    assert_eq!(result.execution_time, Duration::from_millis(30));
    assert_eq!(record.step_results.len(), 3);
    assert_eq!(record.step_results.get("detect"), Some(&detected));
    let messages: Vec<&str> = result.logs.iter().map(|l| l.message.as_str()).collect();
    assert_eq!(
        messages,
        vec![
            "Started step: detect",
            "Completed step: detect",
            "Started step: analyze",
            "Completed step: analyze",
            "Started step: report",
            "Completed step: report",
        ]
    );
    assert!(result.logs.iter().all(|l| l.level == LogLevel::Info));
}

#[test]
fn step_that_always_times_out_fails_the_run_and_skips_its_dependents() {
    let mut engine = engine_with(&["worker"]);
    let mut attempts = 0;
    let mut agent = |name: &str, _attempt: u32| match name {
        "analyze" => {
            attempts += 1;
            AttemptOutcome::TimedOut
        },
        _ => AttemptOutcome::Succeeded(Value::Null),
    };
    let (result, launched) = drive(&mut engine, chain(), 8, &mut agent);
    let result = result.unwrap();
    assert_eq!(attempts, 2);
    assert!(!result.success);
    assert_eq!(result.error, Some("Timeout error: Step analyze timed out".to_string()));
    assert_eq!(result.outputs.len(), 0);
    assert_eq!(launched, vec!["detect", "analyze"]);
    let timed_out: Vec<&str> = result
        .logs
        .iter()
        .map(|l| l.message.as_str())
        .filter(|m| m.contains("timed out"))
        .collect();
    assert_eq!(
        timed_out,
        vec!["Step analyze timed out", "Step analyze failed: Timeout error: Step analyze timed out"]
    );
    let record = engine.get_execution(8).unwrap();
    assert_eq!(record.status, ExecutionStatus::Failed);
    assert_eq!(record.step_results.len(), 1);
}

#[test]
fn independent_step_completes_although_the_other_fails() {
    for failing_first in [true, false] {
        let mut engine = engine_with(&["worker"]);
        let (first, second) = if failing_first { ("bad", "good") } else { ("good", "bad") };
        let definition = workflow(
            vec![
                step(first, WorkflowOutput::AnalysisResults, &[], 1),
                step(second, WorkflowOutput::AnalysisResults, &[], 1),
                step("after_bad", WorkflowOutput::Report, &["bad"], 1),
                step("after_good", WorkflowOutput::Report, &["good"], 1),
            ],
            vec![],
        );
        let mut run = engine.start_workflow(definition, context(), 1, 0).unwrap();
        let a = engine.launch_next(&mut run, 1).unwrap();
        let b = engine.launch_next(&mut run, 1).unwrap();
        assert_eq!(engine.launch_next(&mut run, 1), None);
        let (bad, good) = if failing_first { (a, b) } else { (b, a) };
        let failure = AttemptOutcome::Failed(AgentError::Execution("boom".to_string()));
        assert!(matches!(
            engine.record_attempt(&mut run, bad, 1, failure, 2),
            StepProgress::Failed
        ));
        assert!(matches!(
            engine.record_attempt(&mut run, good, 1, AttemptOutcome::Succeeded(Value::Null), 3),
            StepProgress::Completed
        ));
        let after_good = engine.launch_next(&mut run, 4).unwrap();
        assert_eq!(run.schedule().execution_graph().step(after_good).name, "after_good");
        assert_eq!(engine.launch_next(&mut run, 4), None);
        assert!(matches!(
            engine.record_attempt(&mut run, after_good, 1, AttemptOutcome::Succeeded(Value::Null), 5),
            StepProgress::Completed
        ));
        assert!(run.is_finished());
        assert_eq!(run.schedule().status("good"), Some(NodeStatus::Completed));
        assert_eq!(run.schedule().status("after_good"), Some(NodeStatus::Completed));
        assert_eq!(run.schedule().status("bad"), Some(NodeStatus::Failed));
        assert_eq!(run.schedule().status("after_bad"), Some(NodeStatus::Skipped));
        let result = engine.finish_workflow(run, 6).unwrap();
        assert!(!result.success);
        assert_eq!(result.error, Some("Execution error: boom".to_string()));
    }
}

#[test]
fn two_runs_of_one_workflow_leave_two_records() {
    let mut engine = engine_with(&["worker"]);
    let mut agent = |_name: &str, _attempt: u32| AttemptOutcome::Succeeded(Value::Null);
    let mut ids = Vec::new();
    for _ in 0..2 {
        let run = engine.begin_workflow(chain(), context(), 5).unwrap();
        ids.push(run.execution_id());
        let result = engine.finish_workflow(run, 6);
        assert!(result.is_err());
    }
    assert_ne!(ids[0], ids[1]);
    let history = engine.get_execution_history();
    assert_eq!(history.len(), 2);
    assert_eq!(history[0].id, ids[0]);
    assert_eq!(history[1].id, ids[1]);
    let (first, _) = drive(&mut engine, chain(), 1, &mut agent);
    let (second, _) = drive(&mut engine, chain(), 2, &mut agent);
    assert!(first.unwrap().success && second.unwrap().success);
    assert_eq!(engine.get_execution_history().len(), 4);
    assert!(engine.get_execution(1).is_some());
    assert!(engine.get_execution(2).is_some());
    assert!(engine.get_execution(3).is_none());
}

#[test]
fn an_id_in_use_is_refused() {
    let mut engine = engine_with(&["worker"]);
    assert!(engine.start_workflow(chain(), context(), 9, 0).is_ok());
    match engine.start_workflow(chain(), context(), 9, 0) {
        Err(AgentError::Other(m)) => assert_eq!(m, "Execution id is already in use"),
        _ => panic!("the id was taken twice"),
    }
    assert_eq!(engine.get_execution_history().len(), 1);
}

#[test]
fn test_workflow_validation() {
    let mut engine = engine_with(&[]);
    let definition = WorkflowDefinition {
        name: "test_workflow".to_string(),
        version: "1.0".to_string(),
        description: "Test workflow".to_string(),
        triggers: vec![WorkflowTrigger::Manual],
        steps: vec![],
        variables: NamedMap::new(),
        outputs: vec![],
    };
    let mut agent = |_name: &str, _attempt: u32| AttemptOutcome::Succeeded(Value::Null);
    let (result, launched) = drive(&mut engine, definition, 1, &mut agent);
    assert!(result.is_ok());
    assert!(result.unwrap().success);
    assert!(launched.is_empty());
}

#[test]
fn invalid_workflow_is_recorded_as_failed() {
    let mut engine = engine_with(&["worker"]);
    let definition = workflow(vec![step("a", WorkflowOutput::Report, &["a"], 1)], vec![]);
    match engine.start_workflow(definition, context(), 4, 50) {
        Err(AgentError::Configuration(m)) => assert_eq!(m, "Circular dependencies detected"),
        _ => panic!("a cycle was accepted"),
    }
    let record = engine.get_execution(4).unwrap();
    assert_eq!(record.status, ExecutionStatus::Failed);
    assert_eq!(record.end_time, Some(50));
    assert_eq!(record.workflow_name, "review");
}

#[test]
fn missing_output_is_an_error() {
    let mut engine = engine_with(&["worker"]);
    let definition = workflow(
        vec![step("detect", WorkflowOutput::ProjectInfo, &[], 1)],
        vec![WorkflowOutput::ProjectInfo, WorkflowOutput::CopilotResponse],
    );
    let mut agent = |_name: &str, _attempt: u32| AttemptOutcome::Succeeded(Value::Null);
    let (result, _) = drive(&mut engine, definition, 3, &mut agent);
    match result {
        Err(AgentError::Execution(m)) => assert_eq!(m, "Copilot response not available"),
        _ => panic!("a missing output was passed over"),
    }
    assert_eq!(engine.get_execution(3).unwrap().status, ExecutionStatus::Failed);
}

#[test]
fn failing_step_is_attempted_max_attempts_times() {
    for max_attempts in 1..6u32 {
        let mut engine = engine_with(&["worker"]);
        let definition =
            workflow(vec![step("only", WorkflowOutput::Report, &[], max_attempts)], vec![]);
        let mut attempts = 0;
        let mut agent = |_name: &str, attempt: u32| {
            attempts += 1;
            assert_eq!(attempt, attempts);
            AttemptOutcome::Failed(AgentError::Other("no".to_string()))
        };
        let (result, _) = drive(&mut engine, definition, 1, &mut agent);
        assert!(!result.unwrap().success);
        assert_eq!(attempts, max_attempts);
    }
}

#[test]
fn step_that_succeeds_on_a_retry_completes() {
    let mut engine = engine_with(&["worker"]);
    let definition = workflow(vec![step("only", WorkflowOutput::AnalysisResults, &[], 3)], vec![
        WorkflowOutput::AnalysisResults,
    ]);
    let mut agent = |_name: &str, attempt: u32| {
        if attempt < 3 {
            AttemptOutcome::Failed(AgentError::Io("disk".to_string()))
        } else {
            AttemptOutcome::Succeeded(Value::from(42u64))
        }
    };
    let (result, _) = drive(&mut engine, definition, 1, &mut agent);
    let result = result.unwrap();
    assert!(result.success);
    assert_eq!(result.outputs.get("analysis_results"), Some(&Value::from(42u64)));
    let warnings: Vec<&str> = result
        .logs
        .iter()
        .filter(|l| l.level == LogLevel::Warn)
        .map(|l| l.message.as_str())
        .collect();
    assert_eq!(
        warnings,
        vec!["Step only failed, retrying: IO error: disk", "Step only failed, retrying: IO error: disk"]
    );
}

#[test]
fn retry_delay_follows_the_policy() {
    let mut engine = engine_with(&["worker"]);
    let mut only = step("only", WorkflowOutput::Report, &[], 5);
    only.retry_policy.backoff_strategy = BackoffStrategy::Exponential;
    only.retry_policy.max_delay = Duration::from_secs(3);
    let mut run = engine.start_workflow(workflow(vec![only], vec![]), context(), 1, 0).unwrap();
    let p = engine.launch_next(&mut run, 0).unwrap();
    let mut delays = Vec::new();
    let mut attempt = 1;
    loop {
        match engine.record_attempt(&mut run, p, attempt, AttemptOutcome::TimedOut, 0) {
            StepProgress::RetryAfter { delay, attempt: next } => {
                assert_eq!(next, attempt + 1);
                delays.push(delay.as_secs());
                attempt = next;
            },
            StepProgress::Failed => break,
            _ => panic!("unexpected progress"),
        }
    }
    assert_eq!(delays, vec![1, 2, 3, 3]);
}

#[test]
fn attempt_of_a_step_that_is_not_running_changes_nothing() {
    let mut engine = engine_with(&["worker"]);
    let mut run = engine.start_workflow(chain(), context(), 1, 0).unwrap();
    assert!(matches!(
        engine.record_attempt(&mut run, 0, 1, AttemptOutcome::Succeeded(Value::Null), 1),
        StepProgress::NotRunning
    ));
    assert!(matches!(
        engine.record_attempt(&mut run, 17, 1, AttemptOutcome::TimedOut, 1),
        StepProgress::NotRunning
    ));
    assert_eq!(run.schedule().status("detect"), Some(NodeStatus::Pending));
    assert_eq!(engine.get_execution(1).unwrap().logs.len(), 0);
    match engine.finish_workflow(run, 2) {
        Err(AgentError::Execution(m)) => assert_eq!(m, "Workflow is still running"),
        _ => panic!("a running workflow was finished"),
    }
    assert_eq!(engine.get_execution(1).unwrap().status, ExecutionStatus::Failed);
}

#[test]
fn input_that_cannot_be_made_counts_as_a_failed_attempt() {
    let mut engine = engine_with(&["worker"]);
    let mut lonely = step("review", WorkflowOutput::CopilotResponse, &[], 2);
    lonely.input = WorkflowInput::CopilotPrompt;
    let definition = workflow(vec![lonely, step("other", WorkflowOutput::ProjectInfo, &[], 1)], vec![]);
    let mut run = engine.start_workflow(definition, context(), 21, 100).unwrap();
    assert!(!run.has_failed());
    let first = engine.launch_next(&mut run, 110).unwrap();
    let second = engine.launch_next(&mut run, 110).unwrap();
    assert_eq!((first, second), (0, 1));
    assert!(engine.launch_next(&mut run, 110).is_none());
    let mut attempt = 1;
    loop {
        let plan = {
            let graph = run.schedule().execution_graph();
            prepare_step_input(graph.step(first), &context(), graph.definition(), run.schedule().step_results())
        };
        let outcome = match plan {
            Ok(InputPlan::Ready(_)) => panic!("no prompt was made"),
            Ok(InputPlan::DetectProject(_)) => panic!("no detection was asked for"),
            Err(e) => AttemptOutcome::Failed(e),
        };
        match engine.record_attempt(&mut run, first, attempt, outcome, 120) {
            StepProgress::RetryAfter { delay, attempt: next } => {
                assert_eq!(delay, Duration::from_secs(1));
                assert_eq!(next, 2);
                attempt = next;
            }
            StepProgress::Failed => break,
            other => panic!("unexpected {:?}", other),
        }
    }
    assert_eq!(attempt, 2);
    assert!(run.has_failed());
    assert!(!run.is_finished());
    assert!(matches!(
        engine.record_attempt(&mut run, second, 1, AttemptOutcome::Succeeded(Value::Bool(true)), 130),
        StepProgress::Completed
    ));
    assert!(run.is_finished());
    let result = engine.finish_workflow(run, 140).unwrap();
    assert!(!result.success);
    assert_eq!(result.error, Some("Execution error: Copilot prompt not available".to_string()));
    assert_eq!(result.execution_time, Duration::from_millis(40));
    let messages: Vec<&str> = result.logs.iter().map(|l| l.message.as_str()).collect();
    assert_eq!(
        messages,
        vec![
            "Started step: review",
            "Started step: other",
            "Step review failed, retrying: Execution error: Copilot prompt not available",
            "Step review failed: Execution error: Copilot prompt not available",
            "Completed step: other",
        ]
    );
}

#[test]
fn run_under_a_drawn_id_starts_exactly_for_a_valid_workflow() {
    let mut engine = engine_with(&["worker"]);
    let run = engine.begin_workflow(chain(), context(), 50).unwrap();
    assert_eq!(engine.get_execution_history().len(), 1);
    let record = engine.get_execution(run.execution_id()).unwrap();
    assert_eq!(record.status, ExecutionStatus::Running);
    assert_eq!(record.start_time, 50);
    assert_eq!(record.workflow_name, "review");
    assert!(!run.has_failed());
    assert_eq!(run.schedule().execution_graph().len(), 3);

    let mut strangers = engine_with(&["someone_else"]);
    match strangers.begin_workflow(chain(), context(), 60) {
        Err(AgentError::Configuration(m)) => assert_eq!(m, "Agent 'worker' not found for step 'detect'"),
        other => panic!("unexpected {:?}", other.map(|run| run.execution_id())),
    }
    let history = strangers.get_execution_history();
    assert_eq!(history.len(), 1);
    assert_eq!(history[0].status, ExecutionStatus::Failed);
    assert_eq!(history[0].end_time, Some(60));
}
