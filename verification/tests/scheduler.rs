use agent_workflow::execution::create_execution_graph;
use agent_workflow::execution::NodeStatus;
use agent_workflow::model::WorkflowDefinition;
use agent_workflow::model::WorkflowInput;
use agent_workflow::model::WorkflowOutput;
use agent_workflow::model::WorkflowStep;
use agent_workflow::named_map::NamedMap;
use agent_workflow::retry::RetryPolicy;
use agent_workflow::scheduler::Scheduler;
use serde_json::Value;
use std::time::Duration;

fn scheduler(steps: &[(&str, &[&str])]) -> Scheduler {
    let steps = steps
        .iter()
        .map(|(name, dependencies)| WorkflowStep {
            name: name.to_string(),
            agent: "agent".to_string(),
            input: WorkflowInput::ProjectInfo,
            output: WorkflowOutput::AnalysisResults,
            dependencies: dependencies.iter().map(|d| d.to_string()).collect(),
            retry_policy: RetryPolicy::default(),
            timeout: Duration::from_secs(1),
        })
        .collect();
    let workflow = WorkflowDefinition {
        name: "w".to_string(),
        version: "1".to_string(),
        description: String::new(),
        triggers: vec![],
        steps,
        variables: NamedMap::new(),
        outputs: vec![],
    };
    Scheduler::new(create_execution_graph(workflow).unwrap())
}

fn statuses(s: &Scheduler) -> Vec<NodeStatus> {
    (0..s.execution_graph().len()).map(|i| s.execution_graph().node(i).status).collect()
}

#[test]
fn steps_without_dependencies_start_first_in_order() {
    let mut s = scheduler(&[("a", &[]), ("b", &["a"]), ("c", &[]), ("d", &["c", "a"])]);
    assert!(!s.is_finished());
    assert_eq!(s.next_ready(10), Some(0));
    assert_eq!(s.next_ready(11), Some(2));
    assert_eq!(s.next_ready(12), None);
    assert_eq!(
        statuses(&s),
        vec![NodeStatus::Running, NodeStatus::Pending, NodeStatus::Running, NodeStatus::Pending]
    );
    assert_eq!(s.execution_graph().node(0).start_time, Some(10));
    assert_eq!(s.execution_graph().node(2).start_time, Some(11));
    assert!(!s.is_finished());
}

#[test]
fn a_step_starts_only_after_all_its_dependencies() {
    let mut s = scheduler(&[("a", &[]), ("b", &[]), ("c", &["a", "b"])]);
    assert!(!s.can_execute_step(2));
    assert_eq!(s.next_ready(0), Some(0));
    assert_eq!(s.next_ready(0), Some(1));
    assert!(s.complete(1, Value::from(1u64), 5));
    assert!(!s.can_execute_step(2));
    assert_eq!(s.next_ready(6), None);
    assert_eq!(s.status("c"), Some(NodeStatus::Pending));
    assert!(s.complete(0, Value::from(2u64), 7));
    assert!(s.can_execute_step(2));
    assert_eq!(s.next_ready(8), Some(2));
    assert_eq!(s.next_ready(8), None);
    assert!(s.complete(2, Value::Null, 9));
    assert!(s.is_finished());
    assert_eq!(statuses(&s), vec![NodeStatus::Completed; 3]);
    assert_eq!(s.step_results().len(), 3);
    assert_eq!(s.step_results().name_at(0), "b");
    assert_eq!(s.step_results().get("a"), Some(&Value::from(2u64)));
    assert_eq!(s.execution_graph().node(0).result, Some(Value::from(2u64)));
    assert_eq!(s.execution_graph().node(0).end_time, Some(7));
}

#[test]
fn a_step_listed_twice_as_dependency_becomes_ready_once() {
    let mut s = scheduler(&[("a", &[]), ("b", &["a", "a"])]);
    assert_eq!(s.next_ready(0), Some(0));
    assert!(s.complete(0, Value::Null, 1));
    assert_eq!(s.next_ready(2), Some(1));
    assert_eq!(s.next_ready(2), None);
}

#[test]
fn failure_skips_all_that_depends_on_the_step_and_nothing_else() {
    let mut s = scheduler(&[
        ("root", &[]),
        ("child", &["root"]),
        ("grandchild", &["child"]),
        ("other", &[]),
        ("mixed", &["other", "grandchild"]),
        ("beside", &["other"]),
    ]);
    assert_eq!(s.next_ready(0), Some(0));
    assert_eq!(s.next_ready(0), Some(3));
    assert!(s.fail(0, 4));
    assert_eq!(
        statuses(&s),
        vec![
            NodeStatus::Failed,
            NodeStatus::Skipped,
            NodeStatus::Skipped,
            NodeStatus::Running,
            NodeStatus::Skipped,
            NodeStatus::Pending,
        ]
    );
    assert_eq!(s.execution_graph().node(0).end_time, Some(4));
    assert!(s.execution_graph().node(0).result.is_none());
    assert!(!s.is_finished());
    assert!(s.complete(3, Value::Null, 5));
    assert_eq!(s.next_ready(6), Some(5));
    assert_eq!(s.next_ready(6), None);
    assert!(s.complete(5, Value::Null, 7));
    assert!(s.is_finished());
    assert_eq!(s.position("mixed"), Some(4));
    assert_eq!(s.position("nobody"), None);
    assert_eq!(s.status("nobody"), None);
    let (graph, results) = s.into_parts();
    assert_eq!(graph.len(), 6);
    assert_eq!(results.len(), 2);
}

#[test]
fn only_a_running_step_can_end() {
    let mut s = scheduler(&[("a", &[]), ("b", &["a"])]);
    assert!(!s.complete(0, Value::Null, 1));
    assert!(!s.fail(0, 1));
    assert!(!s.complete(9, Value::Null, 1));
    assert!(!s.fail(9, 1));
    assert_eq!(statuses(&s), vec![NodeStatus::Pending, NodeStatus::Pending]);
    assert_eq!(s.next_ready(2), Some(0));
    assert!(s.complete(0, Value::Null, 3));
    assert!(!s.complete(0, Value::Null, 4));
    assert!(!s.fail(0, 4));
    assert_eq!(s.execution_graph().node(0).end_time, Some(3));
    assert_eq!(s.step_results().len(), 1);
}

#[test]
fn empty_workflow_is_finished_at_once() {
    let mut s = scheduler(&[]);
    assert!(s.is_finished());
    assert_eq!(s.next_ready(0), None);
}

/// A small generator of numbers that gives the same sequence on every run.
struct Numbers(u64);

impl Numbers {
    fn next(&mut self, below: usize) -> usize {
        self.0 = self.0.wrapping_mul(6364136223846793005).wrapping_add(1442695040888963407);
        ((self.0 >> 33) as usize) % below
    }
}

#[test]
fn launch_order_respects_the_dependencies_of_generated_graphs() {
    let mut numbers = Numbers(42);
    for round in 0..300 {
        let n = 1 + numbers.next(12);
        // The steps are ranked by a hidden order and listed in another one.
        let mut listed: Vec<usize> = (0..n).collect();
        for i in (1..n).rev() {
            listed.swap(i, numbers.next(i + 1));
        }
        let names: Vec<String> = (0..n).map(|rank| format!("step{}", rank)).collect();
        let mut dependencies: Vec<Vec<usize>> = vec![Vec::new(); n];
        for rank in 0..n {
            for lower in 0..rank {
                if numbers.next(4) == 0 {
                    dependencies[rank].push(lower);
                }
            }
        }
        let owned: Vec<(String, Vec<String>)> = listed
            .iter()
            .map(|&rank| (names[rank].clone(), dependencies[rank].iter().map(|&d| names[d].clone()).collect()))
            .collect();
        let borrowed: Vec<Vec<&str>> = owned.iter().map(|(_, d)| d.iter().map(|s| s.as_str()).collect()).collect();
        let steps: Vec<(&str, &[&str])> =
            owned.iter().zip(borrowed.iter()).map(|((name, _), d)| (name.as_str(), d.as_slice())).collect();
        let mut s = scheduler(&steps);
        let graph: Vec<Vec<usize>> = (0..n).map(|i| s.execution_graph().node(i).dependencies.clone()).collect();

        let mut running: Vec<usize> = Vec::new();
        let mut now = 0;
        loop {
            while let Some(position) = s.next_ready(now) {
                for &dependency in &graph[position] {
                    assert_eq!(
                        s.execution_graph().node(dependency).status,
                        NodeStatus::Completed,
                        "round {}: step {} started before step {}",
                        round,
                        position,
                        dependency
                    );
                }
                assert!(s.can_execute_step(position));
                assert!(!running.contains(&position), "round {}: step {} started twice", round, position);
                running.push(position);
                now += 1;
            }
            if running.is_empty() {
                break;
            }
            assert!(!s.is_finished());
            let position = running.swap_remove(numbers.next(running.len()));
            if numbers.next(5) == 0 {
                assert!(s.fail(position, now));
            } else {
                assert!(s.complete(position, Value::from(position as u64), now));
            }
            now += 1;
        }
        assert!(s.is_finished(), "round {}", round);
        let ended = statuses(&s);
        for i in 0..n {
            let lost = graph[i].iter().any(|&d| ended[d] == NodeStatus::Failed || ended[d] == NodeStatus::Skipped);
            match ended[i] {
                NodeStatus::Completed => {
                    assert!(graph[i].iter().all(|&d| ended[d] == NodeStatus::Completed));
                    assert_eq!(s.step_results().get(&steps[i].0), Some(&Value::from(i as u64)));
                }
                NodeStatus::Failed => assert!(!lost),
                NodeStatus::Skipped => assert!(lost),
                other => panic!("round {}: step {} ended as {:?}", round, i, other),
            }
        }
    }
}
