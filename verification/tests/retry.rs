use agent_workflow::model::AgentError;
use agent_workflow::retry::after_attempt;
use agent_workflow::retry::calculate_backoff;
use agent_workflow::retry::AttemptOutcome;
use agent_workflow::retry::BackoffStrategy;
use agent_workflow::retry::RetryPolicy;
use agent_workflow::retry::StepAction;
use serde_json::Value;
use std::time::Duration;

fn policy(strategy: BackoffStrategy, max_attempts: u32, max_delay: u64) -> RetryPolicy {
    RetryPolicy { max_attempts, backoff_strategy: strategy, max_delay: Duration::from_secs(max_delay) }
}

fn delays(strategy: BackoffStrategy, max_delay: u64, attempts: u32) -> Vec<u64> {
    (1..=attempts)
        .map(|attempt| calculate_backoff(attempt, &policy(strategy, 3, max_delay)).as_secs())
        .collect()
}

#[test]
fn test_retry_policy_default() {
    let policy = RetryPolicy::default();
    assert_eq!(policy.max_attempts, 3);
    assert!(matches!(policy.backoff_strategy, BackoffStrategy::Exponential));
    assert_eq!(policy.max_delay, Duration::from_secs(60));
}

#[test]
fn exponential_backoff_doubles_up_to_the_cap() {
    assert_eq!(delays(BackoffStrategy::Exponential, 60, 9), vec![1, 2, 4, 8, 16, 32, 60, 60, 60]);
    assert_eq!(delays(BackoffStrategy::Exponential, 64, 8), vec![1, 2, 4, 8, 16, 32, 64, 64]);
    assert_eq!(delays(BackoffStrategy::Exponential, 0, 3), vec![0, 0, 0]);
    assert_eq!(delays(BackoffStrategy::Exponential, 1, 3), vec![1, 1, 1]);
}

#[test]
fn exponential_backoff_does_not_overflow() {
    let p = policy(BackoffStrategy::Exponential, 3, u64::MAX);
    assert_eq!(calculate_backoff(0, &p), Duration::from_secs(1));
    assert_eq!(calculate_backoff(64, &p), Duration::from_secs(1u64 << 63));
    assert_eq!(calculate_backoff(65, &p), Duration::from_secs(u64::MAX));
    assert_eq!(calculate_backoff(u32::MAX, &p), Duration::from_secs(u64::MAX));
    let capped = policy(BackoffStrategy::Exponential, 3, 1000);
    assert_eq!(calculate_backoff(u32::MAX, &capped), Duration::from_secs(1000));
}

#[test]
fn linear_backoff_counts_the_attempts() {
    assert_eq!(delays(BackoffStrategy::Linear, 2, 5), vec![1, 2, 3, 4, 5]);
    let p = policy(BackoffStrategy::Linear, 3, 2);
    assert_eq!(calculate_backoff(u32::MAX, &p), Duration::from_secs(u32::MAX as u64));
    assert_eq!(calculate_backoff(0, &p), Duration::from_secs(0));
}

#[test]
fn fixed_backoff_is_one_second() {
    assert_eq!(delays(BackoffStrategy::Fixed, 60, 4), vec![1, 1, 1, 1]);
    assert_eq!(delays(BackoffStrategy::Fixed, 0, 2), vec![1, 1]);
}

#[test]
fn success_completes_the_step() {
    let p = policy(BackoffStrategy::Fixed, 1, 1);
    match after_attempt("s", &p, 1, AttemptOutcome::Succeeded(Value::from(5u64))) {
        StepAction::Complete(v) => assert_eq!(v, Value::from(5u64)),
        other => panic!("unexpected: {:?}", other),
    }
}

#[test]
fn failure_is_retried_until_the_attempts_are_used_up() {
    let p = policy(BackoffStrategy::Linear, 3, 1);
    for attempt in 1..3u32 {
        let failed = AttemptOutcome::Failed(AgentError::Other("x".to_string()));
        match after_attempt("s", &p, attempt, failed) {
            StepAction::Retry { delay, attempt: next } => {
                assert_eq!(delay, Duration::from_secs(attempt as u64));
                assert_eq!(next, attempt + 1);
            },
            other => panic!("unexpected: {:?}", other),
        }
        match after_attempt("s", &p, attempt, AttemptOutcome::TimedOut) {
            StepAction::Retry { delay, attempt: next } => {
                assert_eq!(delay, Duration::from_secs(attempt as u64));
                assert_eq!(next, attempt + 1);
            },
            other => panic!("unexpected: {:?}", other),
        }
    }
    let failed = AttemptOutcome::Failed(AgentError::Other("x".to_string()));
    match after_attempt("s", &p, 3, failed) {
        StepAction::GiveUp(AgentError::Other(m)) => assert_eq!(m, "x"),
        other => panic!("unexpected: {:?}", other),
    }
    match after_attempt("build", &p, 3, AttemptOutcome::TimedOut) {
        StepAction::GiveUp(AgentError::Timeout(m)) => assert_eq!(m, "Step build timed out"),
        other => panic!("unexpected: {:?}", other),
    }
}

#[test]
fn no_attempts_allowed_still_ends_after_the_first() {
    let p = policy(BackoffStrategy::Fixed, 0, 1);
    assert!(matches!(after_attempt("s", &p, 1, AttemptOutcome::TimedOut), StepAction::GiveUp(_)));
    let all = policy(BackoffStrategy::Fixed, u32::MAX, 1);
    assert!(matches!(
        after_attempt("s", &all, u32::MAX, AttemptOutcome::TimedOut),
        StepAction::GiveUp(_)
    ));
    assert!(matches!(
        after_attempt("s", &all, u32::MAX - 1, AttemptOutcome::TimedOut),
        StepAction::Retry { attempt: u32::MAX, .. }
    ));
}
