//! Retry policies: how often a step is attempted and how long to wait
//! between two attempts.
//!
//! Attempts are counted from one. After a failed attempt or a timeout the
//! step is attempted again, after a delay, as long as fewer than
//! `max_attempts` attempts have been made; the attempt that reaches
//! `max_attempts` ends the step with its error.

use vstd::prelude::*;
use vstd::string::StringExecFns;
use std::time::Duration;
use crate::model::AgentError;
use crate::outside::duration_secs;
use crate::outside::seconds;

verus! {

/// How the delay grows from one failed attempt to the next.
#[derive(Debug, Clone, Copy, PartialEq, Eq, Structural)]
pub enum BackoffStrategy {
    Fixed,
    Linear,
    Exponential,
}

/// How often a step is attempted and how long to wait in between.
#[derive(Debug, Clone)]
pub struct RetryPolicy {
    pub max_attempts: u32,
    pub backoff_strategy: BackoffStrategy,
    pub max_delay: Duration,
}

impl Default for RetryPolicy {
    /// Three attempts, with exponential backoff of at most a minute.
    fn default() -> (policy: Self)
        ensures
            policy.max_attempts == 3,
            policy.backoff_strategy == BackoffStrategy::Exponential,
            policy.max_delay == seconds(60),
    {
        RetryPolicy {
            max_attempts: 3,
            backoff_strategy: BackoffStrategy::Exponential,
            max_delay: Duration::from_secs(60),
        }
    }
}

/// Two to the power `e`.
pub open spec fn pow2(e: nat) -> nat
    decreases e,
{
    if e == 0 {
        1
    } else {
        2 * pow2((e - 1) as nat)
    }
}

/// Powers of two grow with the exponent.
pub proof fn lemma_pow2_grows(a: nat, b: nat)
    requires
        a <= b,
    ensures
        0 < pow2(a) <= pow2(b),
    decreases b,
{
    if a < b {
        lemma_pow2_grows(a, (b - 1) as nat);
    } else if a > 0 {
        lemma_pow2_grows((a - 1) as nat, (a - 1) as nat);
    }
}

/// The delay in seconds after the failed attempt number `attempt`: one
/// second with a fixed delay, `attempt` seconds with a linear one, and
/// `2^(attempt - 1)` seconds, but at most `max_delay`, with an exponential
/// one.
pub open spec fn backoff_secs(strategy: BackoffStrategy, attempt: nat, max_delay: nat) -> nat {
    match strategy {
        BackoffStrategy::Fixed => 1,
        BackoffStrategy::Linear => attempt,
        BackoffStrategy::Exponential => {
            let exponent = if attempt == 0 {
                0nat
            } else {
                (attempt - 1) as nat
            };
            if pow2(exponent) <= max_delay {
                pow2(exponent)
            } else {
                max_delay
            }
        },
    }
}

/// The delays after the failed attempts `1..=count`, in order.
pub open spec fn backoff_sequence(strategy: BackoffStrategy, count: nat, max_delay: nat) -> Seq<
    nat,
> {
    Seq::new(count, |i: int| backoff_secs(strategy, (i + 1) as nat, max_delay))
}

/// With a fixed delay every wait is one second; with a linear delay the
/// waits are 1, 2, 3, ...; with an exponential delay they are 1, 2, 4, ...,
/// each twice the one before, until `max_delay` is reached and kept.
pub proof fn lemma_backoff_sequences(count: nat, max_delay: nat)
    ensures
        forall|i: int|
            0 <= i < count ==> #[trigger] backoff_sequence(BackoffStrategy::Fixed, count, max_delay)[i]
                == 1,
        forall|i: int|
            0 <= i < count ==> #[trigger] backoff_sequence(BackoffStrategy::Linear, count, max_delay)[i]
                == i + 1,
        forall|i: int|
            0 <= i < count ==> #[trigger] backoff_sequence(
                BackoffStrategy::Exponential,
                count,
                max_delay,
            )[i] == (if pow2(i as nat) <= max_delay {
                pow2(i as nat)
            } else {
                max_delay
            }),
        count > 0 && max_delay >= 1 ==> backoff_sequence(
            BackoffStrategy::Exponential,
            count,
            max_delay,
        )[0] == 1,
        forall|i: int|
            0 <= i < count - 1 && pow2((i + 1) as nat) <= max_delay ==> #[trigger] backoff_sequence(
                BackoffStrategy::Exponential,
                count,
                max_delay,
            )[i + 1] == 2 * backoff_sequence(BackoffStrategy::Exponential, count, max_delay)[i],
        forall|i: int|
            0 <= i < count ==> #[trigger] backoff_sequence(
                BackoffStrategy::Exponential,
                count,
                max_delay,
            )[i] <= max_delay,
{
    assert forall|i: int|
        0 <= i < count - 1 && pow2((i + 1) as nat) <= max_delay implies #[trigger] backoff_sequence(
        BackoffStrategy::Exponential,
        count,
        max_delay,
    )[i + 1] == 2 * backoff_sequence(BackoffStrategy::Exponential, count, max_delay)[i] by {
        lemma_pow2_grows(i as nat, (i + 1) as nat);
    }
}

/// The delay before the next attempt, after the failed attempt number
/// `attempt`.
pub fn calculate_backoff(attempt: u32, retry_policy: &RetryPolicy) -> (delay: Duration)
    ensures
        delay == seconds(
            backoff_secs(
                retry_policy.backoff_strategy,
                attempt as nat,
                duration_secs(retry_policy.max_delay) as nat,
            ) as u64,
        ),
        backoff_secs(
            retry_policy.backoff_strategy,
            attempt as nat,
            duration_secs(retry_policy.max_delay) as nat,
        ) <= u64::MAX,
{
    match retry_policy.backoff_strategy {
        BackoffStrategy::Fixed => Duration::from_secs(1),
        BackoffStrategy::Linear => Duration::from_secs(attempt as u64),
        BackoffStrategy::Exponential => {
            let cap = retry_policy.max_delay.as_secs();
            let exponent: u32 = if attempt == 0 {
                0
            } else {
                attempt - 1
            };
            let mut delay: u64 = 1;
            let mut i: u32 = 0;
            while i < exponent && delay < cap
                invariant
                    i <= exponent,
                    delay == pow2(i as nat),
                    cap == duration_secs(retry_policy.max_delay),
                    exponent == (if attempt == 0 {
                        0int
                    } else {
                        attempt - 1
                    }),
                    retry_policy.backoff_strategy == BackoffStrategy::Exponential,
                decreases exponent - i,
            {
                if delay > u64::MAX / 2 {
                    proof {
                        assert(pow2((i + 1) as nat) == 2 * pow2(i as nat));
                        lemma_pow2_grows((i + 1) as nat, exponent as nat);
                    }
                    return Duration::from_secs(cap);
                }
                delay = delay * 2;
                i = i + 1;
            }
            proof {
                lemma_pow2_grows(i as nat, exponent as nat);
            }
            if delay <= cap && i == exponent {
                Duration::from_secs(delay)
            } else {
                Duration::from_secs(cap)
            }
        },
    }
}

/// How one attempt of a step ended.
#[derive(Debug, Clone)]
pub enum AttemptOutcome {
    /// The agent returned a result.
    Succeeded(serde_json::Value),
    /// The agent returned an error.
    Failed(AgentError),
    /// The attempt took longer than the step's timeout.
    TimedOut,
}

/// What to do after an attempt.
#[derive(Debug, Clone)]
pub enum StepAction {
    /// The step has completed with this result.
    Complete(serde_json::Value),
    /// Wait for `delay`, then make the attempt number `attempt`.
    Retry { delay: Duration, attempt: u32 },
    /// The step has failed with this error.
    GiveUp(AgentError),
}

/// Whether another attempt follows the failed attempt number `attempt`.
pub open spec fn retries_after(max_attempts: nat, attempt: nat) -> bool {
    attempt < max_attempts
}

/// The text of the error for a step that timed out.
pub open spec fn timeout_message(step_name: Seq<char>) -> Seq<char> {
    "Step "@ + step_name + " timed out"@
}

/// Decides what follows the attempt number `attempt` of the step
/// `step_name`. A success completes the step. A failure or a timeout is
/// followed by another attempt, after the backoff delay, while fewer than
/// `max_attempts` attempts have been made; else the step gives up with the
/// agent's error, or with a timeout error.
pub fn after_attempt(
    step_name: &str,
    retry_policy: &RetryPolicy,
    attempt: u32,
    outcome: AttemptOutcome,
) -> (action: StepAction)
    ensures
        match outcome {
            AttemptOutcome::Succeeded(result) => action == StepAction::Complete(result),
            AttemptOutcome::Failed(error) => if retries_after(
                retry_policy.max_attempts as nat,
                attempt as nat,
            ) {
                action == (StepAction::Retry {
                    delay: seconds(
                        backoff_secs(
                            retry_policy.backoff_strategy,
                            attempt as nat,
                            duration_secs(retry_policy.max_delay) as nat,
                        ) as u64,
                    ),
                    attempt: (attempt + 1) as u32,
                })
            } else {
                action == StepAction::GiveUp(error)
            },
            AttemptOutcome::TimedOut => if retries_after(
                retry_policy.max_attempts as nat,
                attempt as nat,
            ) {
                action == (StepAction::Retry {
                    delay: seconds(
                        backoff_secs(
                            retry_policy.backoff_strategy,
                            attempt as nat,
                            duration_secs(retry_policy.max_delay) as nat,
                        ) as u64,
                    ),
                    attempt: (attempt + 1) as u32,
                })
            } else {
                action matches StepAction::GiveUp(AgentError::Timeout(message)) && message@
                    == timeout_message(step_name@)
            },
        },
{
    match outcome {
        AttemptOutcome::Succeeded(result) => StepAction::Complete(result),
        AttemptOutcome::Failed(error) => {
            if attempt < retry_policy.max_attempts {
                StepAction::Retry {
                    delay: calculate_backoff(attempt, retry_policy),
                    attempt: attempt + 1,
                }
            } else {
                StepAction::GiveUp(error)
            }
        },
        AttemptOutcome::TimedOut => {
            if attempt < retry_policy.max_attempts {
                StepAction::Retry {
                    delay: calculate_backoff(attempt, retry_policy),
                    attempt: attempt + 1,
                }
            } else {
                let mut message = "Step ".to_owned();
                message.append(step_name);
                message.append(" timed out");
                StepAction::GiveUp(AgentError::Timeout(message))
            }
        },
    }
}

/// The number of attempts that are made, counting on from the attempt
/// number `attempt`, when the attempt number `k` succeeds exactly if
/// `succeeds[k - 1]` holds. The count stops at the first success, at the
/// attempt after which no retry follows, and where `succeeds` ends.
pub open spec fn attempts_made(max_attempts: nat, succeeds: Seq<bool>, attempt: nat) -> nat
    decreases succeeds.len() - attempt,
{
    if attempt == 0 || attempt > succeeds.len() {
        0
    } else if succeeds[attempt - 1] || !retries_after(max_attempts, attempt) {
        attempt
    } else if attempt == succeeds.len() {
        attempt
    } else {
        attempts_made(max_attempts, succeeds, attempt + 1)
    }
}

/// A step all of whose attempts fail is attempted exactly `max_attempts`
/// times.
pub proof fn lemma_failing_step_is_attempted_max_times(max_attempts: nat, succeeds: Seq<bool>)
    requires
        max_attempts >= 1,
        succeeds.len() >= max_attempts,
        forall|k: int| 0 <= k < succeeds.len() ==> !succeeds[k],
    ensures
        attempts_made(max_attempts, succeeds, 1) == max_attempts,
{
    lemma_attempts_from(max_attempts, succeeds, 1);
}

proof fn lemma_attempts_from(max_attempts: nat, succeeds: Seq<bool>, attempt: nat)
    requires
        1 <= attempt <= max_attempts,
        succeeds.len() >= max_attempts,
        forall|k: int| 0 <= k < succeeds.len() ==> !succeeds[k],
    ensures
        attempts_made(max_attempts, succeeds, attempt) == max_attempts,
    decreases max_attempts - attempt,
{
    if attempt < max_attempts {
        lemma_attempts_from(max_attempts, succeeds, attempt + 1);
    }
}

} // verus!
