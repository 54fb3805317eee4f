//! The workflow engine: it validates a workflow, keeps the record of each
//! run, and decides step by step what a run does next.
//!
//! The engine does not run agents and does not wait. Its caller starts a
//! run with `start_workflow`, takes the steps that may start with
//! `launch_next`, runs each attempt of a step, and reports how the attempt
//! ended with `record_attempt`, which says whether the step is done, is to
//! be attempted again after a delay, or has failed. When `is_finished`
//! holds, `finish_workflow` closes the record and gives the result.
//!
//! A step that fails does not stop the run: the steps that depend on it are
//! skipped, all others go on, and the run ends as failed, with the error of
//! the first step that failed and without outputs.

use vstd::prelude::*;
use vstd::string::StringExecFns;
use std::time::Duration;
use crate::execution::create_execution_graph;
use crate::model::AgentError;
use crate::model::LogEntry;
use crate::model::LogLevel;
use crate::model::WorkflowContext;
use crate::model::WorkflowDefinition;
use crate::model::WorkflowResult;
use crate::named_map::NamedMap;
use crate::outputs::collected_outputs;
use crate::outputs::generate_outputs;
use crate::outputs::is_missing_output_error;
use crate::outputs::outputs_available;
use crate::outside::duration_secs;
use crate::outside::milliseconds;
use crate::outside::random_execution_id;
use crate::outside::rfc3339_text;
use crate::outside::seconds;
use crate::outside::timestamp_rfc3339;
use crate::recorder::appended_log;
use crate::recorder::closed_record;
use crate::recorder::elapsed;
use crate::recorder::elapsed_millis;
use crate::recorder::ExecutionRecorder;
use crate::recorder::ExecutionStatus;
use crate::recorder::has_record;
use crate::recorder::is_open;
use crate::recorder::lemma_appended_records_differ;
use crate::recorder::lemma_record_position;
use crate::recorder::record_position;
use crate::recorder::same_runs;
use crate::recorder::WorkflowExecution;
use crate::registry::AgentRegistry;
use crate::retry::after_attempt;
use crate::retry::AttemptOutcome;
use crate::retry::backoff_secs;
use crate::retry::retries_after;
use crate::retry::StepAction;
use crate::retry::timeout_message;
use crate::scheduler::Scheduler;
use crate::validator::fails_with;
use crate::validator::failure_message;
use crate::validator::validate_workflow;
use crate::validator::ValidationFailure;
use crate::validator::workflow_valid;

verus! {

/// The engine: the registered agents and the history of runs.
pub struct WorkflowEngine {
    registry: AgentRegistry,
    recorder: ExecutionRecorder,
}

/// One run in progress.
pub struct WorkflowRun {
    execution_id: u128,
    scheduler: Scheduler,
    failure: Option<String>,
}

/// What follows an attempt of a step.
#[derive(Debug, Clone)]
pub enum StepProgress {
    /// The step has completed.
    Completed,
    /// The step is to be attempted again, as attempt number `attempt`,
    /// after `delay`.
    RetryAfter { delay: Duration, attempt: u32 },
    /// The step has failed for good.
    Failed,
    /// There is no such step, or the step is not running: nothing was
    /// recorded.
    NotRunning,
}

/// The log line for a step that starts.
pub open spec fn started_message(name: Seq<char>) -> Seq<char> {
    "Started step: "@ + name
}

/// The log line for a step that has completed.
pub open spec fn completed_message(name: Seq<char>) -> Seq<char> {
    "Completed step: "@ + name
}

/// The log line for an attempt that failed and is followed by another.
pub open spec fn retry_message(name: Seq<char>, outcome: AttemptOutcome) -> Seq<char> {
    match outcome {
        AttemptOutcome::Failed(error) => "Step "@ + name + " failed, retrying: "@
            + error.message_text(),
        _ => timeout_message(name),
    }
}

/// The error with which a step gives up after an attempt with that
/// outcome.
pub open spec fn final_error_text(name: Seq<char>, outcome: AttemptOutcome) -> Seq<char> {
    match outcome {
        AttemptOutcome::Failed(error) => error.message_text(),
        _ => "Timeout error: "@ + timeout_message(name),
    }
}

/// The log line for a step that has failed for good after an attempt with
/// that outcome.
pub open spec fn failed_message(name: Seq<char>, outcome: AttemptOutcome) -> Seq<char> {
    "Step "@ + name + " failed: "@ + final_error_text(name, outcome)
}

/// The time of a report: the time in RFC 3339 notation, or `unknown` for
/// a time outside the calendar.
pub open spec fn report_time_text(now: i64) -> Seq<char> {
    match rfc3339_text(now) {
        Some(text) => text,
        None => "unknown"@,
    }
}

/// Two log lines say the same.
pub open spec fn same_line(a: LogEntry, b: LogEntry) -> bool {
    &&& a.timestamp == b.timestamp
    &&& a.level == b.level
    &&& a.message == b.message
    &&& a.metadata.names() == b.metadata.names()
    &&& a.metadata.values() == b.metadata.values()
}

/// Two logs say the same, line for line.
pub open spec fn same_lines(a: Seq<LogEntry>, b: Seq<LogEntry>) -> bool {
    &&& a.len() == b.len()
    &&& forall|i: int| 0 <= i < a.len() ==> same_line(#[trigger] a[i], b[i])
}

/// A copy of a log.
pub fn copy_lines(lines: &Vec<LogEntry>) -> (copy: Vec<LogEntry>)
    ensures
        same_lines(copy@, lines@),
{
    let mut copy: Vec<LogEntry> = Vec::new();
    let mut i: usize = 0;
    while i < lines.len()
        invariant
            i <= lines@.len(),
            copy@.len() == i,
            forall|j: int| 0 <= j < i ==> same_line(#[trigger] copy@[j], lines@[j]),
        decreases lines@.len() - i,
    {
        let line = &lines[i];
        copy.push(
            LogEntry {
                timestamp: line.timestamp,
                level: line.level,
                message: line.message.clone(),
                metadata: line.metadata.duplicate(),
            },
        );
        i = i + 1;
    }
    copy
}

/// The record that was appended last stands at the last position.
proof fn lemma_position_of_new_record(history: Seq<WorkflowExecution>, id: u128)
    requires
        history.len() > 0,
        history.last().id == id,
        !has_record(history.drop_last(), id),
    ensures
        record_position(history, id) == history.len() - 1,
        has_record(history, id),
    decreases history.len(),
{
    let front = history.drop_last();
    lemma_record_position(front, id);
    lemma_record_position(history, id);
    let p = record_position(history, id);
    if p < history.len() - 1 {
        assert(front[p] == history[p]);
    }
}

impl WorkflowRun {
    /// The id of the run, which is the id of its record.
    pub closed spec fn id(&self) -> u128 {
        self.execution_id
    }

    /// The scheduler of the run.
    pub closed spec fn scheduler(&self) -> Scheduler {
        self.scheduler
    }

    /// The text of the error of the first step that failed for good.
    pub closed spec fn failure(&self) -> Option<Seq<char>> {
        match self.failure {
            Some(text) => Some(text@),
            None => None,
        }
    }

    /// The run is in order: what holds of its scheduler between any two
    /// calls holds.
    pub open spec fn wf(&self) -> bool {
        self.scheduler().inv()
    }

    /// The id of the run.
    pub fn execution_id(&self) -> (id: u128)
        ensures
            id == self.id(),
    {
        self.execution_id
    }

    /// The scheduler of the run.
    pub fn schedule(&self) -> (scheduler: &Scheduler)
        ensures
            *scheduler == self.scheduler(),
    {
        &self.scheduler
    }

    /// Whether the run is over: no step is ready and none is running.
    pub fn is_finished(&self) -> (b: bool)
        requires
            self.wf(),
        ensures
            b == self.scheduler().is_idle(),
    {
        self.scheduler.is_finished()
    }

    /// Whether a step of the run has failed for good.
    pub fn has_failed(&self) -> (b: bool)
        ensures
            b == self.failure().is_some(),
    {
        self.failure.is_some()
    }
}

impl WorkflowEngine {
    /// The registered agents.
    pub closed spec fn registry(&self) -> AgentRegistry {
        self.registry
    }

    /// The records of the runs, oldest first.
    pub closed spec fn history(&self) -> Seq<WorkflowExecution> {
        self.recorder.history()
    }

    /// No two records share an id.
    pub open spec fn wf(&self) -> bool {
        crate::recorder::ids_distinct(self.history())
    }

    /// An engine for these agents, without a history.
    pub fn new(registry: AgentRegistry) -> (engine: Self)
        ensures
            engine.registry() == registry,
            engine.history().len() == 0,
            engine.wf(),
    {
        WorkflowEngine { registry, recorder: ExecutionRecorder::new() }
    }

    /// The registered agents.
    pub fn agents(&self) -> (registry: &AgentRegistry)
        ensures
            *registry == self.registry(),
    {
        &self.registry
    }

    /// All records, oldest first.
    pub fn get_execution_history(&self) -> (records: &Vec<WorkflowExecution>)
        ensures
            records@ == self.history(),
    {
        self.recorder.get_execution_history()
    }

    /// The record of the run with that id.
    pub fn get_execution(&self, execution_id: u128) -> (record: Option<&WorkflowExecution>)
        ensures
            record is Some <==> has_record(self.history(), execution_id),
            record matches Some(r) ==> *r == self.history()[record_position(
                self.history(),
                execution_id,
            )] && r.id == execution_id,
    {
        self.recorder.get_execution(execution_id)
    }

    /// Validates a workflow against the registered agents.
    pub fn validate_workflow(&self, workflow: &WorkflowDefinition) -> (r: Result<(), AgentError>)
        ensures
            r is Ok <==> workflow_valid(workflow, &self.registry()),
            r matches Err(e) ==> exists|failure: ValidationFailure|
                fails_with(workflow, &self.registry(), failure) && (
                e matches AgentError::Configuration(message) && message@ == failure_message(
                    workflow,
                    failure,
                )),
    {
        let r = validate_workflow(workflow, &self.registry);
        proof {
            if r is Err {
                let e = r->Err_0;
                let failure = choose|failure: ValidationFailure|
                    fails_with(workflow, &self.registry, failure) && (
                    e matches AgentError::Configuration(message) && message@ == failure_message(
                        workflow,
                        failure,
                    ));
                assert(fails_with(workflow, &self.registry(), failure));
            }
        }
        r
    }

    /// What `start_workflow` leaves in the history for a run with a new id:
    /// one record more, which is running where the workflow is valid, and
    /// closed as failed at `now` where it is not.
    pub open spec fn recorded_start(
        before: Seq<WorkflowExecution>,
        after: Seq<WorkflowExecution>,
        id: u128,
        workflow: WorkflowDefinition,
        context: WorkflowContext,
        valid: bool,
        now: i64,
    ) -> bool {
        &&& after.len() == before.len() + 1
        &&& after.drop_last() == before
        &&& after.last().id == id
        &&& after.last().workflow_name@ == workflow.name@
        &&& after.last().start_time == now
        &&& after.last().context == context
        &&& after.last().logs@.len() == 0
        &&& after.last().step_results.names().len() == 0
        &&& valid ==> after.last().status == ExecutionStatus::Running && after.last().end_time
            is None && after.last().execution_time is None
        &&& !valid ==> after.last().status == ExecutionStatus::Failed && after.last().end_time
            == Some(now) && after.last().execution_time == Some(milliseconds(0))
    }

    /// A run as it is when it has just started under an id: in order, with
    /// no failure and no results, on a fresh graph of the workflow, and
    /// with the steps that depend on nothing ready to start.
    pub open spec fn is_new_run(run: WorkflowRun, workflow: WorkflowDefinition, id: u128) -> bool {
        &&& run.id() == id
        &&& run.wf()
        &&& run.failure() is None
        &&& run.scheduler().graph().workflow() == workflow
        &&& run.scheduler().graph().is_fresh()
        &&& run.scheduler().results().names().len() == 0
        &&& forall|i: int|
            0 <= i < workflow.steps@.len() ==> (run.scheduler().ready().contains(i)
                <==> workflow.steps@[i].dependencies@.len() == 0)
    }

    /// What starting a run under the id `id` at `now` makes of the engine,
    /// and what it gives. The agents stay as they are. An id that a record
    /// has already is refused, and the history stays as it is. Under a new
    /// id the run is recorded; a valid workflow gives the new run, and one
    /// that is not valid gives the error of the first check that it fails.
    pub open spec fn started(
        before: Self,
        after: Self,
        workflow: WorkflowDefinition,
        context: WorkflowContext,
        id: u128,
        now: i64,
        r: Result<WorkflowRun, AgentError>,
    ) -> bool {
        &&& after.registry() == before.registry()
        &&& if has_record(before.history(), id) {
            after.history() == before.history() && (r matches Err(AgentError::Other(m)) && m@
                == "Execution id is already in use"@)
        } else {
            &&& Self::recorded_start(
                before.history(),
                after.history(),
                id,
                workflow,
                context,
                workflow_valid(&workflow, &before.registry()),
                now,
            )
            &&& match r {
                Ok(run) => workflow_valid(&workflow, &before.registry()) && Self::is_new_run(
                    run,
                    workflow,
                    id,
                ),
                Err(e) => !workflow_valid(&workflow, &before.registry()) && exists|
                    failure: ValidationFailure,
                |
                    fails_with(&workflow, &before.registry(), failure) && (
                    e matches AgentError::Configuration(message) && message@ == failure_message(
                        &workflow,
                        failure,
                    )),
            }
        }
    }

    /// Starts a run under the id `execution_id`. The record of the run is
    /// made first; then the workflow is validated and its execution graph
    /// is built. A workflow that is not valid closes the record as failed
    /// and gives the validation error. An id that a record already has is
    /// refused, and nothing is recorded.
    pub fn start_workflow(
        &mut self,
        workflow: WorkflowDefinition,
        context: WorkflowContext,
        execution_id: u128,
        now: i64,
    ) -> (r: Result<WorkflowRun, AgentError>)
        ensures
            Self::started(*old(self), *final(self), workflow, context, execution_id, now, r),
            old(self).wf() ==> final(self).wf(),
    {
        let ghost before = self.history();
        let name = workflow.name.clone();
        if !self.recorder.start(execution_id, name, context, now) {
            return Err(AgentError::Other("Execution id is already in use".to_owned()));
        }
        let ghost opened = self.history();
        proof {
            lemma_position_of_new_record(opened, execution_id);
        }
        match validate_workflow(&workflow, &self.registry) {
            Err(e) => {
                let closed = self.recorder.finish(execution_id, false, NamedMap::new(), now);
                proof {
                    let failure = choose|failure: ValidationFailure|
                        fails_with(&workflow, &self.registry, failure) && (
                        e matches AgentError::Configuration(message) && message@ == failure_message(
                            &workflow,
                            failure,
                        ));
                    assert(fails_with(&workflow, &old(self).registry(), failure));
                    let after = self.history();
                    assert(after.drop_last() =~= before) by {
                        assert forall|i: int| 0 <= i < before.len() implies after.drop_last()[i]
                            == before[i] by {
                            assert(after[i] == opened[i]);
                            assert(opened.drop_last()[i] == opened[i]);
                        }
                    }
                }
                Err(e)
            },
            Ok(()) => {
                match create_execution_graph(workflow) {
                    Ok(graph) => {
                        let scheduler = Scheduler::new(graph);
                        proof {
                            let g = graph.graph();
                            assert forall|i: int| 0 <= i < workflow.steps@.len() implies (
                            scheduler.ready().contains(i) <==> workflow.steps@[i].dependencies@.len()
                                == 0) by {
                                assert(g[i].len() == workflow.steps@[i].dependencies@.len());
                            }
                        }
                        Ok(WorkflowRun { execution_id, scheduler, failure: None })
                    },
                    Err(e) => {
                        proof {
                            assert(false);
                        }
                        Err(e)
                    },
                }
            },
        }
    }

    /// Starts a run under a new id, which is drawn at random: the engine
    /// and the result are what `start_workflow` makes of them under some
    /// id. Into an empty history every id is new, so there a run starts
    /// exactly when the workflow is valid. An id that happens to be in use
    /// is refused as `start_workflow` refuses it.
    pub fn begin_workflow(&mut self, workflow: WorkflowDefinition, context: WorkflowContext, now: i64) -> (r:
        Result<WorkflowRun, AgentError>)
        ensures
            exists|id: u128| #[trigger]
                Self::started(*old(self), *final(self), workflow, context, id, now, r),
            final(self).registry() == old(self).registry(),
            old(self).wf() ==> final(self).wf(),
            old(self).history().len() == 0 ==> (r is Ok <==> workflow_valid(
                &workflow,
                &old(self).registry(),
            )) && final(self).history().len() == 1,
            r matches Ok(run) ==> {
                &&& !has_record(old(self).history(), run.id())
                &&& workflow_valid(&workflow, &old(self).registry())
                &&& Self::recorded_start(
                    old(self).history(),
                    final(self).history(),
                    run.id(),
                    workflow,
                    context,
                    true,
                    now,
                )
                &&& Self::is_new_run(run, workflow, run.id())
            },
            r is Err && final(self).history() != old(self).history() ==> !workflow_valid(
                &workflow,
                &old(self).registry(),
            ),
    {
        let execution_id = random_execution_id();
        let r = self.start_workflow(workflow, context, execution_id, now);
        proof {
            assert(Self::started(*old(self), *self, workflow, context, execution_id, now, r));
            lemma_record_position(old(self).history(), execution_id);
        }
        r
    }

    /// Takes the next ready step of the run, marks it as running since
    /// `now` and logs that it started. Returns the step's position, or
    /// `None`, with nothing changed, when no step is ready.
    pub fn launch_next(&mut self, run: &mut WorkflowRun, now: i64) -> (r: Option<usize>)
        requires
            old(run).wf(),
        ensures
            final(run).wf(),
            final(run).id() == old(run).id(),
            final(run).failure() == old(run).failure(),
            final(self).registry() == old(self).registry(),
            old(self).wf() ==> final(self).wf(),
            match r {
                Some(p) => Scheduler::launched(
                    &old(run).scheduler(),
                    &final(run).scheduler(),
                    p as int,
                    now,
                ) && appended_log(
                    old(self).history(),
                    final(self).history(),
                    old(run).id(),
                    LogLevel::Info,
                    started_message(old(run).scheduler().names()[p as int]),
                    now,
                ),
                None => old(run).scheduler().ready().len() == 0 && Scheduler::unchanged(
                    &old(run).scheduler(),
                    &final(run).scheduler(),
                ) && final(self).history() == old(self).history(),
            },
    {
        match run.scheduler.next_ready(now) {
            None => None,
            Some(p) => {
                let mut message = "Started step: ".to_owned();
                message.append(run.scheduler.execution_graph().step(p).name.as_str());
                self.recorder.log_execution_event(run.execution_id, LogLevel::Info, message, now);
                Some(p)
            },
        }
    }

    /// Records how the attempt number `attempt` of the running step at
    /// `position` ended, and says what follows.
    ///
    /// A success completes the step and logs it. A failure or a timeout is
    /// followed by another attempt, after the backoff delay of the step's
    /// retry policy, while fewer than `max_attempts` attempts have been
    /// made: the step stays running and a warning is logged. Else the step
    /// fails for good: the steps that depend on it are skipped, an error is
    /// logged, and the run keeps the error of its first failed step.
    pub fn record_attempt(
        &mut self,
        run: &mut WorkflowRun,
        position: usize,
        attempt: u32,
        outcome: AttemptOutcome,
        now: i64,
    ) -> (progress: StepProgress)
        requires
            old(run).wf(),
        ensures
            final(run).wf(),
            final(run).id() == old(run).id(),
            final(self).registry() == old(self).registry(),
            old(self).wf() ==> final(self).wf(),
            !old(run).scheduler().is_running(position as int) ==> {
                &&& progress == StepProgress::NotRunning
                &&& Scheduler::unchanged(&old(run).scheduler(), &final(run).scheduler())
                &&& final(run).failure() == old(run).failure()
                &&& final(self).history() == old(self).history()
            },
            old(run).scheduler().is_running(position as int) ==> {
                let name = old(run).scheduler().names()[position as int];
                let policy = old(run).scheduler().graph().workflow().steps@[position as int].retry_policy;
                match outcome {
                    AttemptOutcome::Succeeded(result) => {
                        &&& progress == StepProgress::Completed
                        &&& Scheduler::completed(
                            &old(run).scheduler(),
                            &final(run).scheduler(),
                            position as int,
                            result,
                            now,
                        )
                        &&& final(run).failure() == old(run).failure()
                        &&& appended_log(
                            old(self).history(),
                            final(self).history(),
                            old(run).id(),
                            LogLevel::Info,
                            completed_message(name),
                            now,
                        )
                    },
                    _ => if retries_after(policy.max_attempts as nat, attempt as nat) {
                        &&& progress == (StepProgress::RetryAfter {
                            delay: seconds(
                                backoff_secs(
                                    policy.backoff_strategy,
                                    attempt as nat,
                                    duration_secs(policy.max_delay) as nat,
                                ) as u64,
                            ),
                            attempt: (attempt + 1) as u32,
                        })
                        &&& Scheduler::unchanged(&old(run).scheduler(), &final(run).scheduler())
                        &&& final(run).failure() == old(run).failure()
                        &&& appended_log(
                            old(self).history(),
                            final(self).history(),
                            old(run).id(),
                            LogLevel::Warn,
                            retry_message(name, outcome),
                            now,
                        )
                    } else {
                        &&& progress == StepProgress::Failed
                        &&& Scheduler::failed(
                            &old(run).scheduler(),
                            &final(run).scheduler(),
                            position as int,
                            now,
                        )
                        &&& final(run).failure() == (match old(run).failure() {
                            Some(first) => Some(first),
                            None => Some(final_error_text(name, outcome)),
                        })
                        &&& appended_log(
                            old(self).history(),
                            final(self).history(),
                            old(run).id(),
                            LogLevel::Error,
                            failed_message(name, outcome),
                            now,
                        )
                    },
                }
            },
    {
        let ghost names = run.scheduler().names();
        if position >= run.scheduler.execution_graph().len() {
            return StepProgress::NotRunning;
        }
        assert(run.scheduler().statuses()[position as int]
            == run.scheduler().graph().nodes()[position as int].status);
        match run.scheduler.execution_graph().node(position).status {
            crate::execution::NodeStatus::Running => {},
            _ => {
                return StepProgress::NotRunning;
            },
        }
        let name = run.scheduler.execution_graph().step(position).name.clone();
        assert(name@ == names[position as int]);
        let retry_line = match &outcome {
            AttemptOutcome::Failed(error) => {
                let mut line = "Step ".to_owned();
                line.append(name.as_str());
                line.append(" failed, retrying: ");
                line.append(error.message().as_str());
                line
            },
            _ => {
                let mut line = "Step ".to_owned();
                line.append(name.as_str());
                line.append(" timed out");
                line
            },
        };
        let action = after_attempt(
            name.as_str(),
            &run.scheduler.execution_graph().step(position).retry_policy,
            attempt,
            outcome,
        );
        match action {
            StepAction::Complete(result) => {
                run.scheduler.complete(position, result, now);
                let mut message = "Completed step: ".to_owned();
                message.append(name.as_str());
                self.recorder.log_execution_event(run.execution_id, LogLevel::Info, message, now);
                StepProgress::Completed
            },
            StepAction::Retry { delay, attempt: next } => {
                self.recorder.log_execution_event(run.execution_id, LogLevel::Warn, retry_line, now);
                StepProgress::RetryAfter { delay, attempt: next }
            },
            StepAction::GiveUp(error) => {
                run.scheduler.fail(position, now);
                let text = error.message();
                let mut message = "Step ".to_owned();
                message.append(name.as_str());
                message.append(" failed: ");
                message.append(text.as_str());
                self.recorder.log_execution_event(run.execution_id, LogLevel::Error, message, now);
                if run.failure.is_none() {
                    run.failure = Some(text);
                }
                StepProgress::Failed
            },
        }
    }

    /// The time that the run with that id has taken at `now`: none where it
    /// has no record.
    pub open spec fn time_taken(history: Seq<WorkflowExecution>, id: u128, now: i64) -> Duration {
        if has_record(history, id) {
            milliseconds(elapsed_millis(history[record_position(history, id)].start_time, now))
        } else {
            milliseconds(0)
        }
    }

    /// The result of a run has the log of the run's record, or no log where
    /// the run has no record.
    pub open spec fn has_log_of(result: WorkflowResult, history: Seq<WorkflowExecution>, id: u128) -> bool {
        if has_record(history, id) {
            same_lines(result.logs@, history[record_position(history, id)].logs@)
        } else {
            result.logs@.len() == 0
        }
    }

    /// Ends a run at `now`: closes its record, with the results of its
    /// steps, and gives the result of the run.
    ///
    /// A run in which no step failed succeeds where every declared output
    /// has a value; its outputs are those values, and the report, if one is
    /// declared, bears the time `now`. Where an output is missing the run
    /// ends with the error that names it. A run in which a step failed
    /// gives a result without success and without outputs, with the error
    /// of the first step that failed. A run that is not over yet is
    /// abandoned with an error. In every case but success the record is
    /// closed as failed.
    pub fn finish_workflow(&mut self, run: WorkflowRun, now: i64) -> (r: Result<
        WorkflowResult,
        AgentError,
    >)
        requires
            run.wf(),
        ensures
            final(self).registry() == old(self).registry(),
            old(self).wf() ==> final(self).wf(),
            is_open(old(self).history(), run.id()) ==> closed_record(
                old(self).history(),
                final(self).history(),
                run.id(),
                r matches Ok(result) && result.success,
                run.scheduler().results(),
                now,
            ),
            !is_open(old(self).history(), run.id()) ==> final(self).history() == old(self).history(),
            r matches Ok(result) ==> result.execution_time == Self::time_taken(
                old(self).history(),
                run.id(),
                now,
            ) && Self::has_log_of(result, old(self).history(), run.id()),
            !run.scheduler().is_idle() ==> (r matches Err(AgentError::Execution(m)) && m@
                == "Workflow is still running"@),
            run.scheduler().is_idle() ==> match run.failure() {
                Some(text) => r matches Ok(result) && !result.success
                    && result.outputs.names().len() == 0 && (result.error matches Some(m) && m@
                    == text),
                None => if outputs_available(
                    &run.scheduler().graph().workflow(),
                    &run.scheduler().results(),
                    report_time_text(now),
                ) {
                    r matches Ok(result) && result.success && result.error is None && (
                        result.outputs.names(),
                        result.outputs.values(),
                    ) == collected_outputs(
                        &run.scheduler().graph().workflow(),
                        &run.scheduler().results(),
                        report_time_text(now),
                        run.scheduler().graph().workflow().outputs@.len(),
                    )
                } else {
                    r matches Err(e) && is_missing_output_error(
                        &run.scheduler().graph().workflow(),
                        &run.scheduler().results(),
                        report_time_text(now),
                        e,
                    )
                },
            },
    {
        let finished = run.scheduler.is_finished();
        let execution_id = run.execution_id;
        let (start, logs) = match self.recorder.get_execution(execution_id) {
            Some(record) => (record.start_time, copy_lines(&record.logs)),
            None => (now, Vec::new()),
        };
        let took = Duration::from_millis(elapsed(start, now));
        if !finished {
            let (graph, results) = run.scheduler.into_parts();
            self.recorder.finish(execution_id, false, results, now);
            return Err(AgentError::Execution("Workflow is still running".to_owned()));
        }
        match run.failure {
            Some(text) => {
                let (graph, results) = run.scheduler.into_parts();
                self.recorder.finish(execution_id, false, results, now);
                Ok(
                    WorkflowResult {
                        success: false,
                        outputs: NamedMap::new(),
                        execution_time: took,
                        error: Some(text),
                        logs,
                    },
                )
            },
            None => {
                let generated_at = match timestamp_rfc3339(now) {
                    Some(text) => text,
                    None => "unknown".to_owned(),
                };
                let outputs = generate_outputs(
                    run.scheduler.execution_graph().definition(),
                    run.scheduler.step_results(),
                    generated_at.as_str(),
                );
                let (graph, results) = run.scheduler.into_parts();
                match outputs {
                    Ok(outputs) => {
                        self.recorder.finish(execution_id, true, results, now);
                        Ok(
                            WorkflowResult {
                                success: true,
                                outputs,
                                execution_time: took,
                                error: None,
                                logs,
                            },
                        )
                    },
                    Err(e) => {
                        self.recorder.finish(execution_id, false, results, now);
                        Err(e)
                    },
                }
            },
        }
    }
}

/// Running one workflow with one context twice leaves two records more in
/// the history, under different ids, each with the name of the workflow
/// and the context; what the first run logs and how it ends in between
/// takes nothing from this.
pub proof fn lemma_two_runs_leave_two_records(
    before: Seq<WorkflowExecution>,
    started: Seq<WorkflowExecution>,
    resumed: Seq<WorkflowExecution>,
    after: Seq<WorkflowExecution>,
    workflow: WorkflowDefinition,
    context: WorkflowContext,
    valid: bool,
    first: u128,
    second: u128,
    first_start: i64,
    second_start: i64,
)
    requires
        !has_record(before, first),
        WorkflowEngine::recorded_start(before, started, first, workflow, context, valid, first_start),
        same_runs(started, resumed),
        !has_record(resumed, second),
        WorkflowEngine::recorded_start(
            resumed,
            after,
            second,
            workflow,
            context,
            valid,
            second_start,
        ),
    ensures
        after.len() == before.len() + 2,
        first != second,
        after[after.len() - 2].id == first,
        after[after.len() - 1].id == second,
        after[after.len() - 1].workflow_name@ == workflow.name@,
        after[after.len() - 1].context == context,
        crate::recorder::ids_distinct(before) ==> crate::recorder::ids_distinct(after),
{
    lemma_appended_records_differ(before, started, resumed, after, first, second);
}

} // verus!
