//! The history of runs: one record for each run, with its status, its
//! times and its log. The history lives as long as the recorder; nothing
//! is written to disk.

use vstd::prelude::*;
use std::time::Duration;
use serde_json::Value;
use crate::model::LogEntry;
use crate::model::LogLevel;
use crate::model::WorkflowContext;
use crate::named_map::NamedMap;
use crate::outside::milliseconds;

verus! {

/// How far a run has come.
#[derive(Debug, Clone, Copy, PartialEq, Eq, Structural)]
pub enum ExecutionStatus {
    Pending,
    Running,
    Completed,
    Failed,
    Cancelled,
}

/// The record of one run. Times are in milliseconds since the Unix epoch.
#[derive(Debug, Clone)]
pub struct WorkflowExecution {
    pub id: u128,
    pub workflow_name: String,
    pub start_time: i64,
    pub end_time: Option<i64>,
    pub execution_time: Option<Duration>,
    pub status: ExecutionStatus,
    pub context: WorkflowContext,
    pub step_results: NamedMap<Value>,
    pub logs: Vec<LogEntry>,
}

/// The milliseconds from `start` to `end`; none where `end` is the earlier.
pub open spec fn elapsed_millis(start: i64, end: i64) -> u64 {
    if end >= start {
        (end - start) as u64
    } else {
        0
    }
}

/// The milliseconds from `start` to `end`; none where `end` is the earlier.
pub fn elapsed(start: i64, end: i64) -> (millis: u64)
    ensures
        millis == elapsed_millis(start, end),
{
    if end >= start {
        if start >= 0 || end < 0 {
            (end - start) as u64
        } else {
            (end as u64) + ((-(start + 1)) as u64) + 1
        }
    } else {
        0
    }
}

/// The position of the first record with that id, or the number of records
/// where there is none.
pub open spec fn record_position(history: Seq<WorkflowExecution>, id: u128) -> int
    decreases history.len(),
{
    if history.len() == 0 {
        0
    } else if history[0].id == id {
        0
    } else {
        1 + record_position(history.drop_first(), id)
    }
}

/// `record_position` is the first position at which the id stands.
pub proof fn lemma_record_position(history: Seq<WorkflowExecution>, id: u128)
    ensures
        0 <= record_position(history, id) <= history.len(),
        record_position(history, id) < history.len() ==> history[record_position(history, id)].id
            == id,
        forall|i: int| 0 <= i < record_position(history, id) ==> (#[trigger] history[i]).id != id,
    decreases history.len(),
{
    if history.len() > 0 && history[0].id != id {
        let rest = history.drop_first();
        lemma_record_position(rest, id);
        assert forall|i: int| 0 <= i < record_position(history, id) implies (#[trigger] history[i]).id
            != id by {
            if i > 0 {
                assert(history[i] == rest[i - 1]);
            }
        }
        if record_position(rest, id) < rest.len() {
            assert(history[record_position(rest, id) + 1] == rest[record_position(rest, id)]);
        }
    }
}

/// Whether some record has that id.
pub open spec fn has_record(history: Seq<WorkflowExecution>, id: u128) -> bool {
    record_position(history, id) < history.len()
}

/// No two records share an id.
pub open spec fn ids_distinct(history: Seq<WorkflowExecution>) -> bool {
    forall|i: int, j: int|
        0 <= i < j < history.len() ==> (#[trigger] history[i]).id != (#[trigger] history[j]).id
}

/// The record that a run starts with.
pub open spec fn is_new_record(
    record: WorkflowExecution,
    id: u128,
    workflow_name: Seq<char>,
    context: WorkflowContext,
    now: i64,
) -> bool {
    &&& record.id == id
    &&& record.workflow_name@ == workflow_name
    &&& record.start_time == now
    &&& record.end_time is None
    &&& record.execution_time is None
    &&& record.status == ExecutionStatus::Running
    &&& record.context == context
    &&& record.step_results.names().len() == 0
    &&& record.logs@.len() == 0
}

/// From `before` to `after`, one line was appended to the log of the run
/// with that id, and nothing else changed. Where no record has that id,
/// nothing changed at all.
pub open spec fn appended_log(
    before: Seq<WorkflowExecution>,
    after: Seq<WorkflowExecution>,
    id: u128,
    level: LogLevel,
    message: Seq<char>,
    now: i64,
) -> bool {
    if has_record(before, id) {
        let p = record_position(before, id);
        &&& after.len() == before.len()
        &&& forall|i: int| 0 <= i < before.len() && i != p ==> #[trigger] after[i] == before[i]
        &&& same_but_logs(after[p], before[p])
        &&& after[p].logs@.len() == before[p].logs@.len() + 1
        &&& after[p].logs@.drop_last() == before[p].logs@
        &&& after[p].logs@.last().timestamp == now
        &&& after[p].logs@.last().level == level
        &&& after[p].logs@.last().message@ == message
        &&& after[p].logs@.last().metadata.names().len() == 0
    } else {
        after == before
    }
}

/// From `before` to `after`, the record of a new run was appended: running
/// since `now`, with the run's context, no results and an empty log.
pub open spec fn started_record(
    before: Seq<WorkflowExecution>,
    after: Seq<WorkflowExecution>,
    id: u128,
    workflow_name: Seq<char>,
    context: WorkflowContext,
    now: i64,
) -> bool {
    &&& after.len() == before.len() + 1
    &&& after.drop_last() == before
    &&& is_new_record(after.last(), id, workflow_name, context, now)
}

/// From `before` to `after`, the record of the running run with that id
/// was closed at `now`, and nothing else changed.
pub open spec fn closed_record(
    before: Seq<WorkflowExecution>,
    after: Seq<WorkflowExecution>,
    id: u128,
    succeeded: bool,
    step_results: NamedMap<Value>,
    now: i64,
) -> bool {
    let p = record_position(before, id);
    &&& after.len() == before.len()
    &&& forall|i: int| 0 <= i < before.len() && i != p ==> #[trigger] after[i] == before[i]
    &&& after[p].id == before[p].id
    &&& after[p].workflow_name == before[p].workflow_name
    &&& after[p].start_time == before[p].start_time
    &&& after[p].context == before[p].context
    &&& after[p].logs == before[p].logs
    &&& after[p].end_time == Some(now)
    &&& after[p].execution_time == Some(milliseconds(elapsed_millis(before[p].start_time, now)))
    &&& after[p].status == (if succeeded {
        ExecutionStatus::Completed
    } else {
        ExecutionStatus::Failed
    })
    &&& after[p].step_results == step_results
}

/// Whether the run with that id has a record and is running.
pub open spec fn is_open(history: Seq<WorkflowExecution>, id: u128) -> bool {
    has_record(history, id) && history[record_position(history, id)].status
        == ExecutionStatus::Running
}

/// A record kept all but its log.
pub open spec fn same_but_logs(after: WorkflowExecution, before: WorkflowExecution) -> bool {
    &&& after.id == before.id
    &&& after.workflow_name == before.workflow_name
    &&& after.start_time == before.start_time
    &&& after.end_time == before.end_time
    &&& after.execution_time == before.execution_time
    &&& after.status == before.status
    &&& after.context == before.context
    &&& after.step_results == before.step_results
}

/// The history of runs, oldest first.
pub struct ExecutionRecorder {
    history: Vec<WorkflowExecution>,
}

impl ExecutionRecorder {
    /// The records, oldest first.
    pub closed spec fn history(&self) -> Seq<WorkflowExecution> {
        self.history@
    }

    /// No two records share an id.
    pub open spec fn wf(&self) -> bool {
        ids_distinct(self.history())
    }

    /// A recorder without records.
    pub fn new() -> (recorder: Self)
        ensures
            recorder.history().len() == 0,
            recorder.wf(),
    {
        ExecutionRecorder { history: Vec::new() }
    }

    /// The position of the record with that id, or the number of records.
    fn find(&self, id: u128) -> (i: usize)
        ensures
            i == record_position(self.history(), id),
            i <= self.history().len(),
            i < self.history().len() ==> self.history()[i as int].id == id,
    {
        proof {
            lemma_record_position(self.history(), id);
        }
        let mut i: usize = 0;
        while i < self.history.len()
            invariant
                i <= self.history@.len(),
                i <= record_position(self.history(), id) <= self.history().len(),
                record_position(self.history(), id) < self.history().len() ==> self.history()[record_position(
                    self.history(),
                    id,
                )].id == id,
                forall|j: int|
                    0 <= j < record_position(self.history(), id) ==> (#[trigger] self.history()[j]).id
                        != id,
            decreases self.history@.len() - i,
        {
            if self.history[i].id == id {
                return i;
            }
            i = i + 1;
        }
        i
    }

    /// Starts the record of a run: running since `now`, with the run's
    /// context, no results and an empty log. Returns `false`, and records
    /// nothing, where a record with that id exists.
    pub fn start(
        &mut self,
        id: u128,
        workflow_name: String,
        context: WorkflowContext,
        now: i64,
    ) -> (started: bool)
        ensures
            started == !has_record(old(self).history(), id),
            !started ==> final(self).history() == old(self).history(),
            started ==> started_record(
                old(self).history(),
                final(self).history(),
                id,
                workflow_name@,
                context,
                now,
            ),
            old(self).wf() ==> final(self).wf(),
    {
        let ghost before = self.history();
        if self.find(id) < self.history.len() {
            return false;
        }
        let record = WorkflowExecution {
            id,
            workflow_name,
            start_time: now,
            end_time: None,
            execution_time: None,
            status: ExecutionStatus::Running,
            context,
            step_results: NamedMap::new(),
            logs: Vec::new(),
        };
        self.history.push(record);
        proof {
            assert(self.history().drop_last() =~= before);
            lemma_record_position(before, id);
            if ids_distinct(before) {
                assert forall|i: int, j: int| 0 <= i < j < self.history().len() implies (#[trigger] self.history()[i]).id
                    != (#[trigger] self.history()[j]).id by {
                    assert(self.history()[i] == before[i]);
                    if j < before.len() {
                        assert(self.history()[j] == before[j]);
                    }
                }
            }
        }
        true
    }

    /// Appends a line to the log of the run with that id. Returns `false`,
    /// and records nothing, where no record has that id.
    pub fn log_execution_event(&mut self, id: u128, level: LogLevel, message: String, now: i64) -> (logged:
        bool)
        ensures
            logged == has_record(old(self).history(), id),
            appended_log(old(self).history(), final(self).history(), id, level, message@, now),
            old(self).wf() ==> final(self).wf(),
    {
        let ghost before = self.history();
        let p = self.find(id);
        if p >= self.history.len() {
            return false;
        }
        let entry = LogEntry { timestamp: now, level, message, metadata: NamedMap::new() };
        self.history[p].logs.push(entry);
        proof {
            assert(self.history()[p as int].logs@.drop_last() =~= before[p as int].logs@);
            if ids_distinct(before) {
                assert forall|i: int, j: int| 0 <= i < j < self.history().len() implies (#[trigger] self.history()[i]).id
                    != (#[trigger] self.history()[j]).id by {
                    assert(self.history()[i].id == before[i].id);
                    assert(self.history()[j].id == before[j].id);
                }
            }
        }
        true
    }

    /// Closes the record of the run with that id: the end time, the time
    /// the run took, the results of its steps, and the status, `Completed`
    /// for a run that succeeded and `Failed` for one that did not. A record
    /// is closed once: returns `false`, and changes nothing, where no
    /// record has that id or the run is not running any more.
    pub fn finish(&mut self, id: u128, succeeded: bool, step_results: NamedMap<Value>, now: i64) -> (closed:
        bool)
        ensures
            closed == is_open(old(self).history(), id),
            closed ==> closed_record(
                old(self).history(),
                final(self).history(),
                id,
                succeeded,
                step_results,
                now,
            ),
            !closed ==> final(self).history() == old(self).history(),
            old(self).wf() ==> final(self).wf(),
    {
        let ghost before = self.history();
        let p = self.find(id);
        if p >= self.history.len() {
            return false;
        }
        match self.history[p].status {
            ExecutionStatus::Running => {},
            _ => {
                return false;
            },
        }
        let took = Duration::from_millis(elapsed(self.history[p].start_time, now));
        self.history[p].end_time = Some(now);
        self.history[p].execution_time = Some(took);
        self.history[p].status = if succeeded {
            ExecutionStatus::Completed
        } else {
            ExecutionStatus::Failed
        };
        self.history[p].step_results = step_results;
        proof {
            if ids_distinct(before) {
                assert forall|i: int, j: int| 0 <= i < j < self.history().len() implies (#[trigger] self.history()[i]).id
                    != (#[trigger] self.history()[j]).id by {
                    assert(self.history()[i].id == before[i].id);
                    assert(self.history()[j].id == before[j].id);
                }
            }
        }
        true
    }

    /// All records, oldest first.
    pub fn get_execution_history(&self) -> (records: &Vec<WorkflowExecution>)
        ensures
            records@ == self.history(),
    {
        &self.history
    }

    /// The record of the run with that id.
    pub fn get_execution(&self, id: u128) -> (record: Option<&WorkflowExecution>)
        ensures
            record is Some <==> has_record(self.history(), id),
            record matches Some(r) ==> *r == self.history()[record_position(self.history(), id)]
                && r.id == id,
    {
        let p = self.find(id);
        if p < self.history.len() {
            Some(&self.history[p])
        } else {
            None
        }
    }
}

/// Two histories hold the same runs: as many records, with the same ids
/// at the same places. Logging and closing a record leave this in place.
pub open spec fn same_runs(before: Seq<WorkflowExecution>, after: Seq<WorkflowExecution>) -> bool {
    &&& after.len() == before.len()
    &&& forall|i: int| 0 <= i < before.len() ==> (#[trigger] after[i]).id == before[i].id
}

/// A line appended to a log leaves the same runs in the history.
pub proof fn lemma_log_keeps_runs(
    before: Seq<WorkflowExecution>,
    after: Seq<WorkflowExecution>,
    id: u128,
    level: LogLevel,
    message: Seq<char>,
    now: i64,
)
    requires
        appended_log(before, after, id, level, message, now),
    ensures
        same_runs(before, after),
{
    lemma_record_position(before, id);
}

/// A record that is closed leaves the same runs in the history.
pub proof fn lemma_close_keeps_runs(
    before: Seq<WorkflowExecution>,
    after: Seq<WorkflowExecution>,
    id: u128,
    succeeded: bool,
    step_results: NamedMap<Value>,
    now: i64,
)
    requires
        has_record(before, id),
        closed_record(before, after, id, succeeded, step_results, now),
    ensures
        same_runs(before, after),
{
    lemma_record_position(before, id);
}

/// A record with a new id was appended to the history.
pub open spec fn appended_record(
    before: Seq<WorkflowExecution>,
    after: Seq<WorkflowExecution>,
    id: u128,
) -> bool {
    &&& !has_record(before, id)
    &&& after.len() == before.len() + 1
    &&& after.drop_last() == before
    &&& after.last().id == id
}

/// Two records appended one after the other, with the same runs in the
/// history in between, are two records more with different ids, and ids
/// that were distinct stay distinct.
pub proof fn lemma_appended_records_differ(
    before: Seq<WorkflowExecution>,
    started: Seq<WorkflowExecution>,
    resumed: Seq<WorkflowExecution>,
    after: Seq<WorkflowExecution>,
    first: u128,
    second: u128,
)
    requires
        appended_record(before, started, first),
        same_runs(started, resumed),
        appended_record(resumed, after, second),
    ensures
        after.len() == before.len() + 2,
        first != second,
        after[after.len() - 2].id == first,
        after[after.len() - 1].id == second,
        has_record(after, first),
        has_record(after, second),
        ids_distinct(before) ==> ids_distinct(after),
{
    lemma_record_position(resumed, second);
    lemma_record_position(before, first);
    lemma_record_position(after, first);
    lemma_record_position(after, second);
    let n = before.len() as int;
    assert(resumed[n].id == started[n].id);
    assert(after.drop_last()[n] == after[n]);
    assert(after[n].id == first);
    if ids_distinct(before) {
        assert forall|i: int, j: int| 0 <= i < j < after.len() implies (#[trigger] after[i]).id != (
        #[trigger] after[j]).id by {
            assert(after.drop_last()[i] == after[i]);
            assert(resumed[i].id == started[i].id);
            if i < n {
                assert(started.drop_last()[i] == started[i]);
            }
            if j < n + 1 {
                assert(after.drop_last()[j] == after[j]);
                assert(resumed[j].id == started[j].id);
                if j < n {
                    assert(started.drop_last()[j] == started[j]);
                }
            }
        }
    }
}

/// Two runs that the recorder starts one after the other, whatever is
/// logged or closed in between, leave two records more, and the two have
/// different ids: a run never takes the record of another.
pub proof fn lemma_runs_have_distinct_records(
    before: Seq<WorkflowExecution>,
    started: Seq<WorkflowExecution>,
    resumed: Seq<WorkflowExecution>,
    after: Seq<WorkflowExecution>,
    first: u128,
    second: u128,
    workflow_name: Seq<char>,
    context: WorkflowContext,
    first_start: i64,
    second_start: i64,
)
    requires
        !has_record(before, first),
        started_record(before, started, first, workflow_name, context, first_start),
        same_runs(started, resumed),
        !has_record(resumed, second),
        started_record(resumed, after, second, workflow_name, context, second_start),
    ensures
        after.len() == before.len() + 2,
        first != second,
        after[after.len() - 2].id == first,
        after[after.len() - 1].id == second,
        after[after.len() - 1].workflow_name@ == workflow_name,
        after[after.len() - 1].context == context,
        ids_distinct(before) ==> ids_distinct(after),
{
    lemma_appended_records_differ(before, started, resumed, after, first, second);
}

} // verus!
