//! The scheduler of one run: which step may start, and what follows when
//! a step ends.
//!
//! The scheduler does no work itself. Its caller takes the next ready step
//! with `next_ready`, runs it, and reports the end with `complete` or
//! `fail`. A step is handed out only when every step it depends on has
//! completed. When a step fails, every step that depends on it, directly or
//! through other steps, is skipped; the steps that do not depend on it go
//! on. The run is over when no step is ready and none is running, and then
//! every step has completed, failed or been skipped.

use vstd::prelude::*;
use std::collections::VecDeque;
use crate::dag::has_edge;
use crate::dag::in_range;
use crate::dag::is_ranking;
use crate::dag::lemma_reaches_step;
use crate::dag::reaches;
use crate::execution::ExecutionGraph;
use crate::execution::ExecutionNode;
use crate::execution::NodeStatus;
use crate::named_map::lemma_position_of;
use crate::named_map::NamedMap;
use crate::named_map::position_of;
use crate::validator::find_step;
use crate::validator::step_names;

verus! {

/// Every step that step `i` depends on has completed.
pub open spec fn dependencies_completed(g: Seq<Seq<int>>, st: Seq<NodeStatus>, i: int) -> bool {
    forall|k: int| 0 <= k < g[i].len() ==> st[#[trigger] g[i][k]] == NodeStatus::Completed
}

/// The step has failed or been skipped: it will never complete.
pub open spec fn is_lost(status: NodeStatus) -> bool {
    status == NodeStatus::Failed || status == NodeStatus::Skipped
}

/// The step has come to its end.
pub open spec fn is_settled(status: NodeStatus) -> bool {
    status == NodeStatus::Completed || status == NodeStatus::Failed || status
        == NodeStatus::Skipped
}

/// Some step that step `i` depends on has failed or been skipped.
pub open spec fn has_lost_dependency(g: Seq<Seq<int>>, st: Seq<NodeStatus>, i: int) -> bool {
    exists|k: int| 0 <= k < g[i].len() && is_lost(st[#[trigger] g[i][k]])
}

/// What holds of the statuses and the ready queue between any two calls.
pub open spec fn schedule_ok(g: Seq<Seq<int>>, st: Seq<NodeStatus>, ready: Seq<int>) -> bool {
    &&& st.len() == g.len()
    &&& ready.no_duplicates()
    &&& forall|t: int| 0 <= t < ready.len() ==> 0 <= #[trigger] ready[t] < g.len()
    &&& forall|i: int|
        0 <= i < g.len() ==> (ready.contains(i) <==> (#[trigger] st[i] == NodeStatus::Pending
            && dependencies_completed(g, st, i)))
    &&& forall|i: int|
        0 <= i < g.len() && (#[trigger] st[i] == NodeStatus::Running || st[i]
            == NodeStatus::Completed || st[i] == NodeStatus::Failed) ==> dependencies_completed(
            g,
            st,
            i,
        )
    &&& forall|i: int|
        0 <= i < g.len() && #[trigger] st[i] == NodeStatus::Pending ==> !has_lost_dependency(
            g,
            st,
            i,
        )
}

/// The results are those of the completed steps, each under its step's
/// name and in its node.
pub open spec fn results_ok(
    names: Seq<Seq<char>>,
    nodes: Seq<ExecutionNode>,
    results: NamedMap<serde_json::Value>,
) -> bool {
    &&& forall|i: int|
        0 <= i < nodes.len() ==> ((#[trigger] nodes[i]).status == NodeStatus::Completed
            <==> nodes[i].result is Some)
    &&& forall|i: int|
        0 <= i < nodes.len() && (#[trigger] nodes[i]).status == NodeStatus::Completed
            ==> results.has(names[i]) && results.value_of(names[i]) == nodes[i].result->0
    &&& forall|name: Seq<char>| #[trigger]
        results.has(name) ==> exists|i: int|
            0 <= i < nodes.len() && names[i] == name && (#[trigger] nodes[i]).status
                == NodeStatus::Completed
}

/// The number of pending steps.
pub open spec fn pending_count(st: Seq<NodeStatus>) -> nat
    decreases st.len(),
{
    if st.len() == 0 {
        0
    } else {
        pending_count(st.drop_last()) + if st.last() == NodeStatus::Pending {
            1nat
        } else {
            0nat
        }
    }
}

proof fn lemma_pending_update(st: Seq<NodeStatus>, i: int, s: NodeStatus)
    requires
        0 <= i < st.len(),
        st[i] == NodeStatus::Pending,
        s != NodeStatus::Pending,
    ensures
        pending_count(st.update(i, s)) + 1 == pending_count(st),
    decreases st.len(),
{
    let after = st.update(i, s);
    if i == st.len() - 1 {
        assert(after.drop_last() =~= st.drop_last());
    } else {
        lemma_pending_update(st.drop_last(), i, s);
        assert(after.drop_last() =~= st.drop_last().update(i, s));
    }
}

/// In a ranked graph, with nothing ready and nothing running, no step is
/// left pending.
proof fn lemma_nothing_pending(
    g: Seq<Seq<int>>,
    st: Seq<NodeStatus>,
    ready: Seq<int>,
    rank: Seq<nat>,
    i: int,
)
    requires
        in_range(g),
        is_ranking(g, rank),
        schedule_ok(g, st, ready),
        ready.len() == 0,
        forall|j: int| 0 <= j < g.len() ==> #[trigger] st[j] != NodeStatus::Running,
        0 <= i < g.len(),
    ensures
        st[i] != NodeStatus::Pending,
    decreases rank[i],
{
    if st[i] == NodeStatus::Pending {
        assert forall|k: int| 0 <= k < g[i].len() implies st[#[trigger] g[i][k]]
            == NodeStatus::Completed by {
            let d = g[i][k];
            assert(rank[g[i][k]] < rank[i]);
            lemma_nothing_pending(g, st, ready, rank, d);
            assert(!has_lost_dependency(g, st, i));
            assert(!is_lost(st[g[i][k]]));
        }
        assert(dependencies_completed(g, st, i));
        assert(ready.contains(i));
    }
}

/// A node kept all but its status.
pub open spec fn same_but_status(after: ExecutionNode, before: ExecutionNode) -> bool {
    &&& after.dependencies == before.dependencies
    &&& after.dependents == before.dependents
    &&& after.result == before.result
    &&& after.start_time == before.start_time
    &&& after.end_time == before.end_time
}

/// The status of step `i` after the running step at `position` has failed:
/// a pending step from which a walk leads to the failed step is skipped,
/// and every other step keeps its status.
pub open spec fn status_after_failure(
    g: Seq<Seq<int>>,
    st: Seq<NodeStatus>,
    position: int,
    i: int,
) -> NodeStatus {
    if i == position {
        NodeStatus::Failed
    } else if st[i] == NodeStatus::Pending && reaches(g, i, position) {
        NodeStatus::Skipped
    } else {
        st[i]
    }
}

/// Once the steps that depend on a lost step are skipped, every step from
/// which a walk leads to the failed step is lost.
proof fn lemma_upstream_is_lost(
    g: Seq<Seq<int>>,
    st: Seq<NodeStatus>,
    fin: Seq<NodeStatus>,
    position: int,
    p: Seq<int>,
)
    requires
        in_range(g),
        st.len() == g.len(),
        fin.len() == g.len(),
        0 <= position < g.len(),
        forall|x: int|
            0 <= x < g.len() && (#[trigger] st[x] == NodeStatus::Running || st[x]
                == NodeStatus::Completed) ==> dependencies_completed(g, st, x),
        st[position] == NodeStatus::Running,
        fin[position] == NodeStatus::Failed,
        forall|x: int|
            0 <= x < g.len() && x != position ==> (#[trigger] fin[x] == st[x] || (st[x]
                == NodeStatus::Pending && fin[x] == NodeStatus::Skipped)),
        forall|x: int|
            0 <= x < g.len() && #[trigger] fin[x] == NodeStatus::Pending ==> !has_lost_dependency(
                g,
                fin,
                x,
            ),
        crate::dag::is_walk(g, p),
        p.len() >= 2,
        p.last() == position,
    ensures
        0 <= p[0] < g.len(),
        is_lost(fin[p[0]]),
    decreases p.len(),
{
    let i = p[0];
    let d = p[1];
    assert(has_edge(g, p[0int], p[0int + 1]));
    let k = choose|k: int| 0 <= k < g[i].len() && #[trigger] g[i][k] == d;
    assert(0 <= g[i][k] < g.len());
    if p.len() == 2 {
        assert(d == position);
    } else {
        let q = p.drop_first();
        assert forall|t: int| 0 <= t < q.len() - 1 implies has_edge(g, #[trigger] q[t], q[t + 1]) by {
            assert(q[t] == p[t + 1] && q[t + 1] == p[t + 1 + 1]);
            assert(has_edge(g, p[t + 1], p[t + 1 + 1]));
        }
        assert(q.last() == p.last());
        lemma_upstream_is_lost(g, st, fin, position, q);
        assert(q[0] == d);
    }
    assert(is_lost(fin[g[i][k]]));
    assert(has_lost_dependency(g, fin, i));
    if i != position {
        assert(fin[i] != NodeStatus::Pending);
        if st[i] == NodeStatus::Running || st[i] == NodeStatus::Completed {
            assert(dependencies_completed(g, st, i));
            assert(st[g[i][k]] == NodeStatus::Completed);
            assert(d != position);
            assert(fin[d] == st[d] || (st[d] == NodeStatus::Pending && fin[d] == NodeStatus::Skipped));
        }
    }
}

/// The state of one run.
pub struct Scheduler {
    graph: ExecutionGraph,
    ready: VecDeque<usize>,
    results: NamedMap<serde_json::Value>,
}

impl Scheduler {
    /// The execution graph.
    pub closed spec fn graph(&self) -> ExecutionGraph {
        self.graph
    }

    /// The positions of the steps that may start, the next one first.
    pub closed spec fn ready(&self) -> Seq<int> {
        Seq::new(self.ready@.len(), |t: int| self.ready@[t] as int)
    }

    /// The results of the completed steps, each under its step's name.
    pub closed spec fn results(&self) -> NamedMap<serde_json::Value> {
        self.results
    }

    /// The names of the steps.
    pub open spec fn names(&self) -> Seq<Seq<char>> {
        step_names(&self.graph().workflow())
    }

    /// The status of each step.
    pub open spec fn statuses(&self) -> Seq<NodeStatus> {
        self.graph().statuses()
    }

    /// What holds between any two calls: the graph is well formed; a step
    /// is in the ready queue exactly when it is pending and all that it
    /// depends on has completed; a step that is running, has completed or
    /// has failed depends on completed steps only; no pending step depends
    /// on a step that failed or was skipped; and the results are those of
    /// the completed steps.
    pub open spec fn inv(&self) -> bool {
        &&& self.graph().wf()
        &&& schedule_ok(self.graph().graph(), self.statuses(), self.ready())
        &&& results_ok(self.names(), self.graph().nodes(), self.results())
        &&& self.results().wf()
    }

    /// No step is ready and none is running.
    pub open spec fn is_idle(&self) -> bool {
        &&& self.ready().len() == 0
        &&& forall|i: int|
            0 <= i < self.statuses().len() ==> #[trigger] self.statuses()[i] != NodeStatus::Running
    }

    /// Whether `position` is a step, and the step is running.
    pub open spec fn is_running(&self, position: int) -> bool {
        0 <= position < self.statuses().len() && self.statuses()[position] == NodeStatus::Running
    }

    /// Nothing has changed from `before` to `after`.
    pub open spec fn unchanged(before: &Scheduler, after: &Scheduler) -> bool {
        &&& after.graph() == before.graph()
        &&& after.ready() == before.ready()
        &&& after.results() == before.results()
    }

    /// From `before` to `after`, the step at `p` was taken from the head
    /// of the ready queue and marked as running since `now`. It was
    /// pending, and all that it depends on had completed.
    pub open spec fn launched(before: &Scheduler, after: &Scheduler, p: int, now: i64) -> bool {
        &&& before.ready().len() > 0
        &&& p == before.ready()[0]
        &&& after.ready() == before.ready().drop_first()
        &&& after.results() == before.results()
        &&& before.statuses()[p] == NodeStatus::Pending
        &&& dependencies_completed(before.graph().graph(), before.statuses(), p)
        &&& ExecutionGraph::changed_at(&before.graph(), &after.graph(), p)
        &&& after.statuses() == before.statuses().update(p, NodeStatus::Running)
        &&& after.graph().nodes()[p].start_time == Some(now)
        &&& after.graph().nodes()[p].end_time == before.graph().nodes()[p].end_time
        &&& after.graph().nodes()[p].result == before.graph().nodes()[p].result
    }

    /// From `before` to `after`, the running step at `position` completed
    /// at `now` with `result`: the result stands in the node and, under the
    /// step's name, at the end of the results; the steps that were ready
    /// are still ready, in their order, and the steps that became ready
    /// stand behind them.
    pub open spec fn completed(
        before: &Scheduler,
        after: &Scheduler,
        position: int,
        result: serde_json::Value,
        now: i64,
    ) -> bool {
        &&& ExecutionGraph::changed_at(&before.graph(), &after.graph(), position)
        &&& after.statuses() == before.statuses().update(position, NodeStatus::Completed)
        &&& after.graph().nodes()[position].result == Some(result)
        &&& after.graph().nodes()[position].start_time
            == before.graph().nodes()[position].start_time
        &&& after.graph().nodes()[position].end_time == Some(now)
        &&& after.results().names() == before.results().names().push(before.names()[position])
        &&& after.results().values() == before.results().values().push(result)
        &&& before.ready().len() <= after.ready().len()
        &&& after.ready().subrange(0, before.ready().len() as int) == before.ready()
    }

    /// From `before` to `after`, the running step at `position` failed at
    /// `now`, and every pending step from which a walk of dependencies
    /// leads to it was skipped. All other steps kept their status, and no
    /// node changed but in its status. The ready queue and the results
    /// stayed as they were.
    pub open spec fn failed(before: &Scheduler, after: &Scheduler, position: int, now: i64) -> bool {
        &&& after.graph().workflow() == before.graph().workflow()
        &&& after.ready() == before.ready()
        &&& after.results() == before.results()
        &&& after.statuses().len() == before.statuses().len()
        &&& forall|i: int|
            0 <= i < before.statuses().len() ==> #[trigger] after.statuses()[i]
                == status_after_failure(before.graph().graph(), before.statuses(), position, i)
        &&& forall|i: int|
            0 <= i < before.statuses().len() && i != position ==> same_but_status(
                #[trigger] after.graph().nodes()[i],
                before.graph().nodes()[i],
            )
        &&& after.graph().nodes()[position].end_time == Some(now)
        &&& after.graph().nodes()[position].start_time
            == before.graph().nodes()[position].start_time
        &&& after.graph().nodes()[position].result is None
    }

    /// A scheduler for a fresh graph. The steps without dependencies are
    /// ready, in the order of the workflow.
    pub fn new(graph: ExecutionGraph) -> (s: Self)
        requires
            graph.wf(),
            graph.is_fresh(),
        ensures
            s.graph() == graph,
            s.inv(),
            s.results().names().len() == 0,
            forall|t: int, u: int| 0 <= t < u < s.ready().len() ==> s.ready()[t] < s.ready()[u],
            forall|i: int|
                0 <= i < graph.nodes().len() ==> (s.ready().contains(i) <==> graph.graph()[i].len()
                    == 0),
    {
        let ghost g = graph.graph();
        let ghost st = graph.statuses();
        let n = graph.len();
        let mut ready: VecDeque<usize> = VecDeque::new();
        let mut i: usize = 0;
        while i < n
            invariant
                n == graph.nodes().len(),
                g == graph.graph(),
                i <= n,
                forall|t: int| 0 <= t < ready@.len() ==> #[trigger] ready@[t] < i,
                forall|t: int, u: int| 0 <= t < u < ready@.len() ==> ready@[t] < ready@[u],
                forall|a: int| 0 <= a < i ==> (ready@.contains(a as usize) <==> g[a].len() == 0),
            decreases n - i,
        {
            let ghost before = ready@;
            if graph.node(i).dependencies.len() == 0 {
                ready.push_back(i);
                proof {
                    assert(ready@[before.len() as int] == i);
                    assert forall|a: int| 0 <= a < i + 1 implies (ready@.contains(a as usize)
                        <==> g[a].len() == 0) by {
                        if a < i {
                            if before.contains(a as usize) {
                                let t = choose|t: int| 0 <= t < before.len() && before[t] == a as usize;
                                assert(ready@[t] == a as usize);
                            }
                            if ready@.contains(a as usize) {
                                let t = choose|t: int| 0 <= t < ready@.len() && ready@[t] == a as usize;
                                assert(before[t] == a as usize);
                            }
                        }
                    }
                }
            } else {
                proof {
                    if ready@.contains(i as usize) {
                        let t = choose|t: int| 0 <= t < ready@.len() && ready@[t] == i;
                        assert(ready@[t] < i);
                    }
                }
            }
            i = i + 1;
        }
        let s = Scheduler { graph, ready, results: NamedMap::new() };
        proof {
            let r = s.ready();
            assert forall|i: int| 0 <= i < g.len() implies (r.contains(i) <==> g[i].len() == 0) by {
                if r.contains(i) {
                    let t = choose|t: int| 0 <= t < r.len() && r[t] == i;
                    assert(s.ready@[t] == i as usize);
                }
                if s.ready@.contains(i as usize) {
                    let t = choose|t: int| 0 <= t < s.ready@.len() && s.ready@[t] == i as usize;
                    assert(r[t] == i);
                }
            }
            assert forall|i: int| 0 <= i < g.len() implies (dependencies_completed(g, st, i)
                <==> g[i].len() == 0) by {
                if g[i].len() > 0 {
                    assert(0 <= g[i][0] < g.len());
                    assert(graph.nodes()[g[i][0]].status == NodeStatus::Pending);
                    assert(st[g[i][0]] != NodeStatus::Completed);
                }
            }
            assert forall|i: int| 0 <= i < g.len() implies #[trigger] st[i]
                == NodeStatus::Pending by {
                assert(graph.nodes()[i].status == NodeStatus::Pending);
            }
            assert forall|i: int| 0 <= i < g.len() && #[trigger] st[i]
                == NodeStatus::Pending implies !has_lost_dependency(g, st, i) by {
                if has_lost_dependency(g, st, i) {
                    let k = choose|k: int| 0 <= k < g[i].len() && is_lost(st[#[trigger] g[i][k]]);
                    assert(0 <= g[i][k] < g.len());
                    assert(st[g[i][k]] == NodeStatus::Pending);
                }
            }
            assert(r.no_duplicates());
            assert(schedule_ok(g, st, r));
            assert(results_ok(s.names(), s.graph().nodes(), s.results())) by {
                assert forall|i: int| 0 <= i < graph.nodes().len() implies ((#[trigger] graph.nodes()[i]).status
                    == NodeStatus::Completed <==> graph.nodes()[i].result is Some) by {}
            }
        }
        s
    }

    /// The execution graph.
    pub fn execution_graph(&self) -> (graph: &ExecutionGraph)
        ensures
            *graph == self.graph(),
    {
        &self.graph
    }

    /// The results of the completed steps, each under its step's name.
    pub fn step_results(&self) -> (results: &NamedMap<serde_json::Value>)
        ensures
            *results == self.results(),
    {
        &self.results
    }

    /// Gives the graph and the results up, at the end of a run.
    pub fn into_parts(self) -> (parts: (ExecutionGraph, NamedMap<serde_json::Value>))
        ensures
            parts.0 == self.graph(),
            parts.1 == self.results(),
    {
        (self.graph, self.results)
    }

    /// The position of the step with that name.
    pub fn position(&self, name: &str) -> (r: Option<usize>)
        ensures
            r is Some <==> self.names().contains(name@),
            r matches Some(p) ==> p == position_of(self.names(), name@) && p < self.names().len()
                && self.names()[p as int] == name@,
    {
        proof {
            lemma_position_of(self.names(), name@);
        }
        let p = find_step(self.graph.definition(), name);
        if p < self.graph.definition().steps.len() {
            Some(p)
        } else {
            None
        }
    }

    /// The status of the step with that name.
    pub fn status(&self, name: &str) -> (r: Option<NodeStatus>)
        requires
            self.inv(),
        ensures
            r == (if self.names().contains(name@) {
                Some(self.statuses()[position_of(self.names(), name@)])
            } else {
                None
            }),
    {
        match self.position(name) {
            Some(p) => {
                assert(self.statuses()[p as int] == self.graph().nodes()[p as int].status);
                Some(self.graph.node(p).status)
            },
            None => None,
        }
    }

    /// Whether every step that the step at `position` depends on has
    /// completed.
    pub fn can_execute_step(&self, position: usize) -> (b: bool)
        requires
            self.graph().wf(),
            position < self.statuses().len(),
        ensures
            b == dependencies_completed(self.graph().graph(), self.statuses(), position as int),
    {
        let ghost g = self.graph().graph();
        let ghost st = self.statuses();
        let node = self.graph.node(position);
        let m = node.dependencies.len();
        let mut k: usize = 0;
        while k < m
            invariant
                self.graph().wf(),
                g == self.graph().graph(),
                st == self.statuses(),
                position < st.len(),
                *node == self.graph().nodes()[position as int],
                m == node.dependencies@.len(),
                m == g[position as int].len(),
                k <= m,
                forall|b: int| 0 <= b < k ==> st[#[trigger] g[position as int][b]]
                    == NodeStatus::Completed,
            decreases m - k,
        {
            let d = node.dependencies[k];
            assert(g[position as int][k as int] == d);
            assert(0 <= g[position as int][k as int] < g.len());
            match self.graph.node(d).status {
                NodeStatus::Completed => {},
                _ => {
                    assert(st[g[position as int][k as int]] != NodeStatus::Completed);
                    return false;
                },
            }
            k = k + 1;
        }
        true
    }

    /// Whether some step that the step at `position` depends on has failed
    /// or been skipped.
    fn depends_on_lost_step(&self, position: usize) -> (b: bool)
        requires
            self.graph().wf(),
            position < self.statuses().len(),
        ensures
            b == has_lost_dependency(self.graph().graph(), self.statuses(), position as int),
    {
        let ghost g = self.graph().graph();
        let ghost st = self.statuses();
        let node = self.graph.node(position);
        let m = node.dependencies.len();
        let mut k: usize = 0;
        while k < m
            invariant
                self.graph().wf(),
                g == self.graph().graph(),
                st == self.statuses(),
                position < st.len(),
                *node == self.graph().nodes()[position as int],
                m == node.dependencies@.len(),
                m == g[position as int].len(),
                k <= m,
                forall|b: int| 0 <= b < k ==> !is_lost(st[#[trigger] g[position as int][b]]),
            decreases m - k,
        {
            let d = node.dependencies[k];
            assert(g[position as int][k as int] == d);
            assert(0 <= g[position as int][k as int] < g.len());
            match self.graph.node(d).status {
                NodeStatus::Failed => {
                    assert(is_lost(st[g[position as int][k as int]]));
                    return true;
                },
                NodeStatus::Skipped => {
                    assert(is_lost(st[g[position as int][k as int]]));
                    return true;
                },
                _ => {},
            }
            k = k + 1;
        }
        false
    }

    /// Takes the next ready step, marks it as running since `now` and
    /// returns its position. Every step that it depends on has completed.
    /// Returns `None`, and changes nothing, when no step is ready.
    pub fn next_ready(&mut self, now: i64) -> (r: Option<usize>)
        requires
            old(self).inv(),
        ensures
            final(self).inv(),
            match r {
                Some(p) => Self::launched(old(self), final(self), p as int, now),
                None => old(self).ready().len() == 0 && Self::unchanged(old(self), final(self)),
            },
    {
        let ghost before = *self;
        let ghost g = self.graph().graph();
        let ghost st = self.statuses();
        let ghost rd = self.ready();
        match self.ready.pop_front() {
            None => {
                proof {
                    assert(self.ready() =~= rd);
                }
                None
            },
            Some(p) => {
                proof {
                    assert(rd[0] == p as int);
                    assert(rd.contains(p as int));
                }
                self.graph.mark_running(p, now);
                proof {
                    ExecutionGraph::lemma_changed_at_keeps_shape(
                        &before.graph(),
                        &self.graph(),
                        p as int,
                    );
                    let st2 = self.statuses();
                    let rd2 = self.ready();
                    assert(st2 =~= st.update(p as int, NodeStatus::Running)) by {
                        assert forall|i: int| 0 <= i < st.len() implies st2[i] == st.update(
                            p as int,
                            NodeStatus::Running,
                        )[i] by {
                            if i != p {
                                assert(self.graph().nodes()[i] == before.graph().nodes()[i]);
                            }
                        }
                    }
                    assert(rd2 =~= rd.drop_first());
                    assert forall|i: int| 0 <= i < g.len() implies (dependencies_completed(g, st2, i)
                        <==> dependencies_completed(g, st, i)) by {
                        if dependencies_completed(g, st, i) {
                            assert forall|k: int| 0 <= k < g[i].len() implies st2[#[trigger] g[i][k]]
                                == NodeStatus::Completed by {
                                assert(st[g[i][k]] == NodeStatus::Completed);
                            }
                        }
                        if dependencies_completed(g, st2, i) {
                            assert forall|k: int| 0 <= k < g[i].len() implies st[#[trigger] g[i][k]]
                                == NodeStatus::Completed by {
                                assert(st2[g[i][k]] == NodeStatus::Completed);
                            }
                        }
                    }
                    assert forall|i: int| 0 <= i < g.len() implies (rd2.contains(i) <==> (#[trigger] st2[i]
                        == NodeStatus::Pending && dependencies_completed(g, st2, i))) by {
                        if rd2.contains(i) {
                            let t = choose|t: int| 0 <= t < rd2.len() && rd2[t] == i;
                            assert(rd[t + 1] == i);
                            assert(i != p);
                            assert(rd.contains(i));
                            assert(st[i] == NodeStatus::Pending);
                        }
                        if st2[i] == NodeStatus::Pending && dependencies_completed(g, st2, i) {
                            assert(i != p);
                            assert(st[i] == NodeStatus::Pending);
                            assert(rd.contains(i));
                            let t = choose|t: int| 0 <= t < rd.len() && rd[t] == i;
                            assert(t != 0);
                            assert(rd2[t - 1] == i);
                        }
                    }
                    assert forall|i: int|
                        0 <= i < g.len() && #[trigger] st2[i]
                            == NodeStatus::Pending implies !has_lost_dependency(g, st2, i) by {
                        assert(st[i] == NodeStatus::Pending);
                        if has_lost_dependency(g, st2, i) {
                            let k = choose|k: int| 0 <= k < g[i].len() && is_lost(st2[#[trigger] g[i][k]]);
                            assert(is_lost(st[g[i][k]]));
                            assert(has_lost_dependency(g, st, i));
                        }
                    }
                    assert forall|i: int|
                        0 <= i < g.len() && (#[trigger] st2[i] == NodeStatus::Running || st2[i]
                            == NodeStatus::Completed || st2[i]
                            == NodeStatus::Failed) implies dependencies_completed(g, st2, i) by {
                        if i != p {
                            assert(st[i] == st2[i]);
                        } else {
                            assert(st[p as int] == NodeStatus::Pending);
                        }
                        assert(dependencies_completed(g, st, i));
                    }
                    assert(schedule_ok(g, st2, rd2));
                    assert(results_ok(self.names(), self.graph().nodes(), self.results())) by {
                        let nodes = self.graph().nodes();
                        let old_nodes = before.graph().nodes();
                        assert forall|i: int| 0 <= i < nodes.len() implies ((#[trigger] nodes[i]).status
                            == NodeStatus::Completed <==> nodes[i].result is Some) by {
                            if i != p {
                                assert(nodes[i] == old_nodes[i]);
                            } else {
                                assert(old_nodes[i].status == st[i]);
                            }
                        }
                        assert forall|i: int|
                            0 <= i < nodes.len() && (#[trigger] nodes[i]).status
                                == NodeStatus::Completed implies self.results().has(self.names()[i])
                            && self.results().value_of(self.names()[i]) == nodes[i].result->0 by {
                            assert(nodes[i] == old_nodes[i]);
                        }
                        assert forall|name: Seq<char>| #[trigger]
                            self.results().has(name) implies exists|i: int|
                            0 <= i < nodes.len() && self.names()[i] == name && (#[trigger] nodes[i]).status
                                == NodeStatus::Completed by {
                            let i = choose|i: int|
                                0 <= i < old_nodes.len() && self.names()[i] == name && (#[trigger] old_nodes[i]).status
                                    == NodeStatus::Completed;
                            assert(old_nodes[i].status == st[i]);
                            assert(i != p);
                            assert(nodes[i] == old_nodes[i]);
                        }
                    }
                }
                Some(p)
            },
        }
    }

    /// Records that the running step at `position` completed at `now` with
    /// `result`. The result goes into the node and, under the step's name,
    /// into the results. Every step that depends on this one and now has
    /// all its dependencies completed joins the ready queue, behind the
    /// steps that were ready before. Returns `false`, and changes nothing,
    /// where `position` is no step or the step is not running.
    pub fn complete(&mut self, position: usize, result: serde_json::Value, now: i64) -> (done: bool)
        requires
            old(self).inv(),
        ensures
            final(self).inv(),
            done == old(self).is_running(position as int),
            !done ==> Self::unchanged(old(self), final(self)),
            done ==> Self::completed(old(self), final(self), position as int, result, now),
    {
        let ghost before = *self;
        let ghost g = self.graph().graph();
        let ghost st = self.statuses();
        let ghost rd = self.ready();
        let ghost names = self.names();
        if position >= self.graph.len() {
            return false;
        }
        assert(st[position as int] == self.graph().nodes()[position as int].status);
        match self.graph.node(position).status {
            NodeStatus::Running => {},
            _ => {
                return false;
            },
        }
        let name = self.graph.step(position).name.clone();
        let copy = result.clone();
        self.graph.mark_completed(position, copy, now);
        proof {
            assert(name@ == names[position as int]);
            assert(!before.results().has(name@)) by {
                if before.results().has(name@) {
                    let i = choose|i: int|
                        0 <= i < before.graph().nodes().len() && names[i] == name@ && (#[trigger] before.graph().nodes()[i]).status
                            == NodeStatus::Completed;
                    assert(i == position);
                }
            }
        }
        self.results.insert(name, result);
        let ghost mid = *self;
        let ghost st2 = self.statuses();
        proof {
            ExecutionGraph::lemma_changed_at_keeps_shape(&before.graph(), &self.graph(), position as int);
            assert(st2 =~= st.update(position as int, NodeStatus::Completed)) by {
                assert forall|i: int| 0 <= i < st.len() implies st2[i] == st.update(
                    position as int,
                    NodeStatus::Completed,
                )[i] by {
                    if i != position {
                        assert(self.graph().nodes()[i] == before.graph().nodes()[i]);
                    }
                }
            }
            assert(results_ok(names, self.graph().nodes(), self.results())) by {
                let nodes = self.graph().nodes();
                let old_nodes = before.graph().nodes();
                assert forall|i: int| 0 <= i < nodes.len() implies ((#[trigger] nodes[i]).status
                    == NodeStatus::Completed <==> nodes[i].result is Some) by {
                    if i != position {
                        assert(nodes[i] == old_nodes[i]);
                    }
                }
                assert forall|i: int|
                    0 <= i < nodes.len() && (#[trigger] nodes[i]).status
                        == NodeStatus::Completed implies self.results().has(names[i])
                    && self.results().value_of(names[i]) == nodes[i].result->0 by {
                    if i != position {
                        assert(nodes[i] == old_nodes[i]);
                        assert(names[i] != names[position as int]);
                        assert(before.results().has(names[i]));
                    }
                }
                assert forall|name2: Seq<char>| #[trigger]
                    self.results().has(name2) implies exists|i: int|
                    0 <= i < nodes.len() && names[i] == name2 && (#[trigger] nodes[i]).status
                        == NodeStatus::Completed by {
                    if name2 == names[position as int] {
                        assert(nodes[position as int].status == NodeStatus::Completed);
                    } else {
                        assert(before.results().has(name2));
                        let i = choose|i: int|
                            0 <= i < old_nodes.len() && names[i] == name2 && (#[trigger] old_nodes[i]).status
                                == NodeStatus::Completed;
                        assert(i != position);
                        assert(nodes[i] == old_nodes[i]);
                    }
                }
            }
        }
        let m = self.graph.node(position).dependents.len();
        let mut t: usize = 0;
        while t < m
            invariant
                self.graph() == mid.graph(),
                self.results() == mid.results(),
                mid.graph().wf(),
                g == mid.graph().graph(),
                st2 == mid.statuses(),
                st2 == st.update(position as int, NodeStatus::Completed),
                st[position as int] == NodeStatus::Running,
                schedule_ok(g, st, rd),
                position < st.len(),
                m == mid.graph().nodes()[position as int].dependents@.len(),
                t <= m,
                rd.len() <= self.ready().len(),
                self.ready().subrange(0, rd.len() as int) == rd,
                self.ready().no_duplicates(),
                forall|u: int| 0 <= u < self.ready().len() ==> 0 <= #[trigger] self.ready()[u] < g.len(),
                forall|i: int|
                    0 <= i < g.len() ==> (#[trigger] self.ready().contains(i) <==> (rd.contains(i) || (
                    exists|u: int|
                        0 <= u < t && mid.graph().nodes()[position as int].dependents@[u] == i
                            && st2[i] == NodeStatus::Pending && dependencies_completed(g, st2, i)))),
            decreases m - t,
        {
            let j = self.graph.node(position).dependents[t];
            let ghost cur = self.ready();
            proof {
                assert(mid.graph().nodes()[position as int].dependents@[t as int] < mid.graph().nodes().len());
                assert(st2[j as int] == self.graph().nodes()[j as int].status);
            }
            let pending = match self.graph.node(j).status {
                NodeStatus::Pending => true,
                _ => false,
            };
            if pending && self.can_execute_step(j) {
                proof {
                    // the step was not ready before: this dependency had not completed
                    let deps = mid.graph().nodes()[position as int].dependents@;
                    assert(deps.contains(j));
                    assert(has_edge(g, j as int, position as int));
                    let k = choose|k: int| 0 <= k < g[j as int].len() && #[trigger] g[j as int][k] == position as int;
                    assert(st[g[j as int][k]] != NodeStatus::Completed);
                    assert(!dependencies_completed(g, st, j as int));
                    assert(st[j as int] == st2[j as int]);
                    assert(!rd.contains(j as int));
                    if cur.contains(j as int) {
                        let u = choose|u: int|
                            0 <= u < t && deps[u] == j as int && st2[j as int] == NodeStatus::Pending
                                && dependencies_completed(g, st2, j as int);
                        assert(deps[u] == deps[t as int]);
                    }
                    assert(!cur.contains(j as int));
                }
                self.ready.push_back(j);
                proof {
                    let now_ready = self.ready();
                    assert(now_ready =~= cur.push(j as int));
                    assert(now_ready.subrange(0, rd.len() as int) =~= cur.subrange(0, rd.len() as int));
                    assert forall|a: int, b: int|
                        0 <= a < now_ready.len() && 0 <= b < now_ready.len() && a
                            != b implies now_ready[a] != now_ready[b] by {
                        if a < cur.len() {
                            assert(cur[a] == now_ready[a]);
                            assert(cur.contains(cur[a]));
                        }
                        if b < cur.len() {
                            assert(cur[b] == now_ready[b]);
                            assert(cur.contains(cur[b]));
                        }
                    }
                    assert forall|i: int| 0 <= i < g.len() implies (#[trigger] now_ready.contains(i) <==> (
                    rd.contains(i) || (exists|u: int|
                        0 <= u < t + 1 && mid.graph().nodes()[position as int].dependents@[u] == i
                            && st2[i] == NodeStatus::Pending && dependencies_completed(g, st2, i)))) by {
                        let deps = mid.graph().nodes()[position as int].dependents@;
                        if now_ready.contains(i) {
                            let u = choose|u: int| 0 <= u < now_ready.len() && now_ready[u] == i;
                            if u < cur.len() {
                                assert(cur[u] == i);
                                assert(cur.contains(i));
                            } else {
                                assert(deps[t as int] == i);
                            }
                        }
                        if rd.contains(i) {
                            assert(cur.contains(i));
                            let u = choose|u: int| 0 <= u < cur.len() && cur[u] == i;
                            assert(now_ready[u] == i);
                        }
                        if exists|u: int|
                            0 <= u < t + 1 && deps[u] == i && st2[i] == NodeStatus::Pending
                                && dependencies_completed(g, st2, i) {
                            let u = choose|u: int|
                                0 <= u < t + 1 && deps[u] == i && st2[i] == NodeStatus::Pending
                                    && dependencies_completed(g, st2, i);
                            if u < t {
                                assert(cur.contains(i));
                                let v = choose|v: int| 0 <= v < cur.len() && cur[v] == i;
                                assert(now_ready[v] == i);
                            } else {
                                assert(now_ready[cur.len() as int] == i);
                            }
                        }
                    }
                }
            } else {
                proof {
                    let deps = mid.graph().nodes()[position as int].dependents@;
                    assert forall|i: int| 0 <= i < g.len() implies (#[trigger] cur.contains(i) <==> (
                    rd.contains(i) || (exists|u: int|
                        0 <= u < t + 1 && deps[u] == i && st2[i] == NodeStatus::Pending
                            && dependencies_completed(g, st2, i)))) by {
                        if exists|u: int|
                            0 <= u < t + 1 && deps[u] == i && st2[i] == NodeStatus::Pending
                                && dependencies_completed(g, st2, i) {
                            let u = choose|u: int|
                                0 <= u < t + 1 && deps[u] == i && st2[i] == NodeStatus::Pending
                                    && dependencies_completed(g, st2, i);
                            assert(u < t);
                        }
                    }
                }
            }
            t = t + 1;
        }
        proof {
            let rd2 = self.ready();
            let deps = mid.graph().nodes()[position as int].dependents@;
            assert forall|i: int| 0 <= i < g.len() implies (dependencies_completed(g, st, i)
                ==> dependencies_completed(g, st2, i)) by {
                if dependencies_completed(g, st, i) {
                    assert forall|k: int| 0 <= k < g[i].len() implies st2[#[trigger] g[i][k]]
                        == NodeStatus::Completed by {
                        assert(st[g[i][k]] == NodeStatus::Completed);
                    }
                }
            }
            assert forall|i: int| 0 <= i < g.len() implies (rd2.contains(i) <==> (#[trigger] st2[i]
                == NodeStatus::Pending && dependencies_completed(g, st2, i))) by {
                if rd2.contains(i) {
                    if rd.contains(i) {
                        assert(st[i] == NodeStatus::Pending);
                    }
                }
                if st2[i] == NodeStatus::Pending && dependencies_completed(g, st2, i) {
                    assert(i != position);
                    assert(st[i] == NodeStatus::Pending);
                    if dependencies_completed(g, st, i) {
                        assert(rd.contains(i));
                    } else {
                        let k = choose|k: int|
                            0 <= k < g[i].len() && st[#[trigger] g[i][k]] != NodeStatus::Completed;
                        assert(st2[g[i][k]] == NodeStatus::Completed);
                        assert(g[i][k] == position as int);
                        assert(has_edge(g, i, position as int));
                        assert(deps.contains(i as usize));
                        let u = choose|u: int| 0 <= u < deps.len() && deps[u] == i as usize;
                        assert(deps[u] == i);
                    }
                }
            }
            assert forall|i: int|
                0 <= i < g.len() && (#[trigger] st2[i] == NodeStatus::Running || st2[i]
                    == NodeStatus::Completed || st2[i]
                    == NodeStatus::Failed) implies dependencies_completed(g, st2, i) by {
                if i != position {
                    assert(st[i] == st2[i]);
                } else {
                    assert(st[position as int] == NodeStatus::Running);
                }
                assert(dependencies_completed(g, st, i));
            }
            assert forall|i: int|
                0 <= i < g.len() && #[trigger] st2[i]
                    == NodeStatus::Pending implies !has_lost_dependency(g, st2, i) by {
                assert(st[i] == NodeStatus::Pending);
                if has_lost_dependency(g, st2, i) {
                    let k = choose|k: int| 0 <= k < g[i].len() && is_lost(st2[#[trigger] g[i][k]]);
                    assert(is_lost(st[g[i][k]]));
                    assert(has_lost_dependency(g, st, i));
                }
            }
            assert(schedule_ok(g, st2, rd2));
        }
        true
    }

    /// Records that the running step at `position` failed at `now`, and
    /// skips every pending step that depends on it, directly or through
    /// other steps. All other steps, the ready queue and the results stay
    /// as they were. Returns `false`, and changes nothing, where `position`
    /// is no step or the step is not running.
    pub fn fail(&mut self, position: usize, now: i64) -> (done: bool)
        requires
            old(self).inv(),
        ensures
            final(self).inv(),
            done == old(self).is_running(position as int),
            !done ==> Self::unchanged(old(self), final(self)),
            done ==> Self::failed(old(self), final(self), position as int, now),
    {
        let ghost before = *self;
        let ghost g = self.graph().graph();
        let ghost st = self.statuses();
        let ghost rd = self.ready();
        let ghost names = self.names();
        if position >= self.graph.len() {
            return false;
        }
        assert(st[position as int] == self.graph().nodes()[position as int].status);
        match self.graph.node(position).status {
            NodeStatus::Running => {},
            _ => {
                return false;
            },
        }
        self.graph.mark_failed(position, now);
        let ghost nodes1 = self.graph().nodes();
        let ghost st1 = self.statuses();
        proof {
            ExecutionGraph::lemma_changed_at_keeps_shape(&before.graph(), &self.graph(), position as int);
            assert(st1 =~= st.update(position as int, NodeStatus::Failed)) by {
                assert forall|i: int| 0 <= i < st.len() implies st1[i] == st.update(
                    position as int,
                    NodeStatus::Failed,
                )[i] by {
                    if i != position {
                        assert(self.graph().nodes()[i] == before.graph().nodes()[i]);
                    }
                }
            }
            assert forall|i: int| 0 <= i < nodes1.len() && i != position implies same_but_status(
                #[trigger] nodes1[i],
                before.graph().nodes()[i],
            ) by {
                assert(nodes1[i] == before.graph().nodes()[i]);
            }
        }
        let n = self.graph.len();
        let mut changed = true;
        while changed
            invariant
                n == g.len(),
                position < n,
                in_range(g),
                schedule_ok(g, st, rd),
                st[position as int] == NodeStatus::Running,
                st1 == st.update(position as int, NodeStatus::Failed),
                nodes1.len() == n,
                self.graph().workflow() == before.graph().workflow(),
                self.graph().nodes().len() == n,
                self.graph().graph() == g,
                self.graph().wf(),
                self.ready() == rd,
                self.results() == before.results(),
                forall|i: int|
                    0 <= i < n ==> same_but_status(#[trigger] self.graph().nodes()[i], nodes1[i]),
                forall|i: int|
                    0 <= i < n ==> (#[trigger] self.statuses()[i] == st1[i] || (st1[i]
                        == NodeStatus::Pending && self.statuses()[i] == NodeStatus::Skipped)),
                forall|i: int|
                    0 <= i < n && st1[i] == NodeStatus::Pending && #[trigger] self.statuses()[i]
                        == NodeStatus::Skipped ==> reaches(g, i, position as int)
                        && !dependencies_completed(g, st, i),
                !changed ==> forall|i: int|
                    0 <= i < n && #[trigger] self.statuses()[i] == NodeStatus::Pending
                        ==> !has_lost_dependency(g, self.statuses(), i),
            decreases pending_count(self.statuses()) + if changed { 1nat } else { 0nat },
        {
            changed = false;
            let ghost round = self.statuses();
            let mut i: usize = 0;
            while i < n
                invariant
                    n == g.len(),
                    position < n,
                    i <= n,
                    in_range(g),
                    schedule_ok(g, st, rd),
                    st[position as int] == NodeStatus::Running,
                    st1 == st.update(position as int, NodeStatus::Failed),
                    nodes1.len() == n,
                    self.graph().workflow() == before.graph().workflow(),
                    self.graph().nodes().len() == n,
                    self.graph().graph() == g,
                    self.graph().wf(),
                    self.ready() == rd,
                    self.results() == before.results(),
                    forall|a: int|
                        0 <= a < n ==> same_but_status(#[trigger] self.graph().nodes()[a], nodes1[a]),
                    forall|a: int|
                        0 <= a < n ==> (#[trigger] self.statuses()[a] == st1[a] || (st1[a]
                            == NodeStatus::Pending && self.statuses()[a] == NodeStatus::Skipped)),
                    forall|a: int|
                        0 <= a < n && st1[a] == NodeStatus::Pending && #[trigger] self.statuses()[a]
                            == NodeStatus::Skipped ==> reaches(g, a, position as int)
                            && !dependencies_completed(g, st, a),
                    !changed ==> self.statuses() == round,
                    !changed ==> forall|a: int|
                        0 <= a < i && #[trigger] self.statuses()[a] == NodeStatus::Pending
                            ==> !has_lost_dependency(g, self.statuses(), a),
                    pending_count(self.statuses()) <= pending_count(round),
                    changed ==> pending_count(self.statuses()) < pending_count(round),
                decreases n - i,
            {
                let ghost cur = self.statuses();
                let ghost cur_graph = self.graph();
                assert(cur[i as int] == self.graph().nodes()[i as int].status);
                let pending = match self.graph.node(i).status {
                    NodeStatus::Pending => true,
                    _ => false,
                };
                if pending && self.depends_on_lost_step(i) {
                    self.graph.mark_skipped(i);
                    changed = true;
                    proof {
                        ExecutionGraph::lemma_changed_at_keeps_shape(
                            &cur_graph,
                            &self.graph(),
                            i as int,
                        );
                        let now_st = self.statuses();
                        assert(now_st =~= cur.update(i as int, NodeStatus::Skipped)) by {
                            assert forall|a: int| 0 <= a < cur.len() implies now_st[a] == cur.update(
                                i as int,
                                NodeStatus::Skipped,
                            )[a] by {
                                if a != i {
                                    assert(self.graph().nodes()[a] == cur_graph.nodes()[a]);
                                }
                            }
                        }
                        lemma_pending_update(cur, i as int, NodeStatus::Skipped);
                        assert(i != position);
                        assert(st1[i as int] == NodeStatus::Pending);
                        assert(st[i as int] == NodeStatus::Pending);
                        let k = choose|k: int|
                            0 <= k < g[i as int].len() && is_lost(cur[#[trigger] g[i as int][k]]);
                        let d = g[i as int][k];
                        assert(0 <= g[i as int][k] < g.len());
                        assert(has_edge(g, i as int, d));
                        if d != position {
                            assert(st1[d] == st[d]);
                            if cur[d] == st1[d] {
                                assert(is_lost(st[g[i as int][k]]));
                                assert(has_lost_dependency(g, st, i as int));
                                assert(false);
                            }
                            assert(reaches(g, d, position as int));
                        }
                        lemma_reaches_step(g, i as int, d, position as int);
                        assert(st[g[i as int][k]] != NodeStatus::Completed);
                        assert(!dependencies_completed(g, st, i as int));
                        assert forall|a: int| 0 <= a < n implies same_but_status(
                            #[trigger] self.graph().nodes()[a],
                            nodes1[a],
                        ) by {
                            if a != i {
                                assert(self.graph().nodes()[a] == cur_graph.nodes()[a]);
                            }
                            assert(same_but_status(cur_graph.nodes()[a], nodes1[a]));
                        }
                    }
                }
                i = i + 1;
            }
        }
        proof {
            let fin = self.statuses();
            assert forall|i: int| 0 <= i < n implies (dependencies_completed(g, fin, i)
                <==> dependencies_completed(g, st, i)) by {
                if dependencies_completed(g, st, i) {
                    assert forall|k: int| 0 <= k < g[i].len() implies fin[#[trigger] g[i][k]]
                        == NodeStatus::Completed by {
                        assert(st[g[i][k]] == NodeStatus::Completed);
                        assert(0 <= g[i][k] < g.len());
                        assert(g[i][k] != position);
                        assert(fin[g[i][k]] == st1[g[i][k]] || st1[g[i][k]] == NodeStatus::Pending);
                    }
                }
                if dependencies_completed(g, fin, i) {
                    assert forall|k: int| 0 <= k < g[i].len() implies st[#[trigger] g[i][k]]
                        == NodeStatus::Completed by {
                        assert(fin[g[i][k]] == NodeStatus::Completed);
                        assert(0 <= g[i][k] < g.len());
                        assert(fin[g[i][k]] == st1[g[i][k]] || fin[g[i][k]] == NodeStatus::Skipped);
                    }
                }
            }
            assert forall|i: int| 0 <= i < n implies (rd.contains(i) <==> (#[trigger] fin[i]
                == NodeStatus::Pending && dependencies_completed(g, fin, i))) by {
                assert(fin[i] == st1[i] || (st1[i] == NodeStatus::Pending && fin[i]
                    == NodeStatus::Skipped));
                if rd.contains(i) {
                    assert(st[i] == NodeStatus::Pending && dependencies_completed(g, st, i));
                    assert(i != position);
                }
                if fin[i] == NodeStatus::Pending && dependencies_completed(g, fin, i) {
                    assert(i != position);
                    assert(st[i] == NodeStatus::Pending);
                }
            }
            assert forall|i: int|
                0 <= i < n && (#[trigger] fin[i] == NodeStatus::Running || fin[i]
                    == NodeStatus::Completed || fin[i]
                    == NodeStatus::Failed) implies dependencies_completed(g, fin, i) by {
                if i != position {
                    assert(st[i] == fin[i]);
                } else {
                    assert(st[position as int] == NodeStatus::Running);
                }
                assert(dependencies_completed(g, st, i));
            }
            assert(schedule_ok(g, fin, rd));
            assert(results_ok(names, self.graph().nodes(), self.results())) by {
                let nodes = self.graph().nodes();
                let old_nodes = before.graph().nodes();
                assert forall|i: int| 0 <= i < nodes.len() implies ((#[trigger] nodes[i]).status
                    == NodeStatus::Completed <==> nodes[i].result is Some) by {
                    assert(same_but_status(nodes[i], nodes1[i]));
                    assert(fin[i] == nodes[i].status);
                    assert(st[i] == old_nodes[i].status);
                    assert(fin[i] == st1[i] || (st1[i] == NodeStatus::Pending && fin[i]
                        == NodeStatus::Skipped));
                    if i != position {
                        assert(nodes1[i] == old_nodes[i]);
                    }
                }
                assert forall|i: int|
                    0 <= i < nodes.len() && (#[trigger] nodes[i]).status
                        == NodeStatus::Completed implies self.results().has(names[i])
                    && self.results().value_of(names[i]) == nodes[i].result->0 by {
                    assert(same_but_status(nodes[i], nodes1[i]));
                    assert(fin[i] == nodes[i].status);
                    assert(fin[i] == st1[i] || (st1[i] == NodeStatus::Pending && fin[i]
                        == NodeStatus::Skipped));
                    assert(i != position);
                    assert(nodes1[i] == old_nodes[i]);
                    assert(old_nodes[i].status == NodeStatus::Completed);
                }
                assert forall|name2: Seq<char>| #[trigger]
                    self.results().has(name2) implies exists|i: int|
                    0 <= i < nodes.len() && names[i] == name2 && (#[trigger] nodes[i]).status
                        == NodeStatus::Completed by {
                    let i = choose|i: int|
                        0 <= i < old_nodes.len() && names[i] == name2 && (#[trigger] old_nodes[i]).status
                            == NodeStatus::Completed;
                    assert(st[i] == old_nodes[i].status);
                    assert(i != position);
                    assert(fin[i] == st1[i] || (st1[i] == NodeStatus::Pending && fin[i]
                        == NodeStatus::Skipped));
                    assert(fin[i] == nodes[i].status);
                }
            }
            assert forall|i: int| 0 <= i < n implies #[trigger] fin[i] == status_after_failure(
                g,
                st,
                position as int,
                i,
            ) by {
                assert(fin[i] == st1[i] || (st1[i] == NodeStatus::Pending && fin[i]
                    == NodeStatus::Skipped));
                if i != position {
                    if st[i] == NodeStatus::Pending && reaches(g, i, position as int) {
                        let p = choose|p: Seq<int>|
                            crate::dag::is_walk(g, p) && p.len() >= 2 && p[0] == i && p.last()
                                == position as int;
                        assert forall|x: int|
                            0 <= x < g.len() && x != position implies (#[trigger] fin[x] == st[x] || (
                        st[x] == NodeStatus::Pending && fin[x] == NodeStatus::Skipped)) by {
                            assert(fin[x] == st1[x] || (st1[x] == NodeStatus::Pending && fin[x]
                                == NodeStatus::Skipped));
                        }
                        lemma_upstream_is_lost(g, st, fin, position as int, p);
                    }
                }
            }
            assert forall|i: int| 0 <= i < n && i != position implies same_but_status(
                #[trigger] self.graph().nodes()[i],
                before.graph().nodes()[i],
            ) by {
                assert(same_but_status(self.graph().nodes()[i], nodes1[i]));
                assert(nodes1[i] == before.graph().nodes()[i]);
            }
            assert(same_but_status(self.graph().nodes()[position as int], nodes1[position as int]));
            assert(before.graph().nodes()[position as int].status == NodeStatus::Running);
        }
        true
    }

    /// Whether the run is over: no step is ready and none is running. Then
    /// every step has completed, failed or been skipped.
    pub fn is_finished(&self) -> (b: bool)
        requires
            self.inv(),
        ensures
            b == self.is_idle(),
            b ==> forall|i: int|
                0 <= i < self.statuses().len() ==> is_settled(#[trigger] self.statuses()[i]),
    {
        if self.ready.len() > 0 {
            return false;
        }
        let n = self.graph.len();
        let mut i: usize = 0;
        while i < n
            invariant
                n == self.graph().nodes().len(),
                i <= n,
                forall|j: int| 0 <= j < i ==> #[trigger] self.statuses()[j] != NodeStatus::Running,
            decreases n - i,
        {
            match self.graph.node(i).status {
                NodeStatus::Running => {
                    assert(self.statuses()[i as int] == NodeStatus::Running);
                    return false;
                },
                _ => {},
            }
            i = i + 1;
        }
        proof {
            self.lemma_idle_is_settled();
        }
        true
    }

    /// When no step is ready and none is running, every step has
    /// completed, failed or been skipped: the scheduler never stops with a
    /// step that could still run.
    pub proof fn lemma_idle_is_settled(&self)
        requires
            self.inv(),
            self.is_idle(),
        ensures
            forall|i: int|
                0 <= i < self.statuses().len() ==> is_settled(#[trigger] self.statuses()[i]),
    {
        let g = self.graph().graph();
        let st = self.statuses();
        let rank = choose|rank: Seq<nat>| is_ranking(g, rank);
        assert forall|i: int| 0 <= i < st.len() implies is_settled(#[trigger] st[i]) by {
            lemma_nothing_pending(g, st, self.ready(), rank, i);
        }
    }

    /// A step that is running or has completed depends on completed steps
    /// only: no step starts before all that it depends on has completed.
    pub proof fn lemma_started_after_dependencies(&self, i: int, k: int)
        requires
            self.inv(),
            0 <= i < self.statuses().len(),
            self.statuses()[i] == NodeStatus::Running || self.statuses()[i]
                == NodeStatus::Completed,
            0 <= k < self.graph().graph()[i].len(),
        ensures
            self.statuses()[self.graph().graph()[i][k]] == NodeStatus::Completed,
    {
        assert(dependencies_completed(self.graph().graph(), self.statuses(), i));
    }
}

} // verus!
