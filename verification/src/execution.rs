//! The execution graph of one run.
//!
//! The graph holds the workflow and, for every step, a node at the step's
//! position. A node names the steps it depends on and the steps that depend
//! on it by their positions.

use vstd::prelude::*;
use crate::dag::graph_view;
use crate::dag::has_circular_dependencies;
use crate::dag::has_edge;
use crate::dag::in_range;
use crate::dag::is_acyclic;
use crate::model::AgentError;
use crate::model::WorkflowDefinition;
use crate::model::WorkflowStep;
use crate::validator::dependency_graph;
use crate::validator::failure_error;
use crate::validator::failure_message;
use crate::validator::names_unique;
use crate::validator::resolve_dependencies;
use crate::validator::step_names_unique;
use crate::validator::structure_valid;
use crate::validator::ValidationFailure;

verus! {

/// How far a step has come in a run.
#[derive(Debug, Clone, Copy, PartialEq, Eq, Structural)]
pub enum NodeStatus {
    Pending,
    Running,
    Completed,
    Failed,
    Skipped,
}

/// The state of one step in a run. Times are in milliseconds since the
/// Unix epoch.
#[derive(Debug, Clone)]
pub struct ExecutionNode {
    pub status: NodeStatus,
    /// The positions of the steps that this step depends on, as it lists
    /// them.
    pub dependencies: Vec<usize>,
    /// The positions of the steps that depend on this step, in rising
    /// order.
    pub dependents: Vec<usize>,
    pub result: Option<serde_json::Value>,
    pub start_time: Option<i64>,
    pub end_time: Option<i64>,
}

/// A workflow with the state of each of its steps.
#[derive(Debug, Clone)]
pub struct ExecutionGraph {
    workflow: WorkflowDefinition,
    nodes: Vec<ExecutionNode>,
}

/// The dependencies of each node, as a graph over positions.
pub open spec fn node_graph(nodes: Seq<ExecutionNode>) -> Seq<Seq<int>> {
    Seq::new(
        nodes.len(),
        |i: int| Seq::new(nodes[i].dependencies@.len(), |k: int| nodes[i].dependencies@[k] as int),
    )
}

/// The dependents of each node are the nodes that depend on it, each once.
pub open spec fn dependents_match(nodes: Seq<ExecutionNode>) -> bool {
    &&& forall|i: int|
        0 <= i < nodes.len() ==> (#[trigger] nodes[i]).dependents@.no_duplicates()
    &&& forall|i: int, j: int|
        0 <= i < nodes.len() && 0 <= j < nodes.len() ==> (nodes[i].dependents@.contains(j as usize)
            <==> #[trigger] has_edge(node_graph(nodes), j, i))
    &&& forall|i: int, t: int|
        0 <= i < nodes.len() && 0 <= t < nodes[i].dependents@.len() ==> (#[trigger] nodes[i].dependents@[t])
            < nodes.len()
}

impl ExecutionGraph {
    /// The workflow that the graph was built from.
    pub closed spec fn workflow(&self) -> WorkflowDefinition {
        self.workflow
    }

    /// The nodes, each at the position of its step.
    pub closed spec fn nodes(&self) -> Seq<ExecutionNode> {
        self.nodes@
    }

    /// The status of each step.
    pub open spec fn statuses(&self) -> Seq<NodeStatus> {
        Seq::new(self.nodes().len(), |i: int| self.nodes()[i].status)
    }

    /// The dependencies as a graph over positions.
    pub open spec fn graph(&self) -> Seq<Seq<int>> {
        node_graph(self.nodes())
    }

    /// The graph agrees with its workflow: one node for each step, with the
    /// step's dependencies and dependents by position; step names are
    /// distinct and the dependencies can be ranked.
    pub open spec fn wf(&self) -> bool {
        &&& self.nodes().len() == self.workflow().steps@.len()
        &&& names_unique(&self.workflow())
        &&& self.graph() == dependency_graph(&self.workflow())
        &&& in_range(self.graph())
        &&& is_acyclic(self.graph())
        &&& dependents_match(self.nodes())
    }

    /// Every step is pending, without a result and without times.
    pub open spec fn is_fresh(&self) -> bool {
        forall|i: int|
            0 <= i < self.nodes().len() ==> {
                &&& (#[trigger] self.nodes()[i]).status == NodeStatus::Pending
                &&& self.nodes()[i].result is None
                &&& self.nodes()[i].start_time is None
                &&& self.nodes()[i].end_time is None
            }
    }

    /// The number of steps.
    pub fn len(&self) -> (n: usize)
        ensures
            n == self.nodes().len(),
    {
        self.nodes.len()
    }

    /// The workflow that the graph was built from.
    pub fn definition(&self) -> (w: &WorkflowDefinition)
        ensures
            *w == self.workflow(),
    {
        &self.workflow
    }

    /// The node at a position.
    pub fn node(&self, position: usize) -> (node: &ExecutionNode)
        requires
            position < self.nodes().len(),
        ensures
            *node == self.nodes()[position as int],
    {
        &self.nodes[position]
    }

    /// The step at a position.
    pub fn step(&self, position: usize) -> (step: &WorkflowStep)
        requires
            position < self.workflow().steps@.len(),
        ensures
            *step == self.workflow().steps@[position as int],
    {
        &self.workflow.steps[position]
    }

    /// Whether `after` is `before` with the node at `position` changed in
    /// its status, result and times only.
    pub open spec fn changed_at(before: &ExecutionGraph, after: &ExecutionGraph, position: int) -> bool {
        &&& after.workflow() == before.workflow()
        &&& after.nodes().len() == before.nodes().len()
        &&& forall|j: int|
            0 <= j < before.nodes().len() && j != position ==> #[trigger] after.nodes()[j]
                == before.nodes()[j]
        &&& after.nodes()[position].dependencies == before.nodes()[position].dependencies
        &&& after.nodes()[position].dependents == before.nodes()[position].dependents
    }

    /// A change of status, result or times leaves the shape of the graph as
    /// it was.
    pub proof fn lemma_changed_at_keeps_shape(
        before: &ExecutionGraph,
        after: &ExecutionGraph,
        position: int,
    )
        requires
            0 <= position < before.nodes().len(),
            Self::changed_at(before, after, position),
        ensures
            after.graph() == before.graph(),
            before.wf() ==> after.wf(),
    {
        let g = before.graph();
        let h = after.graph();
        assert forall|a: int| 0 <= a < g.len() implies h[a] =~= g[a] by {
            if a != position {
                assert(after.nodes()[a] == before.nodes()[a]);
            }
        }
        assert(h =~= g);
        if before.wf() {
            assert forall|i: int| 0 <= i < after.nodes().len() implies (#[trigger] after.nodes()[i]).dependents@.no_duplicates() by {
                assert(after.nodes()[i].dependents == before.nodes()[i].dependents);
            }
            assert forall|i: int, j: int|
                0 <= i < after.nodes().len() && 0 <= j < after.nodes().len() implies (after.nodes()[i].dependents@.contains(
                j as usize,
            ) <==> #[trigger] has_edge(node_graph(after.nodes()), j, i)) by {
                assert(after.nodes()[i].dependents == before.nodes()[i].dependents);
                assert(has_edge(node_graph(before.nodes()), j, i) <==> before.nodes()[i].dependents@.contains(
                    j as usize,
                ));
            }
            assert forall|i: int, t: int|
                0 <= i < after.nodes().len() && 0 <= t < after.nodes()[i].dependents@.len() implies (#[trigger] after.nodes()[i].dependents@[t])
                < after.nodes().len() by {
                assert(after.nodes()[i].dependents == before.nodes()[i].dependents);
                assert(before.nodes()[i].dependents@[t] < before.nodes().len());
            }
        }
    }

    /// Records that the step at `position` was launched at `now`.
    pub(crate) fn mark_running(&mut self, position: usize, now: i64)
        requires
            position < old(self).nodes().len(),
        ensures
            Self::changed_at(old(self), final(self), position as int),
            final(self).nodes()[position as int].status == NodeStatus::Running,
            final(self).nodes()[position as int].result == old(self).nodes()[position as int].result,
            final(self).nodes()[position as int].start_time == Some(now),
            final(self).nodes()[position as int].end_time == old(self).nodes()[position as int].end_time,
    {
        self.nodes[position].status = NodeStatus::Running;
        self.nodes[position].start_time = Some(now);
    }

    /// Records that the step at `position` completed at `now` with `result`.
    pub(crate) fn mark_completed(&mut self, position: usize, result: serde_json::Value, now: i64)
        requires
            position < old(self).nodes().len(),
        ensures
            Self::changed_at(old(self), final(self), position as int),
            final(self).nodes()[position as int].status == NodeStatus::Completed,
            final(self).nodes()[position as int].result == Some(result),
            final(self).nodes()[position as int].start_time == old(self).nodes()[position as int].start_time,
            final(self).nodes()[position as int].end_time == Some(now),
    {
        self.nodes[position].status = NodeStatus::Completed;
        self.nodes[position].result = Some(result);
        self.nodes[position].end_time = Some(now);
    }

    /// Records that the step at `position` failed at `now`.
    pub(crate) fn mark_failed(&mut self, position: usize, now: i64)
        requires
            position < old(self).nodes().len(),
        ensures
            Self::changed_at(old(self), final(self), position as int),
            final(self).nodes()[position as int].status == NodeStatus::Failed,
            final(self).nodes()[position as int].result == old(self).nodes()[position as int].result,
            final(self).nodes()[position as int].start_time == old(self).nodes()[position as int].start_time,
            final(self).nodes()[position as int].end_time == Some(now),
    {
        self.nodes[position].status = NodeStatus::Failed;
        self.nodes[position].end_time = Some(now);
    }

    /// Records that the step at `position` will not run.
    pub(crate) fn mark_skipped(&mut self, position: usize)
        requires
            position < old(self).nodes().len(),
        ensures
            Self::changed_at(old(self), final(self), position as int),
            final(self).nodes()[position as int].status == NodeStatus::Skipped,
            final(self).nodes()[position as int].result == old(self).nodes()[position as int].result,
            final(self).nodes()[position as int].start_time == old(self).nodes()[position as int].start_time,
            final(self).nodes()[position as int].end_time == old(self).nodes()[position as int].end_time,
    {
        self.nodes[position].status = NodeStatus::Skipped;
    }
}

/// The positions of the nodes that point to `target`, in rising order.
fn collect_dependents(adj: &Vec<Vec<usize>>, target: usize) -> (r: Vec<usize>)
    requires
        target < adj@.len(),
    ensures
        r@.no_duplicates(),
        forall|j: int|
            0 <= j < adj@.len() ==> (r@.contains(j as usize) <==> has_edge(
                graph_view(adj@),
                j,
                target as int,
            )),
        forall|t: int| 0 <= t < r@.len() ==> (#[trigger] r@[t]) < adj@.len(),
{
    let ghost g = graph_view(adj@);
    let n = adj.len();
    let mut out: Vec<usize> = Vec::new();
    let mut j: usize = 0;
    while j < n
        invariant
            n == adj@.len(),
            g == graph_view(adj@),
            target < n,
            j <= n,
            out@.no_duplicates(),
            forall|t: int| 0 <= t < out@.len() ==> (#[trigger] out@[t]) < j,
            forall|a: int| 0 <= a < j ==> (out@.contains(a as usize) <==> has_edge(g, a, target as int)),
        decreases n - j,
    {
        let m = adj[j].len();
        let mut k: usize = 0;
        let mut found = false;
        while k < m && !found
            invariant
                n == adj@.len(),
                g == graph_view(adj@),
                j < n,
                m == adj@[j as int]@.len(),
                k <= m,
                found ==> has_edge(g, j as int, target as int),
                !found ==> forall|b: int| 0 <= b < k ==> g[j as int][b] != target,
            decreases m - k + if found { 0int } else { 1int },
        {
            if adj[j][k] == target {
                assert(g[j as int][k as int] == target);
                found = true;
            } else {
                k = k + 1;
            }
        }
        let ghost before = out@;
        if found {
            out.push(j);
            proof {
                assert(out@[before.len() as int] == j);
                assert forall|a: int| 0 <= a < j + 1 implies (out@.contains(a as usize) <==> has_edge(
                    g,
                    a,
                    target as int,
                )) by {
                    if a < j {
                        if before.contains(a as usize) {
                            let t = choose|t: int| 0 <= t < before.len() && before[t] == a as usize;
                            assert(out@[t] == a as usize);
                        }
                        if out@.contains(a as usize) {
                            let t = choose|t: int| 0 <= t < out@.len() && out@[t] == a as usize;
                            assert(before[t] == a as usize);
                        }
                    }
                }
            }
        } else {
            proof {
                assert(!has_edge(g, j as int, target as int));
                assert forall|a: int| 0 <= a < j + 1 implies (out@.contains(a as usize) <==> has_edge(
                    g,
                    a,
                    target as int,
                )) by {
                    if a == j && out@.contains(a as usize) {
                        let t = choose|t: int| 0 <= t < out@.len() && out@[t] == a as usize;
                        assert(out@[t] < j);
                    }
                }
            }
        }
        j = j + 1;
    }
    out
}

/// A copy of a list of positions.
fn copy_positions(v: &Vec<usize>) -> (r: Vec<usize>)
    ensures
        r@ == v@,
{
    let mut out: Vec<usize> = Vec::new();
    let mut i: usize = 0;
    while i < v.len()
        invariant
            i <= v@.len(),
            out@ == v@.subrange(0, i as int),
        decreases v@.len() - i,
    {
        out.push(v[i]);
        assert(v@.subrange(0, i + 1) =~= v@.subrange(0, i as int).push(v@[i as int]));
        i = i + 1;
    }
    assert(v@.subrange(0, v@.len() as int) =~= v@);
    out
}

/// Builds the graph of a workflow whose dependencies are given by position.
fn build_graph(workflow: WorkflowDefinition, adj: &Vec<Vec<usize>>) -> (graph: ExecutionGraph)
    requires
        names_unique(&workflow),
        graph_view(adj@) == dependency_graph(&workflow),
        in_range(graph_view(adj@)),
        is_acyclic(graph_view(adj@)),
    ensures
        graph.workflow() == workflow,
        graph.wf(),
        graph.is_fresh(),
{
    let ghost g = graph_view(adj@);
    let n = adj.len();
    let mut nodes: Vec<ExecutionNode> = Vec::new();
    let mut i: usize = 0;
    while i < n
        invariant
            n == adj@.len(),
            g == graph_view(adj@),
            i <= n,
            nodes@.len() == i,
            forall|a: int|
                0 <= a < i ==> {
                    &&& (#[trigger] nodes@[a]).status == NodeStatus::Pending
                    &&& nodes@[a].result is None
                    &&& nodes@[a].start_time is None
                    &&& nodes@[a].end_time is None
                    &&& nodes@[a].dependencies@ == adj@[a]@
                    &&& nodes@[a].dependents@.no_duplicates()
                    &&& forall|j: int|
                        0 <= j < n ==> (nodes@[a].dependents@.contains(j as usize) <==> has_edge(
                            g,
                            j,
                            a,
                        ))
                    &&& forall|t: int|
                        0 <= t < nodes@[a].dependents@.len() ==> (#[trigger] nodes@[a].dependents@[t])
                            < n
                },
        decreases n - i,
    {
        let node = ExecutionNode {
            status: NodeStatus::Pending,
            dependencies: copy_positions(&adj[i]),
            dependents: collect_dependents(adj, i),
            result: None,
            start_time: None,
            end_time: None,
        };
        nodes.push(node);
        i = i + 1;
    }
    proof {
        let v = node_graph(nodes@);
        assert(v.len() == g.len());
        assert forall|a: int| 0 <= a < g.len() implies v[a] =~= g[a] by {
            assert(nodes@[a].dependencies@ == adj@[a]@);
        }
        assert(v =~= g);
        assert(dependents_match(nodes@));
    }
    ExecutionGraph { workflow, nodes }
}

/// Builds the execution graph of a workflow: every step pending, with its
/// dependencies and its dependents by position. A workflow with a
/// duplicate step name, a dependency that names no step or a dependency
/// cycle is refused with the error that validation gives for it.
pub fn create_execution_graph(workflow: WorkflowDefinition) -> (r: Result<
    ExecutionGraph,
    AgentError,
>)
    ensures
        r is Ok <==> structure_valid(&workflow),
        r matches Ok(graph) ==> graph.workflow() == workflow && graph.wf() && graph.is_fresh(),
        r matches Err(e) ==> exists|failure: ValidationFailure|
            structure_fails_with(&workflow, failure) && (e matches AgentError::Configuration(message)
                && message@ == failure_message(&workflow, failure)),
{
    if !step_names_unique(&workflow) {
        assert(structure_fails_with(&workflow, ValidationFailure::DuplicateStepNames));
        return Err(failure_error(&workflow, ValidationFailure::DuplicateStepNames));
    }
    let adj = match resolve_dependencies(&workflow) {
        Ok(adj) => adj,
        Err((step, dependency)) => {
            let failure = ValidationFailure::MissingDependency { step, dependency };
            assert(structure_fails_with(&workflow, failure));
            assert(!crate::validator::dependencies_resolve(&workflow)) by {
                if crate::validator::dependencies_resolve(&workflow) {
                    assert(crate::validator::dependency_resolves(
                        &workflow,
                        step as int,
                        dependency as int,
                    ));
                }
            }
            return Err(failure_error(&workflow, failure));
        },
    };
    if has_circular_dependencies(&adj) {
        assert(structure_fails_with(&workflow, ValidationFailure::CircularDependencies));
        return Err(failure_error(&workflow, ValidationFailure::CircularDependencies));
    }
    Ok(build_graph(workflow, &adj))
}

/// Whether `failure` is the first of the three checks on a workflow's shape
/// that the workflow fails.
pub open spec fn structure_fails_with(w: &WorkflowDefinition, failure: ValidationFailure) -> bool {
    match failure {
        ValidationFailure::DuplicateStepNames => !names_unique(w),
        ValidationFailure::MissingDependency { step, dependency } => {
            &&& names_unique(w)
            &&& step < w.steps@.len()
            &&& dependency < w.steps@[step as int].dependencies@.len()
            &&& !crate::validator::dependency_resolves(w, step as int, dependency as int)
            &&& forall|a: int, b: int|
                0 <= a < w.steps@.len() && 0 <= b < w.steps@[a].dependencies@.len()
                    && crate::validator::comes_before(a, b, step as int, dependency as int)
                    ==> #[trigger] crate::validator::dependency_resolves(w, a, b)
        },
        ValidationFailure::CircularDependencies => {
            &&& names_unique(w)
            &&& crate::validator::dependencies_resolve(w)
            &&& crate::validator::has_dependency_cycle(w)
        },
        _ => false,
    }
}

} // verus!
