//! The checks that a workflow must pass before it runs.
//!
//! They are made in a fixed order: the workflow has a name, no two steps
//! share a name, every dependency names a step, every step's agent is
//! registered, and the dependencies form no cycle. The first check that
//! fails decides the error.

use vstd::prelude::*;
use vstd::string::StringExecFns;
use crate::dag::graph_view;
use crate::dag::has_circular_dependencies;
use crate::dag::has_cycle;
use crate::dag::in_range;
use crate::dag::is_acyclic;
use crate::model::AgentError;
use crate::model::WorkflowDefinition;
use crate::named_map::lemma_position_of;
use crate::named_map::position_of;
use crate::registry::AgentRegistry;
use crate::text::same_text;

verus! {

/// The names of the steps, in the order of the definition.
pub open spec fn step_names(w: &WorkflowDefinition) -> Seq<Seq<char>> {
    Seq::new(w.steps@.len(), |i: int| w.steps@[i].name@)
}

/// The names that step `i` depends on, in the order it lists them.
pub open spec fn dependency_names(w: &WorkflowDefinition, i: int) -> Seq<Seq<char>> {
    Seq::new(w.steps@[i].dependencies@.len(), |k: int| w.steps@[i].dependencies@[k]@)
}

/// No two steps share a name.
pub open spec fn names_unique(w: &WorkflowDefinition) -> bool {
    step_names(w).no_duplicates()
}

/// The `k`-th dependency of step `i` names a step.
pub open spec fn dependency_resolves(w: &WorkflowDefinition, i: int, k: int) -> bool {
    step_names(w).contains(dependency_names(w, i)[k])
}

/// Every dependency of every step names a step.
pub open spec fn dependencies_resolve(w: &WorkflowDefinition) -> bool {
    forall|i: int, k: int|
        0 <= i < w.steps@.len() && 0 <= k < w.steps@[i].dependencies@.len()
            ==> #[trigger] dependency_resolves(w, i, k)
}

/// Whether the dependency at `(a, b)` comes before the one at `(i, k)`
/// when the steps are read in order, and each step's dependencies in order.
pub open spec fn comes_before(a: int, b: int, i: int, k: int) -> bool {
    a < i || (a == i && b < k)
}

/// The agent of every step is registered.
pub open spec fn agents_known(w: &WorkflowDefinition, registry: &AgentRegistry) -> bool {
    forall|i: int| 0 <= i < w.steps@.len() ==> registry.knows(#[trigger] w.steps@[i].agent@)
}

/// The dependency graph by position: node `i` points to the positions of
/// the steps that step `i` depends on.
pub open spec fn dependency_graph(w: &WorkflowDefinition) -> Seq<Seq<int>> {
    Seq::new(
        w.steps@.len(),
        |i: int|
            Seq::new(
                w.steps@[i].dependencies@.len(),
                |k: int| position_of(step_names(w), dependency_names(w, i)[k]),
            ),
    )
}

/// The dependencies of the workflow form a cycle. A step that depends on
/// itself is one.
pub open spec fn has_dependency_cycle(w: &WorkflowDefinition) -> bool {
    has_cycle(dependency_graph(w))
}

/// The shape that a workflow must have: distinct step names, dependencies
/// that name steps, and no cycle among them.
pub open spec fn structure_valid(w: &WorkflowDefinition) -> bool {
    &&& names_unique(w)
    &&& dependencies_resolve(w)
    &&& !has_dependency_cycle(w)
}

/// The steps can be ranked so that every step stands above the steps it
/// depends on. Validation finds such a ranking for every workflow that it
/// accepts, and the engine schedules by it.
pub open spec fn rankable(w: &WorkflowDefinition) -> bool {
    is_acyclic(dependency_graph(w))
}

/// The workflow passes every check.
pub open spec fn workflow_valid(w: &WorkflowDefinition, registry: &AgentRegistry) -> bool {
    &&& w.name@.len() > 0
    &&& structure_valid(w)
    &&& agents_known(w, registry)
}

/// The check that a workflow fails first.
#[derive(Debug, Clone, Copy, PartialEq, Eq, Structural)]
pub enum ValidationFailure {
    /// The workflow has no name.
    EmptyName,
    /// Two steps share a name.
    DuplicateStepNames,
    /// The dependency at this position of this step names no step.
    MissingDependency { step: usize, dependency: usize },
    /// The agent of this step is not registered.
    UnknownAgent { step: usize },
    /// The dependencies form a cycle.
    CircularDependencies,
}

/// Whether `failure` is the first check that the workflow fails, and, for
/// a dependency or an agent, the first place at which it fails.
pub open spec fn fails_with(
    w: &WorkflowDefinition,
    registry: &AgentRegistry,
    failure: ValidationFailure,
) -> bool {
    match failure {
        ValidationFailure::EmptyName => w.name@.len() == 0,
        ValidationFailure::DuplicateStepNames => w.name@.len() > 0 && !names_unique(w),
        ValidationFailure::MissingDependency { step, dependency } => {
            &&& w.name@.len() > 0
            &&& names_unique(w)
            &&& step < w.steps@.len()
            &&& dependency < w.steps@[step as int].dependencies@.len()
            &&& !dependency_resolves(w, step as int, dependency as int)
            &&& forall|a: int, b: int|
                0 <= a < w.steps@.len() && 0 <= b < w.steps@[a].dependencies@.len()
                    && comes_before(a, b, step as int, dependency as int)
                    ==> #[trigger] dependency_resolves(w, a, b)
        },
        ValidationFailure::UnknownAgent { step } => {
            &&& w.name@.len() > 0
            &&& names_unique(w)
            &&& dependencies_resolve(w)
            &&& step < w.steps@.len()
            &&& !registry.knows(w.steps@[step as int].agent@)
            &&& forall|a: int| 0 <= a < step ==> registry.knows(#[trigger] w.steps@[a].agent@)
        },
        ValidationFailure::CircularDependencies => {
            &&& w.name@.len() > 0
            &&& names_unique(w)
            &&& dependencies_resolve(w)
            &&& agents_known(w, registry)
            &&& has_dependency_cycle(w)
        },
    }
}

/// The text of the error for a failed check.
pub open spec fn failure_message(w: &WorkflowDefinition, failure: ValidationFailure) -> Seq<char> {
    match failure {
        ValidationFailure::EmptyName => "Workflow name cannot be empty"@,
        ValidationFailure::DuplicateStepNames => "Duplicate step names found"@,
        ValidationFailure::MissingDependency { step, dependency } => "Step '"@
            + w.steps@[step as int].name@ + "' depends on non-existent step '"@
            + w.steps@[step as int].dependencies@[dependency as int]@ + "'"@,
        ValidationFailure::UnknownAgent { step } => "Agent '"@ + w.steps@[step as int].agent@
            + "' not found for step '"@ + w.steps@[step as int].name@ + "'"@,
        ValidationFailure::CircularDependencies => "Circular dependencies detected"@,
    }
}

/// The position of the step with that name, or the number of steps where
/// no step has it.
pub fn find_step(w: &WorkflowDefinition, name: &str) -> (i: usize)
    ensures
        i == position_of(step_names(w), name@),
        i <= w.steps@.len(),
        i < w.steps@.len() <==> step_names(w).contains(name@),
        i < w.steps@.len() ==> w.steps@[i as int].name@ == name@,
{
    proof {
        lemma_position_of(step_names(w), name@);
    }
    let mut i: usize = 0;
    while i < w.steps.len()
        invariant
            i <= w.steps@.len(),
            step_names(w).len() == w.steps@.len(),
            i <= position_of(step_names(w), name@),
            position_of(step_names(w), name@) < step_names(w).len() ==> step_names(w)[position_of(
                step_names(w),
                name@,
            )] == name@,
            forall|j: int| 0 <= j < position_of(step_names(w), name@) ==> step_names(w)[j] != name@,
            step_names(w).contains(name@) <==> position_of(step_names(w), name@) < step_names(w).len(),
        decreases w.steps@.len() - i,
    {
        if same_text(w.steps[i].name.as_str(), name) {
            assert(step_names(w)[i as int] == name@);
            return i;
        }
        assert(step_names(w)[i as int] != name@);
        i = i + 1;
    }
    i
}

/// Whether no two steps share a name.
pub fn step_names_unique(w: &WorkflowDefinition) -> (unique: bool)
    ensures
        unique == names_unique(w),
{
    let n = w.steps.len();
    let mut i: usize = 0;
    while i < n
        invariant
            n == w.steps@.len(),
            i <= n,
            forall|a: int, b: int|
                0 <= a < i && 0 <= b < n && a != b ==> step_names(w)[a] != step_names(w)[b],
        decreases n - i,
    {
        let mut j: usize = 0;
        while j < n
            invariant
                n == w.steps@.len(),
                i < n,
                j <= n,
                forall|a: int, b: int|
                    0 <= a < i && 0 <= b < n && a != b ==> step_names(w)[a] != step_names(w)[b],
                forall|b: int| 0 <= b < j && b != i ==> step_names(w)[i as int] != step_names(w)[b],
            decreases n - j,
        {
            if j != i && same_text(w.steps[i].name.as_str(), w.steps[j].name.as_str()) {
                assert(step_names(w)[i as int] == step_names(w)[j as int]);
                return false;
            }
            j = j + 1;
        }
        i = i + 1;
    }
    true
}

/// The dependency graph by position, or the place of the first dependency
/// that names no step.
pub fn resolve_dependencies(w: &WorkflowDefinition) -> (r: Result<Vec<Vec<usize>>, (usize, usize)>)
    ensures
        match r {
            Ok(adj) => dependencies_resolve(w) && graph_view(adj@) == dependency_graph(w)
                && in_range(dependency_graph(w)),
            Err((step, dependency)) => {
                &&& step < w.steps@.len()
                &&& dependency < w.steps@[step as int].dependencies@.len()
                &&& !dependency_resolves(w, step as int, dependency as int)
                &&& forall|a: int, b: int|
                    0 <= a < w.steps@.len() && 0 <= b < w.steps@[a].dependencies@.len()
                        && comes_before(a, b, step as int, dependency as int)
                        ==> #[trigger] dependency_resolves(w, a, b)
            },
        },
{
    let n = w.steps.len();
    let mut adj: Vec<Vec<usize>> = Vec::new();
    let mut i: usize = 0;
    while i < n
        invariant
            n == w.steps@.len(),
            i <= n,
            adj@.len() == i,
            forall|a: int, b: int|
                0 <= a < i && 0 <= b < w.steps@[a].dependencies@.len() ==> #[trigger] dependency_resolves(
                    w,
                    a,
                    b,
                ),
            forall|a: int|
                0 <= a < i ==> (#[trigger] adj@[a])@.len() == w.steps@[a].dependencies@.len(),
            forall|a: int, b: int|
                0 <= a < i && 0 <= b < w.steps@[a].dependencies@.len() ==> (#[trigger] adj@[a]@[b])
                    == position_of(step_names(w), dependency_names(w, a)[b]) && adj@[a]@[b] < n,
        decreases n - i,
    {
        let m = w.steps[i].dependencies.len();
        let mut row: Vec<usize> = Vec::new();
        let mut k: usize = 0;
        while k < m
            invariant
                n == w.steps@.len(),
                i < n,
                m == w.steps@[i as int].dependencies@.len(),
                k <= m,
                row@.len() == k,
                forall|a: int, b: int|
                    0 <= a < i && 0 <= b < w.steps@[a].dependencies@.len() ==> #[trigger] dependency_resolves(
                        w,
                        a,
                        b,
                    ),
                forall|b: int| 0 <= b < k ==> #[trigger] dependency_resolves(w, i as int, b),
                forall|b: int|
                    0 <= b < k ==> (#[trigger] row@[b]) == position_of(
                        step_names(w),
                        dependency_names(w, i as int)[b],
                    ) && row@[b] < n,
            decreases m - k,
        {
            let j = find_step(w, w.steps[i].dependencies[k].as_str());
            assert(dependency_names(w, i as int)[k as int] == w.steps@[i as int].dependencies@[k as int]@);
            if j >= n {
                assert(!dependency_resolves(w, i as int, k as int));
                return Err((i, k));
            }
            assert(dependency_resolves(w, i as int, k as int));
            row.push(j);
            k = k + 1;
        }
        adj.push(row);
        i = i + 1;
    }
    proof {
        let g = dependency_graph(w);
        let v = graph_view(adj@);
        assert(v.len() == g.len());
        assert forall|a: int| 0 <= a < g.len() implies v[a] =~= g[a] by {
            assert(v[a].len() == adj@[a]@.len());
            assert forall|b: int| 0 <= b < g[a].len() implies v[a][b] == g[a][b] by {
                assert(adj@[a]@[b] == position_of(step_names(w), dependency_names(w, a)[b]));
            }
        }
        assert(v =~= g);
        assert forall|a: int, b: int| 0 <= a < g.len() && 0 <= b < g[a].len() implies 0
            <= #[trigger] g[a][b] < g.len() by {
            assert(adj@[a]@[b] < n);
        }
    }
    Ok(adj)
}

/// Makes the checks in their order and names the first that fails.
pub fn check_workflow(w: &WorkflowDefinition, registry: &AgentRegistry) -> (r: Result<
    (),
    ValidationFailure,
>)
    ensures
        match r {
            Ok(()) => workflow_valid(w, registry) && rankable(w),
            Err(failure) => fails_with(w, registry, failure),
        },
{
    if w.name.as_str().is_empty() {
        return Err(ValidationFailure::EmptyName);
    }
    if !step_names_unique(w) {
        return Err(ValidationFailure::DuplicateStepNames);
    }
    let adj = match resolve_dependencies(w) {
        Ok(adj) => adj,
        Err((step, dependency)) => {
            return Err(ValidationFailure::MissingDependency { step, dependency });
        },
    };
    let n = w.steps.len();
    let mut i: usize = 0;
    while i < n
        invariant
            n == w.steps@.len(),
            i <= n,
            w.name@.len() > 0,
            names_unique(w),
            dependencies_resolve(w),
            forall|a: int| 0 <= a < i ==> registry.knows(#[trigger] w.steps@[a].agent@),
        decreases n - i,
    {
        if !registry.contains(w.steps[i].agent.as_str()) {
            return Err(ValidationFailure::UnknownAgent { step: i });
        }
        i = i + 1;
    }
    if has_circular_dependencies(&adj) {
        return Err(ValidationFailure::CircularDependencies);
    }
    Ok(())
}

/// The error that reports a failed check.
pub fn failure_error(w: &WorkflowDefinition, failure: ValidationFailure) -> (e: AgentError)
    requires
        failure matches ValidationFailure::MissingDependency { step, dependency } ==> step
            < w.steps@.len() && dependency < w.steps@[step as int].dependencies@.len(),
        failure matches ValidationFailure::UnknownAgent { step } ==> step < w.steps@.len(),
    ensures
        e matches AgentError::Configuration(message) && message@ == failure_message(w, failure),
{
    let message = match failure {
        ValidationFailure::EmptyName => "Workflow name cannot be empty".to_owned(),
        ValidationFailure::DuplicateStepNames => "Duplicate step names found".to_owned(),
        ValidationFailure::MissingDependency { step, dependency } => {
            let mut m = "Step '".to_owned();
            m.append(w.steps[step].name.as_str());
            m.append("' depends on non-existent step '");
            m.append(w.steps[step].dependencies[dependency].as_str());
            m.append("'");
            m
        },
        ValidationFailure::UnknownAgent { step } => {
            let mut m = "Agent '".to_owned();
            m.append(w.steps[step].agent.as_str());
            m.append("' not found for step '");
            m.append(w.steps[step].name.as_str());
            m.append("'");
            m
        },
        ValidationFailure::CircularDependencies => "Circular dependencies detected".to_owned(),
    };
    AgentError::Configuration(message)
}

/// Validates a workflow: `Ok` exactly when it passes every check, else the
/// configuration error of the first check that fails.
pub fn validate_workflow(w: &WorkflowDefinition, registry: &AgentRegistry) -> (r: Result<
    (),
    AgentError,
>)
    ensures
        r is Ok <==> workflow_valid(w, registry),
        r is Ok ==> rankable(w),
        r matches Err(e) ==> exists|failure: ValidationFailure|
            fails_with(w, registry, failure) && (e matches AgentError::Configuration(message)
                && message@ == failure_message(w, failure)),
{
    match check_workflow(w, registry) {
        Ok(()) => Ok(()),
        Err(failure) => {
            proof {
                lemma_failure_excludes_validity(w, registry, failure);
            }
            Err(failure_error(w, failure))
        },
    }
}

/// A workflow that fails a check is not valid.
pub proof fn lemma_failure_excludes_validity(
    w: &WorkflowDefinition,
    registry: &AgentRegistry,
    failure: ValidationFailure,
)
    requires
        fails_with(w, registry, failure),
    ensures
        !workflow_valid(w, registry),
{
    match failure {
        ValidationFailure::MissingDependency { step, dependency } => {
            if dependencies_resolve(w) {
                assert(dependency_resolves(w, step as int, dependency as int));
            }
        },
        _ => {},
    }
}

/// Among workflows that pass the other checks, those without a dependency
/// cycle are valid, and those with one fail with the cycle error.
pub proof fn lemma_cycle_decides_validation(w: &WorkflowDefinition, registry: &AgentRegistry)
    requires
        w.name@.len() > 0,
        names_unique(w),
        dependencies_resolve(w),
        agents_known(w, registry),
    ensures
        !has_dependency_cycle(w) ==> workflow_valid(w, registry),
        has_dependency_cycle(w) ==> !workflow_valid(w, registry) && fails_with(
            w,
            registry,
            ValidationFailure::CircularDependencies,
        ),
{
}

/// A step that names itself among its dependencies makes a cycle.
pub proof fn lemma_self_dependency_is_cycle(w: &WorkflowDefinition, i: int, k: int)
    requires
        names_unique(w),
        0 <= i < w.steps@.len(),
        0 <= k < w.steps@[i].dependencies@.len(),
        w.steps@[i].dependencies@[k]@ == w.steps@[i].name@,
    ensures
        has_dependency_cycle(w),
{
    let g = dependency_graph(w);
    let names = step_names(w);
    lemma_position_of(names, names[i]);
    let p = position_of(names, names[i]);
    assert(names[p] == names[i]);
    assert(p == i);
    assert(g[i][k] == i);
    let c = seq![i];
    assert(crate::dag::has_edge(g, c.last(), c[0]));
    assert(crate::dag::is_cycle(g, c));
}

/// A workflow in which two steps share a name is not valid. Where it has
/// a name, the error is that of duplicate step names; and a workflow with
/// distinct step names never fails that check.
pub proof fn lemma_duplicate_names_fail(w: &WorkflowDefinition, registry: &AgentRegistry)
    ensures
        !names_unique(w) ==> !workflow_valid(w, registry),
        !names_unique(w) && w.name@.len() > 0 ==> fails_with(
            w,
            registry,
            ValidationFailure::DuplicateStepNames,
        ),
        names_unique(w) ==> !fails_with(w, registry, ValidationFailure::DuplicateStepNames),
{
}

/// A workflow with distinct step names in which every step depends only
/// on steps that stand before it has a valid shape, and its steps can be
/// ranked by their positions.
pub proof fn lemma_ordered_workflow_is_valid(w: &WorkflowDefinition)
    requires
        names_unique(w),
        forall|i: int, k: int|
            0 <= i < w.steps@.len() && 0 <= k < w.steps@[i].dependencies@.len() ==> exists|j: int|
                0 <= j < i && step_names(w)[j] == #[trigger] dependency_names(w, i)[k],
    ensures
        structure_valid(w),
        rankable(w),
{
    let names = step_names(w);
    let g = dependency_graph(w);
    let rank = Seq::new(w.steps@.len(), |i: int| i as nat);
    assert forall|i: int, k: int|
        0 <= i < w.steps@.len() && 0 <= k < w.steps@[i].dependencies@.len() implies #[trigger] dependency_resolves(
        w,
        i,
        k,
    ) && 0 <= g[i][k] < i by {
        let dep = dependency_names(w, i)[k];
        let j = choose|j: int| 0 <= j < i && step_names(w)[j] == dependency_names(w, i)[k];
        lemma_position_of(names, dep);
        assert(names.contains(dep));
        let p = position_of(names, dep);
        assert(names[p] == names[j]);
        assert(p == j);
    }
    assert forall|i: int, k: int| 0 <= i < g.len() && 0 <= k < g[i].len() implies rank[#[trigger] g[i][k]]
        < rank[i] by {
        assert(dependency_resolves(w, i, k) && 0 <= g[i][k] < i);
    }
    assert(crate::dag::is_ranking(g, rank));
    assert(in_range(g)) by {
        assert forall|i: int, k: int| 0 <= i < g.len() && 0 <= k < g[i].len() implies 0
            <= #[trigger] g[i][k] < g.len() by {
            assert(dependency_resolves(w, i, k) && 0 <= g[i][k] < i);
        }
    }
    crate::dag::lemma_ranking_excludes_cycle(g);
}

/// Only one check is the first that a workflow fails, at only one place.
pub proof fn lemma_failure_unique(
    w: &WorkflowDefinition,
    registry: &AgentRegistry,
    first: ValidationFailure,
    second: ValidationFailure,
)
    requires
        fails_with(w, registry, first),
        fails_with(w, registry, second),
    ensures
        first == second,
{
    match (first, second) {
        (
            ValidationFailure::MissingDependency { step: s1, dependency: d1 },
            ValidationFailure::MissingDependency { step: s2, dependency: d2 },
        ) => {
            if comes_before(s1 as int, d1 as int, s2 as int, d2 as int) {
                assert(dependency_resolves(w, s1 as int, d1 as int));
            }
            if comes_before(s2 as int, d2 as int, s1 as int, d1 as int) {
                assert(dependency_resolves(w, s2 as int, d2 as int));
            }
        },
        (ValidationFailure::MissingDependency { step, dependency }, _) => {
            if dependencies_resolve(w) {
                assert(dependency_resolves(w, step as int, dependency as int));
            }
        },
        (_, ValidationFailure::MissingDependency { step, dependency }) => {
            if dependencies_resolve(w) {
                assert(dependency_resolves(w, step as int, dependency as int));
            }
        },
        (ValidationFailure::UnknownAgent { step: s1 }, ValidationFailure::UnknownAgent { step: s2 }) => {
            if s1 < s2 {
                assert(registry.knows(w.steps@[s1 as int].agent@));
            }
            if s2 < s1 {
                assert(registry.knows(w.steps@[s2 as int].agent@));
            }
        },
        (ValidationFailure::UnknownAgent { step }, _) => {
            if agents_known(w, registry) {
                assert(registry.knows(w.steps@[step as int].agent@));
            }
        },
        (_, ValidationFailure::UnknownAgent { step }) => {
            if agents_known(w, registry) {
                assert(registry.knows(w.steps@[step as int].agent@));
            }
        },
        _ => {},
    }
}

} // verus!
