//! Directed graphs over the indices `0..n`, and the search for a cycle in
//! them.
//!
//! A graph is a sequence of successor lists: `g[i]` holds the nodes that
//! node `i` points to. In a dependency graph these are the nodes that `i`
//! depends on.

use vstd::prelude::*;

verus! {

/// Every successor is a node of the graph.
pub open spec fn in_range(g: Seq<Seq<int>>) -> bool {
    forall|i: int, k: int|
        0 <= i < g.len() && 0 <= k < g[i].len() ==> 0 <= #[trigger] g[i][k] < g.len()
}

/// Whether the graph has an edge from `i` to `j`.
pub open spec fn has_edge(g: Seq<Seq<int>>, i: int, j: int) -> bool {
    0 <= i < g.len() && exists|k: int| 0 <= k < g[i].len() && #[trigger] g[i][k] == j
}

/// Whether `c` is a closed walk: each node points to the next one and the
/// last one points to the first. A node that points to itself is a cycle
/// of length one.
pub open spec fn is_cycle(g: Seq<Seq<int>>, c: Seq<int>) -> bool {
    &&& c.len() > 0
    &&& forall|t: int| 0 <= t < c.len() - 1 ==> has_edge(g, #[trigger] c[t], c[t + 1])
    &&& has_edge(g, c.last(), c[0])
}

/// Whether `p` is a walk: each node points to the next one.
pub open spec fn is_walk(g: Seq<Seq<int>>, p: Seq<int>) -> bool {
    &&& p.len() > 0
    &&& forall|t: int| 0 <= t < p.len() - 1 ==> has_edge(g, #[trigger] p[t], p[t + 1])
}

/// Whether a walk of at least one edge leads from `i` to `j`.
pub open spec fn reaches(g: Seq<Seq<int>>, i: int, j: int) -> bool {
    exists|p: Seq<int>| is_walk(g, p) && p.len() >= 2 && p[0] == i && p.last() == j
}

/// An edge followed by a walk is a walk.
pub proof fn lemma_reaches_step(g: Seq<Seq<int>>, i: int, d: int, j: int)
    requires
        has_edge(g, i, d),
        d == j || reaches(g, d, j),
    ensures
        reaches(g, i, j),
{
    if d == j {
        let p = seq![i, j];
        assert(is_walk(g, p));
        assert(p[0] == i && p.last() == j);
    } else {
        let q = choose|q: Seq<int>| is_walk(g, q) && q.len() >= 2 && q[0] == d && q.last() == j;
        let p = seq![i] + q;
        assert forall|t: int| 0 <= t < p.len() - 1 implies has_edge(g, #[trigger] p[t], p[t + 1]) by {
            if t == 0 {
                assert(p[0] == i && p[1] == q[0]);
            } else {
                assert(p[t] == q[t - 1] && p[t + 1] == q[t - 1 + 1]);
            }
        }
        assert(is_walk(g, p));
        assert(p[0] == i && p.last() == q.last());
    }
}

/// Whether the graph has a cycle.
pub open spec fn has_cycle(g: Seq<Seq<int>>) -> bool {
    exists|c: Seq<int>| is_cycle(g, c)
}

/// Whether `rank` gives every node a number above those of its successors.
pub open spec fn is_ranking(g: Seq<Seq<int>>, rank: Seq<nat>) -> bool {
    &&& rank.len() == g.len()
    &&& forall|i: int, k: int|
        0 <= i < g.len() && 0 <= k < g[i].len() ==> rank[#[trigger] g[i][k]] < rank[i]
}

/// Whether the nodes can be ranked so that every edge leads downwards.
pub open spec fn is_acyclic(g: Seq<Seq<int>>) -> bool {
    exists|rank: Seq<nat>| is_ranking(g, rank)
}

/// The graph that a vector of successor lists stands for.
pub open spec fn graph_view(adj: Seq<Vec<usize>>) -> Seq<Seq<int>> {
    Seq::new(adj.len(), |i: int| Seq::new(adj[i]@.len(), |k: int| adj[i]@[k] as int))
}

/// Along a closed walk the rank would have to fall all the way round.
proof fn lemma_rank_falls_along_cycle(g: Seq<Seq<int>>, rank: Seq<nat>, c: Seq<int>, t: int)
    requires
        in_range(g),
        is_ranking(g, rank),
        is_cycle(g, c),
        0 <= t < c.len(),
    ensures
        0 <= c[t] < g.len(),
        rank[c[t]] + t <= rank[c[0]],
    decreases t,
{
    if t == 0 {
        assert(has_edge(g, c.last(), c[0]));
        if c.len() == 1 {
            assert(c.last() == c[0]);
        } else {
            assert(has_edge(g, c[0], c[1]));
        }
    } else {
        lemma_rank_falls_along_cycle(g, rank, c, t - 1);
        assert(has_edge(g, c[t - 1], c[t - 1 + 1]));
        let k = choose|k: int| 0 <= k < g[c[t - 1]].len() && #[trigger] g[c[t - 1]][k] == c[t];
        assert(rank[g[c[t - 1]][k]] < rank[c[t - 1]]);
    }
}

/// A graph that can be ranked has no cycle.
pub proof fn lemma_ranking_excludes_cycle(g: Seq<Seq<int>>)
    requires
        in_range(g),
        is_acyclic(g),
    ensures
        !has_cycle(g),
{
    if has_cycle(g) {
        let rank = choose|rank: Seq<nat>| is_ranking(g, rank);
        let c = choose|c: Seq<int>| is_cycle(g, c);
        let last = c.len() - 1;
        lemma_rank_falls_along_cycle(g, rank, c, last);
        lemma_rank_falls_along_cycle(g, rank, c, 0);
        assert(has_edge(g, c.last(), c[0]));
        let k = choose|k: int| 0 <= k < g[c[last]].len() && #[trigger] g[c[last]][k] == c[0];
        assert(rank[g[c[last]][k]] < rank[c[last]]);
    }
}

/// Where the search stands with a node.
#[derive(Clone, Copy, Debug, PartialEq, Eq, Structural)]
pub enum Mark {
    /// Not reached yet.
    Unvisited,
    /// Reached, and on the path that the search is walking.
    OnStack,
    /// Left behind, with all that can be reached from it.
    Done,
}

/// The number of nodes that the search has not reached.
pub open spec fn unvisited_count(marks: Seq<Mark>) -> nat
    decreases marks.len(),
{
    if marks.len() == 0 {
        0
    } else {
        unvisited_count(marks.drop_last()) + if marks.last() == Mark::Unvisited {
            1nat
        } else {
            0nat
        }
    }
}

proof fn lemma_unvisited_update(marks: Seq<Mark>, i: int, m: Mark)
    requires
        0 <= i < marks.len(),
        m != Mark::Unvisited,
    ensures
        marks[i] == Mark::Unvisited ==> unvisited_count(marks.update(i, m)) + 1 == unvisited_count(
            marks,
        ),
        marks[i] != Mark::Unvisited ==> unvisited_count(marks.update(i, m)) == unvisited_count(
            marks,
        ),
    decreases marks.len(),
{
    let after = marks.update(i, m);
    if i == marks.len() - 1 {
        assert(after.drop_last() =~= marks.drop_last());
    } else {
        lemma_unvisited_update(marks.drop_last(), i, m);
        assert(after.drop_last() =~= marks.drop_last().update(i, m));
    }
}

/// The nodes on the stack are those of `path`, which is a walk.
spec fn path_ok(g: Seq<Seq<int>>, marks: Seq<Mark>, path: Seq<int>) -> bool {
    &&& forall|t: int|
        0 <= t < path.len() ==> 0 <= #[trigger] path[t] < g.len() && marks[path[t]] == Mark::OnStack
    &&& forall|v: int| 0 <= v < g.len() && #[trigger] marks[v] == Mark::OnStack ==> path.contains(v)
    &&& forall|t: int| 0 <= t < path.len() - 1 ==> has_edge(g, #[trigger] path[t], path[t + 1])
}

/// The nodes that are done are ranked above their successors, which are
/// done too.
spec fn done_ok(g: Seq<Seq<int>>, marks: Seq<Mark>, rank: Seq<nat>, next: nat) -> bool {
    &&& rank.len() == g.len()
    &&& forall|v: int|
        0 <= v < g.len() && #[trigger] marks[v] == Mark::Done ==> rank[v] < next
    &&& forall|v: int, k: int|
        0 <= v < g.len() && marks[v] == Mark::Done && 0 <= k < g[v].len() ==> marks[#[trigger] g[v][k]]
            == Mark::Done && rank[g[v][k]] < rank[v]
}

/// Walks on from `node`, which has not been reached before. Returns whether
/// the walk came back to a node on its own path. Where it did not, `node`
/// and all that it leads to are done and ranked.
fn has_circular_dependencies_helper(
    adj: &Vec<Vec<usize>>,
    node: usize,
    marks: &mut Vec<Mark>,
    Ghost(path): Ghost<Seq<int>>,
    Ghost(rank): Ghost<Seq<nat>>,
    Ghost(next): Ghost<nat>,
) -> (r: (bool, Ghost<Seq<nat>>, Ghost<nat>))
    requires
        in_range(graph_view(adj@)),
        old(marks)@.len() == adj@.len(),
        node < adj@.len(),
        old(marks)@[node as int] == Mark::Unvisited,
        path_ok(graph_view(adj@), old(marks)@, path),
        path.len() > 0 ==> has_edge(graph_view(adj@), path.last(), node as int),
        done_ok(graph_view(adj@), old(marks)@, rank, next),
    ensures
        final(marks)@.len() == adj@.len(),
        r.0 ==> has_cycle(graph_view(adj@)),
        !r.0 ==> {
            &&& final(marks)@[node as int] == Mark::Done
            &&& forall|v: int|
                0 <= v < adj@.len() ==> (old(marks)@[v] == Mark::OnStack <==> #[trigger] final(marks)@[v] == Mark::OnStack)
            &&& forall|v: int|
                0 <= v < adj@.len() && old(marks)@[v] == Mark::Done ==> #[trigger] final(marks)@[v]
                    == Mark::Done && r.1@[v] == rank[v]
            &&& done_ok(graph_view(adj@), final(marks)@, r.1@, r.2@)
            &&& next <= r.2@
            &&& unvisited_count(final(marks)@) < unvisited_count(old(marks)@)
        },
    decreases unvisited_count(old(marks)@),
{
    let ghost g = graph_view(adj@);
    let ghost entry = marks@;
    let ghost walk = path.push(node as int);
    marks.set(node, Mark::OnStack);
    proof {
        lemma_unvisited_update(entry, node as int, Mark::OnStack);
        assert forall|t: int| 0 <= t < walk.len() implies 0 <= #[trigger] walk[t] < g.len()
            && marks@[walk[t]] == Mark::OnStack by {
            if t < path.len() {
                assert(walk[t] == path[t]);
            }
        }
        assert forall|v: int| 0 <= v < g.len() && #[trigger] marks@[v]
            == Mark::OnStack implies walk.contains(v) by {
            if v == node {
                assert(walk[path.len() as int] == v);
            } else {
                assert(entry[v] == Mark::OnStack);
                let t = choose|t: int| 0 <= t < path.len() && path[t] == v;
                assert(walk[t] == v);
            }
        }
        assert forall|t: int| 0 <= t < walk.len() - 1 implies has_edge(
            g,
            #[trigger] walk[t],
            walk[t + 1],
        ) by {
            if t < path.len() - 1 {
                assert(walk[t] == path[t] && walk[t + 1] == path[t + 1]);
            } else {
                assert(walk[t] == path.last());
            }
        }
        assert(path_ok(g, marks@, walk));
        assert(done_ok(g, marks@, rank, next));
    }
    let ghost mut cur_rank = rank;
    let ghost mut cur_next = next;
    let mut k: usize = 0;
    while k < adj[node].len()
        invariant
            g == graph_view(adj@),
            in_range(g),
            marks@.len() == adj@.len(),
            node < adj@.len(),
            k <= adj@[node as int]@.len(),
            walk == path.push(node as int),
            marks@[node as int] == Mark::OnStack,
            path_ok(g, marks@, walk),
            done_ok(g, marks@, cur_rank, cur_next),
            forall|j: int| 0 <= j < k ==> marks@[#[trigger] g[node as int][j]] == Mark::Done,
            forall|v: int|
                0 <= v < adj@.len() && v != node ==> (entry[v] == Mark::OnStack <==> #[trigger] marks@[v]
                    == Mark::OnStack),
            forall|v: int|
                0 <= v < adj@.len() && entry[v] == Mark::Done ==> #[trigger] marks@[v] == Mark::Done
                    && cur_rank[v] == rank[v],
            entry == old(marks)@,
            entry.len() == adj@.len(),
            entry[node as int] == Mark::Unvisited,
            next <= cur_next,
            unvisited_count(marks@) < unvisited_count(entry),
        decreases adj@[node as int]@.len() - k,
    {
        let dep = adj[node][k];
        assert(g[node as int][k as int] == dep);
        assert(dep < adj@.len());
        match marks[dep] {
            Mark::OnStack => {
                proof {
                    let t = choose|t: int| 0 <= t < walk.len() && walk[t] == dep;
                    let c = walk.subrange(t, walk.len() as int);
                    assert forall|s: int| 0 <= s < c.len() - 1 implies has_edge(
                        g,
                        #[trigger] c[s],
                        c[s + 1],
                    ) by {
                        assert(c[s] == walk[t + s] && c[s + 1] == walk[t + s + 1]);
                    }
                    assert(c.last() == node as int);
                    assert(c[0] == dep as int);
                    assert(has_edge(g, node as int, dep as int));
                    assert(is_cycle(g, c));
                }
                return (true, Ghost(cur_rank), Ghost(cur_next));
            },
            Mark::Unvisited => {
                let ghost before = marks@;
                proof {
                    assert(walk.last() == node as int);
                    assert(has_edge(g, walk.last(), dep as int));
                }
                let (found, new_rank, new_next) = has_circular_dependencies_helper(
                    adj,
                    dep,
                    marks,
                    Ghost(walk),
                    Ghost(cur_rank),
                    Ghost(cur_next),
                );
                if found {
                    return (true, new_rank, new_next);
                }
                proof {
                    assert forall|j: int| 0 <= j < k implies marks@[#[trigger] g[node as int][j]]
                        == Mark::Done by {
                        assert(before[g[node as int][j]] == Mark::Done);
                    }
                    assert forall|v: int|
                        0 <= v < adj@.len() && entry[v] == Mark::Done implies #[trigger] marks@[v]
                        == Mark::Done && new_rank@[v] == rank[v] by {
                        assert(before[v] == Mark::Done);
                    }
                    assert forall|v: int| 0 <= v < adj@.len() && v != node implies (entry[v]
                        == Mark::OnStack <==> #[trigger] marks@[v] == Mark::OnStack) by {
                        assert(before[v] == Mark::OnStack <==> marks@[v] == Mark::OnStack);
                    }
                    assert(before[node as int] == Mark::OnStack <==> marks@[node as int]
                        == Mark::OnStack);
                    assert(path_ok(g, marks@, walk)) by {
                        assert forall|t: int| 0 <= t < walk.len() implies 0 <= #[trigger] walk[t]
                            < g.len() && marks@[walk[t]] == Mark::OnStack by {
                            assert(before[walk[t]] == Mark::OnStack);
                        }
                        assert forall|v: int| 0 <= v < g.len() && #[trigger] marks@[v]
                            == Mark::OnStack implies walk.contains(v) by {
                            assert(before[v] == Mark::OnStack);
                        }
                    }
                    cur_rank = new_rank@;
                    cur_next = new_next@;
                }
            },
            Mark::Done => {},
        }
        k = k + 1;
    }
    let ghost before = marks@;
    marks.set(node, Mark::Done);
    proof {
        lemma_unvisited_update(before, node as int, Mark::Done);
        let new_rank = cur_rank.update(node as int, cur_next);
        let new_next = cur_next + 1;
        assert forall|v: int| 0 <= v < g.len() && #[trigger] marks@[v] == Mark::Done implies new_rank[v]
            < new_next by {
            if v != node {
                assert(before[v] == Mark::Done);
            }
        }
        assert forall|v: int, j: int|
            0 <= v < g.len() && marks@[v] == Mark::Done && 0 <= j < g[v].len() implies marks@[#[trigger] g[v][j]]
            == Mark::Done && new_rank[g[v][j]] < new_rank[v] by {
            let x = g[v][j];
            if v == node {
                assert(before[x] == Mark::Done);
                assert(x != node);
                assert(cur_rank[x] < cur_next);
            } else {
                assert(before[v] == Mark::Done);
                assert(before[x] == Mark::Done);
                assert(x != node);
            }
        }
        assert(done_ok(g, marks@, new_rank, new_next));
        assert forall|v: int| 0 <= v < adj@.len() implies (entry[v] == Mark::OnStack <==> #[trigger] marks@[v]
            == Mark::OnStack) by {
            if v != node {
                assert(entry[v] == Mark::OnStack <==> before[v] == Mark::OnStack);
            }
        }
        assert forall|v: int|
            0 <= v < adj@.len() && entry[v] == Mark::Done implies #[trigger] marks@[v] == Mark::Done
            && new_rank[v] == rank[v] by {
            assert(before[v] == Mark::Done);
        }
        cur_rank = new_rank;
        cur_next = new_next;
    }
    (false, Ghost(cur_rank), Ghost(cur_next))
}

/// Whether the graph has a cycle, found by a depth-first walk from every
/// node that an earlier walk has not reached.
pub fn has_circular_dependencies(adj: &Vec<Vec<usize>>) -> (found: bool)
    requires
        in_range(graph_view(adj@)),
    ensures
        found == has_cycle(graph_view(adj@)),
        found == !is_acyclic(graph_view(adj@)),
{
    let ghost g = graph_view(adj@);
    let n = adj.len();
    let mut marks: Vec<Mark> = Vec::new();
    let mut i: usize = 0;
    while i < n
        invariant
            i <= n,
            marks@.len() == i,
            forall|v: int| 0 <= v < i ==> marks@[v] == Mark::Unvisited,
        decreases n - i,
    {
        marks.push(Mark::Unvisited);
        i = i + 1;
    }
    let ghost mut rank: Seq<nat> = Seq::new(n as nat, |v: int| 0nat);
    let ghost mut next: nat = 0;
    let ghost empty: Seq<int> = Seq::empty();
    proof {
        assert(path_ok(g, marks@, empty));
        assert(done_ok(g, marks@, rank, next));
    }
    let mut node: usize = 0;
    while node < n
        invariant
            n == adj@.len(),
            g == graph_view(adj@),
            in_range(g),
            node <= n,
            marks@.len() == n,
            empty.len() == 0,
            path_ok(g, marks@, empty),
            done_ok(g, marks@, rank, next),
            forall|v: int| 0 <= v < node ==> marks@[v] == Mark::Done,
        decreases n - node,
    {
        match marks[node] {
            Mark::Unvisited => {
                let ghost before = marks@;
                let (found, new_rank, new_next) = has_circular_dependencies_helper(
                    adj,
                    node,
                    &mut marks,
                    Ghost(empty),
                    Ghost(rank),
                    Ghost(next),
                );
                if found {
                    proof {
                        if is_acyclic(g) {
                            lemma_ranking_excludes_cycle(g);
                        }
                    }
                    return true;
                }
                proof {
                    assert forall|v: int| 0 <= v < node implies marks@[v] == Mark::Done by {
                        assert(before[v] == Mark::Done);
                    }
                    assert(path_ok(g, marks@, empty)) by {
                        assert forall|v: int| 0 <= v < g.len() implies #[trigger] marks@[v]
                            != Mark::OnStack by {
                            if before[v] == Mark::OnStack {
                                assert(empty.contains(v));
                            }
                        }
                    }
                    rank = new_rank@;
                    next = new_next@;
                }
            },
            Mark::OnStack => {
                proof {
                    assert(empty.contains(node as int));
                }
            },
            Mark::Done => {},
        }
        node = node + 1;
    }
    proof {
        assert(is_ranking(g, rank)) by {
            assert forall|v: int, k: int| 0 <= v < g.len() && 0 <= k < g[v].len() implies rank[#[trigger] g[v][k]]
                < rank[v] by {
                assert(marks@[v] == Mark::Done);
            }
        }
        lemma_ranking_excludes_cycle(g);
    }
    false
}

} // verus!
