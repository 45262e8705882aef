//! Cycle detection over the node dependencies of a graph.

use super::graph::{Node, NodeSpec};
use crate::text::concat;
use vstd::prelude::*;

verus! {

/// Whether node `n` produces the value `name` (an empty name is no value).
pub open spec fn produces(n: NodeSpec, name: Seq<char>) -> bool {
    name.len() > 0 && n.outputs.contains(name)
}

/// The first node that produces `name`.
#[verifier::opaque]
pub open spec fn producer(nodes: Seq<NodeSpec>, name: Seq<char>) -> Option<int> {
    if exists|i: int| 0 <= i < nodes.len() && produces(nodes[i], name) {
        Some(
            choose|i: int|
                0 <= i < nodes.len() && produces(nodes[i], name) && forall|j: int|
                    0 <= j < i ==> !produces(#[trigger] nodes[j], name),
        )
    } else {
        None
    }
}

/// The dependencies read from a list of input names of node `i`: for each
/// input in order, the first producer of it, unless it is node `i` itself.
pub open spec fn deps_of_inputs(nodes: Seq<NodeSpec>, i: int, inputs: Seq<Seq<char>>) -> Seq<int>
    decreases inputs.len(),
{
    if inputs.len() == 0 {
        Seq::empty()
    } else {
        let prev = deps_of_inputs(nodes, i, inputs.drop_last());
        let inp = inputs.last();
        if inp.len() > 0 && producer(nodes, inp) is Some && producer(nodes, inp)->0 != i {
            prev.push(producer(nodes, inp)->0)
        } else {
            prev
        }
    }
}

/// The nodes that node `i` depends on, in the order of its inputs.
pub open spec fn deps(nodes: Seq<NodeSpec>, i: int) -> Seq<int> {
    deps_of_inputs(nodes, i, nodes[i].inputs)
}

/// Whether `c` is a closed walk of length at least one along dependencies.
pub open spec fn is_dep_cycle(nodes: Seq<NodeSpec>, c: Seq<int>) -> bool {
    &&& c.len() >= 2
    &&& c[0] == c.last()
    &&& forall|k: int| 0 <= k < c.len() ==> 0 <= #[trigger] c[k] < nodes.len()
    &&& forall|k: int| 0 <= k < c.len() - 1 ==> deps(nodes, #[trigger] c[k]).contains(c[k + 1])
}

/// Whether the node dependencies of a graph contain a cycle.
pub open spec fn has_dep_cycle(nodes: Seq<NodeSpec>) -> bool {
    exists|c: Seq<int>| is_dep_cycle(nodes, c)
}

/// The first producer of a value produces it, and no node before it does.
pub proof fn lemma_producer(nodes: Seq<NodeSpec>, name: Seq<char>)
    ensures
        producer(nodes, name) matches Some(p) ==> {
            &&& 0 <= p < nodes.len()
            &&& produces(nodes[p], name)
            &&& forall|j: int| 0 <= j < p ==> !produces(#[trigger] nodes[j], name)
        },
        producer(nodes, name) is None ==> forall|j: int|
            0 <= j < nodes.len() ==> !produces(#[trigger] nodes[j], name),
{
    reveal(producer);
    if exists|i: int| 0 <= i < nodes.len() && produces(nodes[i], name) {
        let i = choose|i: int| 0 <= i < nodes.len() && produces(nodes[i], name);
        lemma_first_producer_exists(nodes, name, i);
    }
}

/// A value that some node produces has a first producer.
proof fn lemma_first_producer_exists(nodes: Seq<NodeSpec>, name: Seq<char>, i: int)
    requires
        0 <= i < nodes.len(),
        produces(nodes[i], name),
    ensures
        exists|p: int|
            0 <= p < nodes.len() && produces(nodes[p], name) && forall|j: int|
                0 <= j < p ==> !produces(#[trigger] nodes[j], name),
    decreases i,
{
    if exists|j: int| 0 <= j < i && produces(nodes[j], name) {
        let j = choose|j: int| 0 <= j < i && produces(nodes[j], name);
        lemma_first_producer_exists(nodes, name, j);
    } else {
        assert(forall|j: int| 0 <= j < i ==> !produces(#[trigger] nodes[j], name));
    }
}

/// No node depends on itself.
proof fn lemma_deps_of_inputs_exclude(nodes: Seq<NodeSpec>, i: int, inputs: Seq<Seq<char>>)
    ensures
        !deps_of_inputs(nodes, i, inputs).contains(i),
    decreases inputs.len(),
{
    if inputs.len() > 0 {
        lemma_deps_of_inputs_exclude(nodes, i, inputs.drop_last());
        let prev = deps_of_inputs(nodes, i, inputs.drop_last());
        let inp = inputs.last();
        if inp.len() > 0 && producer(nodes, inp) is Some && producer(nodes, inp)->0 != i {
            vstd::seq_lib::lemma_seq_contains_after_push(prev, producer(nodes, inp)->0, i);
        }
    }
}

/// A dependency cycle visits at least two nodes: no node depends on itself.
pub proof fn lemma_dep_cycle_len(nodes: Seq<NodeSpec>, c: Seq<int>)
    requires
        is_dep_cycle(nodes, c),
    ensures
        c.len() >= 3,
{
    if c.len() == 2 {
        lemma_deps_of_inputs_exclude(nodes, c[0], nodes[c[0]].inputs);
        assert(deps(nodes, c[0]).contains(c[1]));
    }
}

/// A reported cycle path names at least three nodes and ends where it
/// starts: the labels of a dependency cycle.
pub proof fn lemma_cycle_path(nodes: Seq<NodeSpec>, path: Seq<Seq<char>>)
    requires
        exists|c: Seq<int>|
            #[trigger] is_dep_cycle(nodes, c) && path == c.map_values(
                |u: int| node_label_spec(nodes[u]),
            ),
    ensures
        path.len() >= 3,
        path[0] == path[path.len() - 1],
{
    let c = choose|c: Seq<int>|
        #[trigger] is_dep_cycle(nodes, c) && path == c.map_values(
            |u: int| node_label_spec(nodes[u]),
        );
    lemma_dep_cycle_len(nodes, c);
    assert(c[0] == c[c.len() - 1]);
}

/// Joins strings with a separator.
pub open spec fn join(parts: Seq<Seq<char>>, sep: Seq<char>) -> Seq<char>
    decreases parts.len(),
{
    if parts.len() == 0 {
        Seq::empty()
    } else if parts.len() == 1 {
        parts[0]
    } else {
        join(parts.drop_last(), sep) + sep + parts.last()
    }
}

/// How a node is named in a cycle report: its name, or `op(outputs)`.
pub open spec fn node_label_spec(n: NodeSpec) -> Seq<char> {
    match n.name {
        Some(name) => name,
        None => n.op_type + "("@ + join(n.outputs, ","@) + ")"@,
    }
}

/// Joins strings with a separator.
pub fn join_strings(parts: &Vec<String>, sep: &str) -> (r: String)
    ensures
        r@ == join(parts.deep_view(), sep@),
{
    let mut r = String::new();
    let mut i: usize = 0;
    while i < parts.len()
        invariant
            0 <= i <= parts.len(),
            r@ == join(parts.deep_view().take(i as int), sep@),
        decreases parts.len() - i,
    {
        proof {
            assert(parts.deep_view().take(i + 1).drop_last() =~= parts.deep_view().take(i as int));
        }
        if i == 0 {
            r = parts[i].clone();
            proof {
                assert(parts.deep_view().take(1) =~= seq![parts[0]@]);
            }
        } else {
            let with_sep = concat(r.as_str(), sep);
            r = concat(with_sep.as_str(), parts[i].as_str());
        }
        i = i + 1;
    }
    proof {
        assert(parts.deep_view().take(i as int) =~= parts.deep_view());
    }
    r
}

/// How a node is named in a cycle report.
pub fn node_label(node: &Node) -> (r: String)
    ensures
        r@ == node_label_spec(node.deep_view()),
{
    match &node.name {
        Some(name) => name.clone(),
        None => {
            let a = concat(node.op_type.as_str(), "(");
            let outs = join_strings(&node.outputs, ",");
            let b = concat(a.as_str(), outs.as_str());
            concat(b.as_str(), ")")
        },
    }
}

/// The first node that produces `name`.
fn find_producer(nodes: &Vec<Node>, name: &String) -> (r: Option<usize>)
    requires
        name@.len() > 0,
    ensures
        r matches Some(j) ==> j < nodes.len() && producer(nodes.deep_view(), name@) == Some(j as int),
        r is None ==> producer(nodes.deep_view(), name@) is None,
{
    reveal(producer);
    let ghost ns = nodes.deep_view();
    let mut i: usize = 0;
    while i < nodes.len()
        invariant
            0 <= i <= nodes.len(),
            ns == nodes.deep_view(),
            name@.len() > 0,
            forall|j: int| 0 <= j < i ==> !produces(#[trigger] ns[j], name@),
        decreases nodes.len() - i,
    {
        let outs = &nodes[i].outputs;
        let mut k: usize = 0;
        while k < outs.len()
            invariant
                0 <= k <= outs.len(),
                0 <= i < nodes.len(),
                ns == nodes.deep_view(),
                ns.len() == nodes.len(),
                name@.len() > 0,
                forall|j: int| 0 <= j < i ==> !produces(#[trigger] ns[j], name@),
                outs.deep_view() == ns[i as int].outputs,
                forall|m: int| 0 <= m < k ==> outs.deep_view()[m] != name@,
            decreases outs.len() - k,
        {
            if outs[k] == *name {
                proof {
                    reveal(producer);
                    assert(ns[i as int].outputs[k as int] == name@);
                    assert(produces(ns[i as int], name@));
                    assert(0 <= i < ns.len() && produces(ns[i as int], name@) && forall|j: int|
                        0 <= j < i ==> !produces(#[trigger] ns[j], name@));
                    let c = choose|c: int|
                        0 <= c < ns.len() && produces(ns[c], name@) && forall|j: int|
                            0 <= j < c ==> !produces(#[trigger] ns[j], name@);
                    if c < i {
                    } else if c > i {
                        assert(!produces(ns[i as int], name@));
                    }
                }
                return Some(i);
            }
            k = k + 1;
        }
        proof {
            assert(!ns[i as int].outputs.contains(name@));
        }
        i = i + 1;
    }
    None
}

/// A sequence of indices, as integers.
pub open spec fn as_ints(s: Seq<usize>) -> Seq<int> {
    s.map_values(|x: usize| x as int)
}

/// The dependency lists of all nodes.
fn build_deps(nodes: &Vec<Node>) -> (d: Vec<Vec<usize>>)
    ensures
        d.len() == nodes.len(),
        forall|u: int| 0 <= u < d.len() ==> as_ints(#[trigger] d[u]@) == deps(nodes.deep_view(), u),
        forall|u: int, k: int|
            0 <= u < d.len() && 0 <= k < d[u]@.len() ==> #[trigger] d[u]@[k] < nodes.len(),
{
    let ghost ns = nodes.deep_view();
    let mut d: Vec<Vec<usize>> = Vec::with_capacity(nodes.len());
    let mut i: usize = 0;
    while i < nodes.len()
        invariant
            0 <= i <= nodes.len(),
            ns == nodes.deep_view(),
            d.len() == i,
            forall|u: int| 0 <= u < d.len() ==> as_ints(#[trigger] d[u]@) == deps(ns, u),
            forall|u: int, k: int|
                0 <= u < d.len() && 0 <= k < d[u]@.len() ==> #[trigger] d[u]@[k] < nodes.len(),
        decreases nodes.len() - i,
    {
        let ins = &nodes[i].inputs;
        let mut row: Vec<usize> = Vec::new();
        let mut k: usize = 0;
        while k < ins.len()
            invariant
                0 <= k <= ins.len(),
                ins.deep_view() == ns[i as int].inputs,
                i < nodes.len(),
                ns == nodes.deep_view(),
                as_ints(row@) == deps_of_inputs(ns, i as int, ins.deep_view().take(k as int)),
                forall|m: int| 0 <= m < row@.len() ==> #[trigger] row@[m] < nodes.len(),
            decreases ins.len() - k,
        {
            proof {
                assert(ins.deep_view().take(k + 1).drop_last() =~= ins.deep_view().take(k as int));
                assert(ins.deep_view().take(k + 1).last() == ins[k as int]@);
            }
            let ghost before = row@;
            if !ins[k].as_str().is_empty() {
                match find_producer(nodes, &ins[k]) {
                    Some(j) => {
                        if j != i {
                            row.push(j);
                            proof {
                                assert(as_ints(row@) =~= as_ints(before).push(j as int));
                            }
                        }
                    },
                    None => {},
                }
            }
            k = k + 1;
        }
        proof {
            assert(ins.deep_view().take(k as int) =~= ins.deep_view());
        }
        d.push(row);
        i = i + 1;
    }
    d
}

/// How many nodes in the first `k` entries of `color` are not finished.
pub open spec fn unfinished(color: Seq<u8>, k: int) -> nat
    decreases k,
{
    if k <= 0 {
        0
    } else {
        unfinished(color, k - 1) + (if color[k - 1] != 2 {
            1nat
        } else {
            0nat
        })
    }
}

/// How many dependency edges of the first `k` nodes are still to be followed.
pub open spec fn unvisited(d: Seq<Seq<usize>>, pos: Seq<usize>, k: int) -> int
    decreases k,
{
    if k <= 0 {
        0
    } else {
        unvisited(d, pos, k - 1) + (d[k - 1].len() - pos[k - 1])
    }
}

pub proof fn lemma_unfinished_update(color: Seq<u8>, i: int, c: u8, k: int)
    requires
        0 <= i < color.len(),
        0 <= k <= color.len(),
    ensures
        unfinished(color.update(i, c), k) == unfinished(color, k) + (if i < k {
            (if c != 2 {
                1int
            } else {
                0int
            }) - (if color[i] != 2 {
                1int
            } else {
                0int
            })
        } else {
            0int
        }),
    decreases k,
{
    if k > 0 {
        lemma_unfinished_update(color, i, c, k - 1);
    }
}

pub proof fn lemma_unvisited_update(d: Seq<Seq<usize>>, pos: Seq<usize>, i: int, v: usize, k: int)
    requires
        0 <= i < pos.len(),
        0 <= k <= pos.len(),
    ensures
        unvisited(d, pos.update(i, v), k) == unvisited(d, pos, k) + (if i < k {
            pos[i] - v
        } else {
            0int
        }),
    decreases k,
{
    if k > 0 {
        lemma_unvisited_update(d, pos, i, v, k - 1);
    }
}

pub proof fn lemma_unvisited_nonneg(d: Seq<Seq<usize>>, pos: Seq<usize>, k: int)
    requires
        0 <= k <= pos.len(),
        k <= d.len(),
        forall|u: int| 0 <= u < k ==> pos[u] <= #[trigger] d[u].len(),
    ensures
        unvisited(d, pos, k) >= 0,
    decreases k,
{
    if k > 0 {
        lemma_unvisited_nonneg(d, pos, k - 1);
    }
}

/// Along a walk in which every step goes to a node finished earlier, the
/// last node was finished before the first.
proof fn lemma_walk_finish_decreases(d: Seq<Seq<usize>>, fin: Seq<int>, c: Seq<int>, m: int)
    requires
        1 <= m < c.len(),
        forall|k: int| 0 <= k < c.len() ==> 0 <= #[trigger] c[k] < d.len(),
        forall|k: int| 0 <= k < m ==> as_ints(d[#[trigger] c[k]]).contains(c[k + 1]),
        forall|u: int, x: int|
            0 <= u < d.len() && 0 <= x < d[u].len() ==> fin[#[trigger] d[u][x] as int] < fin[u],
    ensures
        fin[c[m]] < fin[c[0]],
    decreases m,
{
    let k = m - 1;
    assert(as_ints(d[c[k]]).contains(c[k + 1]));
    let x = choose|x: int| 0 <= x < as_ints(d[c[k]]).len() && as_ints(d[c[k]])[x] == c[k + 1];
    assert(d[c[k]][x] as int == c[m]);
    if m > 1 {
        lemma_walk_finish_decreases(d, fin, c, m - 1);
    }
}

/// A point of the depth-first search for a dependency cycle: the next node
/// to start from, the path being followed, each node's colour (0 not yet
/// seen, 1 on the path, 2 finished) and how many of each node's
/// dependencies were followed.
pub struct DfsState {
    pub start: int,
    pub stack: Seq<usize>,
    pub color: Seq<u8>,
    pub pos: Seq<usize>,
}

/// Whether a search point is consistent with the dependency lists `d`.
pub open spec fn dfs_wf(d: Seq<Seq<usize>>, st: DfsState) -> bool {
    &&& d.len() <= usize::MAX
    &&& 0 <= st.start <= d.len()
    &&& st.color.len() == d.len()
    &&& st.pos.len() == d.len()
    &&& forall|u: int, k: int| 0 <= u < d.len() && 0 <= k < d[u].len() ==> #[trigger] d[u][k] < d.len()
    &&& forall|u: int| 0 <= u < d.len() ==> #[trigger] st.color[u] <= 2
    &&& forall|u: int| 0 <= u < d.len() ==> #[trigger] st.pos[u] <= d[u].len()
    &&& forall|u: int| 0 <= u < d.len() ==> #[trigger] d[u].len() <= usize::MAX
    &&& forall|p: int|
        0 <= p < st.stack.len() ==> #[trigger] st.stack[p] < d.len() && st.color[st.stack[p] as int]
            == 1
    &&& forall|p: int, q: int|
        0 <= p < q < st.stack.len() ==> #[trigger] st.stack[p] != #[trigger] st.stack[q]
}

/// The last position of `x` in `s`.
pub open spec fn last_index(s: Seq<usize>, x: usize) -> int
    decreases s.len(),
{
    if s.len() == 0 {
        0
    } else if s.last() == x {
        s.len() - 1
    } else {
        last_index(s.drop_last(), x)
    }
}

/// The cycle that the depth-first search finds from a search point: it
/// follows the dependencies of the node on top of the path in order, adds
/// an unseen node to the path, and reports the path from a node already on
/// it back to that node; a node whose dependencies are all followed is
/// finished; with the path empty, the search starts from the next unseen
/// node in node order.
#[verifier::opaque]
pub open spec fn dfs_run(d: Seq<Seq<usize>>, st: DfsState) -> Option<Seq<int>>
    decreases d.len() - st.start, unfinished(st.color, d.len() as int), unvisited(
        d,
        st.pos,
        d.len() as int,
    ), (if st.stack.len() == 0 {
        1int
    } else {
        0int
    }),
    when dfs_wf(d, st)
{
    let n = d.len() as int;
    if st.stack.len() == 0 {
        if st.start >= n {
            None
        } else if st.color[st.start] != 0 {
            dfs_run(d, DfsState { start: st.start + 1, ..st })
        } else {
            proof {
                lemma_unfinished_update(st.color, st.start, 1u8, n);
            }
            dfs_run(
                d,
                DfsState {
                    stack: seq![st.start as usize],
                    color: st.color.update(st.start, 1u8),
                    ..st
                },
            )
        }
    } else {
        let cur = st.stack.last() as int;
        proof {
            assert(st.stack[st.stack.len() - 1] < n);
        }
        if st.pos[cur] < d[cur].len() {
            let next = d[cur][st.pos[cur] as int];
            let pos = st.pos.update(cur, (st.pos[cur] + 1) as usize);
            proof {
                assert(d[cur].len() <= usize::MAX);
                lemma_unvisited_update(d, st.pos, cur, (st.pos[cur] + 1) as usize, n);
                assert forall|u: int| 0 <= u < n implies pos[u] <= #[trigger] d[u].len() by {
                    if u != cur {
                        assert(pos[u] == st.pos[u]);
                    }
                }
                lemma_unvisited_nonneg(d, pos, n);
            }
            if st.color[next as int] == 1 {
                Some(
                    as_ints(st.stack.subrange(last_index(st.stack, next), st.stack.len() as int)).push(
                        next as int,
                    ),
                )
            } else if st.color[next as int] == 0 {
                proof {
                    lemma_unfinished_update(st.color, next as int, 1u8, n);
                }
                dfs_run(
                    d,
                    DfsState {
                        stack: st.stack.push(next),
                        color: st.color.update(next as int, 1u8),
                        pos,
                        ..st
                    },
                )
            } else {
                dfs_run(d, DfsState { pos, ..st })
            }
        } else {
            proof {
                lemma_unfinished_update(st.color, cur, 2u8, n);
            }
            dfs_run(
                d,
                DfsState { stack: st.stack.drop_last(), color: st.color.update(cur, 2u8), ..st },
            )
        }
    }
}

/// A search point.
pub open spec fn point(start: int, stack: Seq<usize>, color: Seq<u8>, pos: Seq<usize>) -> DfsState {
    DfsState { start, stack, color, pos }
}

/// The dependency lists of the nodes, as node positions.
pub open spec fn dep_table(nodes: Seq<NodeSpec>) -> Seq<Seq<usize>> {
    Seq::new(nodes.len(), |u: int| deps(nodes, u).map_values(|x: int| x as usize))
}

/// The cycle that the depth-first search over the nodes in order finds,
/// if any, as node positions, the first repeated at the end.
pub open spec fn dfs_cycle(nodes: Seq<NodeSpec>) -> Option<Seq<int>> {
    dfs_run(
        dep_table(nodes),
        DfsState {
            start: 0,
            stack: Seq::empty(),
            color: Seq::new(nodes.len(), |i: int| 0u8),
            pos: Seq::new(nodes.len(), |i: int| 0usize),
        },
    )
}

/// One step of the search from a point whose path is empty.
pub proof fn lemma_dfs_step_empty(d: Seq<Seq<usize>>, st: DfsState)
    requires
        dfs_wf(d, st),
        st.stack.len() == 0,
        st.start < d.len(),
    ensures
        st.color[st.start] != 0 ==> dfs_run(d, st) == dfs_run(
            d,
            point(st.start + 1, st.stack, st.color, st.pos),
        ),
        st.color[st.start] == 0 ==> dfs_run(d, st) == dfs_run(
            d,
            point(st.start, seq![st.start as usize], st.color.update(st.start, 1u8), st.pos),
        ),
{
    reveal(dfs_run);
    if st.color[st.start] == 0 {
        let next = DfsState {
            stack: seq![st.start as usize],
            color: st.color.update(st.start, 1u8),
            ..st
        };
        assert(next.stack[0] == st.start as usize);
        assert(dfs_wf(d, next));
        assert(dfs_run(d, st) == dfs_run(d, next));
        assert(next == point(st.start, seq![st.start as usize], st.color.update(st.start, 1u8), st.pos));
    }
}

/// One step of the search that follows the next dependency of the node on
/// top of the path.
pub proof fn lemma_dfs_step_edge(d: Seq<Seq<usize>>, st: DfsState)
    requires
        dfs_wf(d, st),
        st.stack.len() > 0,
        st.pos[st.stack.last() as int] < d[st.stack.last() as int].len(),
    ensures
        ({
            let cur = st.stack.last() as int;
            let next = d[cur][st.pos[cur] as int];
            let pos = st.pos.update(cur, (st.pos[cur] + 1) as usize);
            &&& st.color[next as int] == 1 ==> dfs_run(d, st) == Some(
                as_ints(st.stack.subrange(last_index(st.stack, next), st.stack.len() as int)).push(
                    next as int,
                ),
            )
            &&& st.color[next as int] == 0 ==> dfs_run(d, st) == dfs_run(
                d,
                point(st.start, st.stack.push(next), st.color.update(next as int, 1u8), pos),
            )
            &&& st.color[next as int] == 2 ==> dfs_run(d, st) == dfs_run(
                d,
                point(st.start, st.stack, st.color, pos),
            )
        }),
{
    reveal(dfs_run);
}

/// One step of the search that finishes the node on top of the path.
pub proof fn lemma_dfs_step_pop(d: Seq<Seq<usize>>, st: DfsState)
    requires
        dfs_wf(d, st),
        st.stack.len() > 0,
        st.pos[st.stack.last() as int] >= d[st.stack.last() as int].len(),
    ensures
        dfs_run(d, st) == dfs_run(
            d,
            point(
                st.start,
                st.stack.drop_last(),
                st.color.update(st.stack.last() as int, 2u8),
                st.pos,
            ),
        ),
{
    reveal(dfs_run);
    let cur = st.stack.last() as int;
    let next = DfsState { stack: st.stack.drop_last(), color: st.color.update(cur, 2u8), ..st };
    assert forall|p: int| 0 <= p < next.stack.len() implies #[trigger] next.stack[p] < d.len()
        && next.color[next.stack[p] as int] == 1 by {
        assert(next.stack[p] == st.stack[p]);
        assert(st.stack[p] != st.stack[st.stack.len() - 1]);
    }
    assert(dfs_wf(d, next));
    assert(dfs_run(d, st) == dfs_run(d, next));
}

/// The search from a point with an empty path and no node left to start
/// from finds nothing.
pub proof fn lemma_dfs_done(d: Seq<Seq<usize>>, st: DfsState)
    requires
        dfs_wf(d, st),
        st.stack.len() == 0,
        st.start >= d.len(),
    ensures
        dfs_run(d, st) is None,
{
    reveal(dfs_run);
}

/// The last position of `x` in `s`, when it is found at `p` and not after.
proof fn lemma_last_index(s: Seq<usize>, x: usize, p: int)
    requires
        0 <= p < s.len(),
        s[p] == x,
        forall|q: int| p < q < s.len() ==> s[q] != x,
    ensures
        last_index(s, x) == p,
    decreases s.len(),
{
    if s.len() - 1 != p {
        assert(s.last() != x);
        lemma_last_index(s.drop_last(), x, p);
    }
}

/// Looks for a cycle among the node dependencies and reports one by the
/// labels of its nodes, the first repeated at the end.
#[verifier::rlimit(100)]
pub fn detect_cycle(nodes: &Vec<Node>) -> (r: Option<Vec<String>>)
    ensures
        r is None <==> !has_dep_cycle(nodes.deep_view()),
        r matches Some(path) ==> exists|c: Seq<int>|
            #[trigger] is_dep_cycle(nodes.deep_view(), c) && path.deep_view() == c.map_values(
                |u: int| node_label_spec(nodes.deep_view()[u]),
            ),
        r is None <==> dfs_cycle(nodes.deep_view()) is None,
        r matches Some(path) ==> (dfs_cycle(nodes.deep_view()) matches Some(c) && path.deep_view()
            == c.map_values(|u: int| node_label_spec(nodes.deep_view()[u]))),
{
    let ghost ns = nodes.deep_view();
    let n = nodes.len();
    if n == 0 {
        proof {
            assert forall|c: Seq<int>| !is_dep_cycle(ns, c) by {
                if c.len() >= 2 {
                    assert(!(0 <= c[0] < ns.len()));
                }
            }
            let st0 = point(0, Seq::empty(), Seq::new(0, |i: int| 0u8), Seq::new(0, |i: int| 0usize));
            assert(dep_table(ns) =~= Seq::<Seq<usize>>::empty());
            assert(dfs_wf(dep_table(ns), st0));
            lemma_dfs_done(dep_table(ns), st0);
            assert(st0.color =~= Seq::new(ns.len(), |i: int| 0u8));
            assert(st0.pos =~= Seq::new(ns.len(), |i: int| 0usize));
        }
        return None;
    }
    let dep_lists = build_deps(nodes);
    let ghost dv: Seq<Seq<usize>> = dep_lists@.map_values(|v: Vec<usize>| v@);
    proof {
        assert forall|u: int| 0 <= u < n implies #[trigger] dv[u] == dep_table(ns)[u] by {
            assert(as_ints(dep_lists@[u]@) == deps(ns, u));
            assert(dv[u] =~= deps(ns, u).map_values(|x: int| x as usize));
        }
        assert(dv =~= dep_table(ns));
        assert forall|u: int| 0 <= u < n implies #[trigger] dv[u].len() <= usize::MAX by {
            assert(dv[u].len() == dep_lists@[u].len());
        }
    }
    let mut color: Vec<u8> = Vec::with_capacity(n);
    let mut iter_pos: Vec<usize> = Vec::with_capacity(n);
    let mut f: usize = 0;
    while f < n
        invariant
            0 <= f <= n,
            color.len() == f,
            iter_pos.len() == f,
            forall|u: int| 0 <= u < f ==> color@[u] == 0 && iter_pos@[u] == 0,
        decreases n - f,
    {
        color.push(0);
        iter_pos.push(0);
        f = f + 1;
    }
    let mut stack: Vec<usize> = Vec::new();
    proof {
        assert(color@ =~= Seq::new(n as nat, |i: int| 0u8));
        assert(iter_pos@ =~= Seq::new(n as nat, |i: int| 0usize));
    }
    let ghost mut fin: Seq<int> = Seq::new(n as nat, |i: int| 0int);
    let ghost mut time: int = 0;
    let mut start: usize = 0;
    while start < n
        invariant
            0 <= start <= n,
            n == nodes.len(),
            ns == nodes.deep_view(),
            dep_lists.len() == n,
            dv == dep_lists@.map_values(|v: Vec<usize>| v@),
            forall|u: int| 0 <= u < n ==> as_ints(#[trigger] dv[u]) == deps(ns, u),
            forall|u: int, k: int| 0 <= u < n && 0 <= k < dv[u].len() ==> #[trigger] dv[u][k] < n,
            color.len() == n,
            iter_pos.len() == n,
            fin.len() == n,
            stack@.len() == 0,
            dv == dep_table(ns),
            forall|u: int| 0 <= u < n ==> #[trigger] dv[u].len() <= usize::MAX,
            dfs_run(dv, point(start as int, stack@, color@, iter_pos@)) == dfs_cycle(ns),
            forall|u: int| 0 <= u < n ==> #[trigger] color@[u] == 0 || color@[u] == 2,
            forall|u: int| 0 <= u < start ==> #[trigger] color@[u] == 2,
            forall|u: int| 0 <= u < n && color@[u] == 0 ==> #[trigger] iter_pos@[u] == 0,
            forall|u: int| 0 <= u < n ==> #[trigger] iter_pos@[u] <= dv[u].len(),
            forall|u: int|
                0 <= u < n && #[trigger] color@[u] == 2 ==> fin[u] < time && forall|k: int|
                    0 <= k < dv[u].len() ==> color@[#[trigger] dv[u][k] as int] == 2 && fin[dv[u][k] as int]
                        < fin[u],
        decreases n - start,
    {
        let ghost st_b = point(start as int, stack@, color@, iter_pos@);
        proof {
            assert(dfs_wf(dv, st_b));
        }
        if color[start] != 0 {
            proof {
                lemma_dfs_step_empty(dv, st_b);
            }
            start = start + 1;
            continue;
        }
        stack.push(start);
        color.set(start, 1);
        proof {
            assert(stack@ =~= seq![start]);
            lemma_dfs_step_empty(dv, st_b);
            assert(stack@[0] == start);
            assert forall|u: int| 0 <= u < n && #[trigger] color@[u] == 1 implies stack@.contains(
                u as usize,
            ) by {
                assert(u == start);
            }
        }
        while stack.len() > 0
            invariant
                0 <= start < n,
                n == nodes.len(),
                ns == nodes.deep_view(),
                dep_lists.len() == n,
                dv == dep_lists@.map_values(|v: Vec<usize>| v@),
                forall|u: int| 0 <= u < n ==> as_ints(#[trigger] dv[u]) == deps(ns, u),
                forall|u: int, k: int|
                    0 <= u < n && 0 <= k < dv[u].len() ==> #[trigger] dv[u][k] < n,
                color.len() == n,
                iter_pos.len() == n,
                fin.len() == n,
                color@[start as int] != 0,
                forall|u: int| 0 <= u < n ==> #[trigger] color@[u] <= 2,
                forall|u: int| 0 <= u < start ==> #[trigger] color@[u] == 2,
                forall|u: int| 0 <= u < n && color@[u] == 0 ==> #[trigger] iter_pos@[u] == 0,
                forall|u: int| 0 <= u < n ==> #[trigger] iter_pos@[u] <= dv[u].len(),
                forall|p: int|
                    0 <= p < stack@.len() ==> #[trigger] stack@[p] < n && color@[stack@[p] as int]
                        == 1,
                forall|p: int, q: int|
                    0 <= p < q < stack@.len() ==> #[trigger] stack@[p] != #[trigger] stack@[q],
                forall|u: int| 0 <= u < n && #[trigger] color@[u] == 1 ==> stack@.contains(u as usize),
                forall|p: int|
                    0 <= p < stack@.len() - 1 ==> iter_pos@[#[trigger] stack@[p] as int] >= 1
                        && dv[stack@[p] as int][iter_pos@[stack@[p] as int] - 1] == stack@[p + 1],
                forall|p: int, k: int|
                    #![trigger dv[stack@[p] as int][k]]
                    0 <= p < stack@.len() && 0 <= k < iter_pos@[stack@[p] as int] && (p
                        == stack@.len() - 1 || k < iter_pos@[stack@[p] as int] - 1) ==> color@[dv[stack@[p] as int][k] as int] == 2,
                forall|u: int|
                    0 <= u < n && #[trigger] color@[u] == 2 ==> fin[u] < time && forall|k: int|
                        0 <= k < dv[u].len() ==> color@[#[trigger] dv[u][k] as int] == 2 && fin[dv[u][k] as int]
                            < fin[u],
                dv == dep_table(ns),
                forall|u: int| 0 <= u < n ==> #[trigger] dv[u].len() <= usize::MAX,
                dfs_run(dv, point(start as int, stack@, color@, iter_pos@)) == dfs_cycle(ns),
            decreases unfinished(color@, n as int), unvisited(dv, iter_pos@, n as int),
        {
            let ghost st_b = point(start as int, stack@, color@, iter_pos@);
            proof {
                assert(dfs_wf(dv, st_b));
            }
            let top = stack.len() - 1;
            let cur = stack[top];
            if iter_pos[cur] < dep_lists[cur].len() {
                let next = dep_lists[cur][iter_pos[cur]];
                let ghost old_pos = iter_pos@;
                let ghost old_color = color@;
                let ghost old_stack = stack@;
                let np = iter_pos[cur] + 1;
                iter_pos.set(cur, np);
                proof {
                    lemma_unvisited_update(dv, old_pos, cur as int, np, n as int);
                    lemma_unvisited_nonneg(dv, iter_pos@, n as int);
                }
                if color[next] == 1 {
                    // `next` is on the stack: the stack from it on closes a cycle.
                    let mut pos: usize = top;
                    while stack[pos] != next
                        invariant
                            0 <= pos <= top,
                            top == stack@.len() - 1,
                            stack@.contains(next),
                            forall|q: int| pos < q <= top ==> stack@[q] != next,
                        decreases pos,
                    {
                        proof {
                            if pos == 0 {
                                let w = choose|w: int| 0 <= w < stack@.len() && stack@[w] == next;
                                assert(stack@[w] == next);
                            }
                        }
                        pos = pos - 1;
                    }
                    let ghost c: Seq<int> = as_ints(stack@.subrange(pos as int, stack@.len() as int)).push(
                        next as int,
                    );
                    let mut path: Vec<String> = Vec::new();
                    let mut q: usize = pos;
                    while q < stack.len()
                        invariant
                            pos <= q <= stack@.len(),
                            stack@.len() == top + 1,
                            forall|p: int| 0 <= p < stack@.len() ==> #[trigger] stack@[p] < n,
                            n == nodes.len(),
                            ns == nodes.deep_view(),
                            path.deep_view() == as_ints(stack@.subrange(pos as int, q as int)).map_values(
                                |u: int| node_label_spec(ns[u]),
                            ),
                        decreases stack@.len() - q,
                    {
                        let ghost before = path.deep_view();
                        let label = node_label(&nodes[stack[q]]);
                        proof {
                            assert(ns[stack@[q as int] as int] == nodes@[stack@[q as int] as int].deep_view());
                            assert(as_ints(stack@.subrange(pos as int, q + 1)) =~= as_ints(stack@.subrange(pos as int, q as int)).push(stack@[q as int] as int));
                        }
                        path.push(label);
                        proof {
                            assert(path.deep_view() =~= before.push(label@));
                            assert(path.deep_view() =~= as_ints(stack@.subrange(pos as int, q + 1)).map_values(
                                |u: int| node_label_spec(ns[u]),
                            ));
                        }
                        q = q + 1;
                    }
                    let ghost before = path.deep_view();
                    let label = node_label(&nodes[next]);
                    proof {
                        assert(ns[next as int] == nodes@[next as int].deep_view());
                        assert(stack@.subrange(pos as int, stack@.len() as int) =~= stack@.subrange(pos as int, q as int));
                    }
                    path.push(label);
                    proof {
                        assert(path.deep_view() =~= before.push(label@));
                        assert(path.deep_view() =~= c.map_values(|u: int| node_label_spec(ns[u])));
                        assert forall|k: int| 0 <= k < c.len() - 1 implies deps(
                            ns,
                            #[trigger] c[k],
                        ).contains(c[k + 1]) by {
                            let p = pos + k;
                            if p < top {
                                let x = iter_pos@[stack@[p] as int] - 1;
                                assert(dv[stack@[p] as int][x] == stack@[p + 1]);
                                assert(as_ints(dv[c[k]])[x] == c[k + 1]);
                            } else {
                                let x = old_pos[cur as int] as int;
                                assert(dv[cur as int][x] == next);
                                assert(as_ints(dv[c[k]])[x] == c[k + 1]);
                            }
                        }
                        assert(is_dep_cycle(ns, c));
                    }
                    proof {
                        lemma_last_index(stack@, next, pos as int);
                        lemma_dfs_step_edge(dv, st_b);
                    }
                    return Some(path);
                } else if color[next] == 0 {
                    let ghost before = color@;
                    color.set(next, 1);
                    stack.push(next);
                    proof {
                        lemma_unfinished_update(before, next as int, 1, n as int);
                        assert(stack@.last() == next);
                        assert forall|u: int| 0 <= u < n && #[trigger] color@[u] == 1 implies stack@.contains(
                            u as usize,
                        ) by {
                            if u != next {
                                assert(old_stack.contains(u as usize));
                                let w = choose|w: int|
                                    0 <= w < old_stack.len() && old_stack[w] == u as usize;
                                assert(stack@[w] == u as usize);
                            }
                        }
                    }
                }
                proof {
                    lemma_dfs_step_edge(dv, st_b);
                }
            } else {
                let ghost before = color@;
                let ghost old_stack = stack@;
                color.set(cur, 2);
                stack.pop();
                proof {
                    lemma_unfinished_update(before, cur as int, 2, n as int);
                    fin = fin.update(cur as int, time);
                    time = time + 1;
                    assert forall|u: int| 0 <= u < n && #[trigger] color@[u] == 1 implies stack@.contains(
                        u as usize,
                    ) by {
                        assert(old_stack.contains(u as usize));
                        let w = choose|w: int| 0 <= w < old_stack.len() && old_stack[w] == u as usize;
                        if w == top {
                            assert(u == cur);
                        }
                        assert(stack@[w] == u as usize);
                    }
                    assert(stack@ =~= old_stack.drop_last());
                    lemma_dfs_step_pop(dv, st_b);
                }
            }
        }
        proof {
            lemma_dfs_step_empty(dv, point(start as int, stack@, color@, iter_pos@));
        }
        start = start + 1;
    }
    proof {
        lemma_dfs_done(dv, point(start as int, stack@, color@, iter_pos@));
        assert forall|c: Seq<int>| !is_dep_cycle(ns, c) by {
            if is_dep_cycle(ns, c) {
                assert forall|k: int| 0 <= k < c.len() - 1 implies as_ints(
                    dv[#[trigger] c[k]],
                ).contains(c[k + 1]) by {
                    assert(deps(ns, c[k]).contains(c[k + 1]));
                }
                assert forall|u: int, x: int|
                    0 <= u < dv.len() && 0 <= x < dv[u].len() implies fin[#[trigger] dv[u][x] as int]
                    < fin[u] by {
                    assert(color@[u] == 2);
                }
                lemma_walk_finish_decreases(dv, fin, c, c.len() - 1);
            }
        }
    }
    None
}

} // verus!
