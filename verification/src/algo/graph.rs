//! An undirected graph over `u64` node ids that keeps the first of any edges
//! repeated in either direction, and answers which edges touch a node.

use vstd::prelude::*;
use crate::algo::edge_order::{
    find_key, has_key, insert_sorted, key_lt, keys_of, lemma_same_set_same_keys, reversed,
    strictly_sorted,
};
use crate::algo::in_memory_graph::{graph_wf, vertex_ids, vertex_value, GraphView};

verus! {

/// The edges that building keeps, in input order, or `None` when an edge has
/// an end that is not a node. An edge whose id, or reversed id, was kept
/// before is skipped.
pub open spec fn kept_edges<E>(nids: Seq<u64>, es: Seq<((u64, u64), E)>) -> Option<
    Seq<((u64, u64), E)>,
>
    decreases es.len(),
{
    if es.len() == 0 {
        Some(Seq::empty())
    } else {
        match kept_edges(nids, es.drop_last()) {
            None => None,
            Some(acc) => {
                let k = es.last().0;
                if !(nids.contains(k.0) && nids.contains(k.1)) {
                    None
                } else if keys_of(acc).contains(k) || keys_of(acc).contains(reversed(k)) {
                    Some(acc)
                } else {
                    Some(acc.push(es.last()))
                }
            },
        }
    }
}

/// The edge stored under id `k` (a well-formed graph holds each id once).
pub open spec fn edge_value<E>(es: Seq<((u64, u64), E)>, k: (u64, u64)) -> E {
    es[choose|i: int| 0 <= i < es.len() && es[i].0 == k].1
}

/// Edge ids that leave node `nid`.
pub open spec fn leaves(nid: u64) -> spec_fn((u64, u64)) -> bool {
    |k: (u64, u64)| k.0 == nid
}

/// Edge ids that enter node `nid`.
pub open spec fn enters(nid: u64) -> spec_fn((u64, u64)) -> bool {
    |k: (u64, u64)| k.1 == nid
}

/// The ids of the edges whose first end is `nid`, in id order.
pub open spec fn outgoing_ids<E>(es: Seq<((u64, u64), E)>, nid: u64) -> Seq<(u64, u64)> {
    keys_of(es).filter(leaves(nid))
}

/// The ids of the edges whose second end is `nid`, in id order.
pub open spec fn incoming_ids<E>(es: Seq<((u64, u64), E)>, nid: u64) -> Seq<(u64, u64)> {
    keys_of(es).filter(enters(nid))
}

pub struct UndirectedGraph<Node, Edge> {
    nodes: Vec<(u64, Node)>,
    edges: Vec<((u64, u64), Edge)>,
}

impl<Node, Edge> View for UndirectedGraph<Node, Edge> {
    type V = GraphView<Node, Edge>;

    closed spec fn view(&self) -> GraphView<Node, Edge> {
        GraphView { vertexes: self.nodes@, edges: self.edges@ }
    }
}

impl<Node, Edge> UndirectedGraph<Node, Edge> {
    #[verifier::type_invariant]
    spec fn inv(self) -> bool {
        graph_wf(self@)
    }

    /// Build a graph; `None` when two nodes share an id or an edge has an end
    /// that is not a node. An edge that repeats a kept edge, in either
    /// direction, is dropped.
    pub fn new(nodes: Vec<(u64, Node)>, edges: Vec<((u64, u64), Edge)>) -> (r: Option<Self>)
        ensures
            r is Some <==> vertex_ids(nodes@).no_duplicates() && kept_edges(
                vertex_ids(nodes@),
                edges@,
            ) is Some,
            r is Some <==> vertex_ids(nodes@).no_duplicates() && forall|i: int|
                0 <= i < edges@.len() ==> vertex_ids(nodes@).contains(#[trigger] edges@[i].0.0)
                    && vertex_ids(nodes@).contains(edges@[i].0.1),
            r matches Some(g) ==> forall|i: int|
                0 <= i < edges@.len() ==> has_key(g@.edges, #[trigger] edges@[i].0) || has_key(
                    g@.edges,
                    reversed(edges@[i].0),
                ),
            r matches Some(g) ==> forall|j: int| 0 <= j < g@.edges.len() ==> edges@.contains(#[trigger] g@.edges[j]),
            r matches Some(g) ==> {
                &&& g@.vertexes == nodes@
                &&& strictly_sorted(g@.edges)
                &&& g@.edges.to_set() == kept_edges(vertex_ids(nodes@), edges@)->0.to_set()
                &&& g@.edges.len() == kept_edges(vertex_ids(nodes@), edges@)->0.len()
            },
    {
        let ghost nids = vertex_ids(nodes@);
        let mut i: usize = 0;
        while i < nodes.len()
            invariant
                i <= nodes@.len(),
                nids == vertex_ids(nodes@),
                forall|a: int, b: int| 0 <= a < b < i ==> nids[a] != nids[b],
            decreases nodes@.len() - i,
        {
            let mut j: usize = 0;
            while j < i
                invariant
                    j <= i < nodes@.len(),
                    nids == vertex_ids(nodes@),
                    forall|a: int| 0 <= a < j ==> nids[a] != nids[i as int],
                decreases i - j,
            {
                if nodes[j].0 == nodes[i].0 {
                    assert(nids[j as int] == nids[i as int]);
                    return None;
                }
                j += 1;
            }
            i += 1;
        }
        assert(nids.no_duplicates());
        let total = edges.len();
        let ghost all_edges = edges@;
        let mut rest = edges;
        let mut acc: Vec<((u64, u64), Edge)> = Vec::new();
        let mut n: usize = 0;
        while rest.len() > 0
            invariant
                n <= all_edges.len(),
                all_edges.len() == total,
                all_edges == edges@,
                rest@ == all_edges.subrange(n as int, all_edges.len() as int),
                nids == vertex_ids(nodes@),
                nids.no_duplicates(),
                kept_edges(nids, all_edges.take(n as int)) is Some,
                strictly_sorted(acc@),
                acc@.to_set() == kept_edges(nids, all_edges.take(n as int))->0.to_set(),
                acc@.len() == kept_edges(nids, all_edges.take(n as int))->0.len(),
            decreases rest@.len(),
        {
            let ghost prefix = all_edges.take(n as int);
            let ghost kept = kept_edges(nids, prefix)->0;
            let (k, e) = rest.remove(0);
            assert(all_edges[n as int] == (k, e));
            assert(all_edges.take(n as int + 1).drop_last() == prefix);
            assert(all_edges.take(n as int + 1).last() == (k, e));
            if !Self::has_node(&nodes, k.0) || !Self::has_node(&nodes, k.1) {
                proof {
                    lemma_kept_none_is_final(nids, all_edges, n as int + 1);
                    lemma_kept_iff_ends_are_nodes(nids, all_edges);
                }
                return None;
            }
            let rk = (k.1, k.0);
            proof {
                lemma_same_set_same_keys(acc@, kept, k);
                lemma_same_set_same_keys(acc@, kept, rk);
            }
            if find_key(&acc, k).is_none() && find_key(&acc, rk).is_none() {
                insert_sorted(&mut acc, k, e);
                proof {
                    kept.lemma_push_to_set_commute((k, e));
                }
            }
            n += 1;
        }
        assert(all_edges.take(n as int) == all_edges);
        proof {
            lemma_kept_wf(nodes@, all_edges, acc@);
            lemma_kept_iff_ends_are_nodes(nids, all_edges);
            lemma_kept_covers_input(nids, all_edges);
            let kept = kept_edges(nids, all_edges)->0;
            assert forall|i: int| 0 <= i < all_edges.len() implies has_key(acc@, #[trigger] all_edges[i].0)
                || has_key(acc@, reversed(all_edges[i].0)) by {
                let k = all_edges[i].0;
                lemma_same_set_same_keys(acc@, kept, k);
                lemma_same_set_same_keys(acc@, kept, reversed(k));
                if has_key(kept, k) {
                    let a = choose|a: int| 0 <= a < kept.len() && #[trigger] kept[a].0 == k;
                    assert(keys_of(kept)[a] == k);
                } else {
                    let a = choose|a: int| 0 <= a < kept.len() && #[trigger] kept[a].0 == reversed(k);
                    assert(keys_of(kept)[a] == reversed(k));
                }
            }
            assert forall|j: int| 0 <= j < acc@.len() implies all_edges.contains(#[trigger] acc@[j]) by {
                assert(acc@.to_set().contains(acc@[j]));
                assert(kept.to_set().contains(acc@[j]));
                let a = choose|a: int| 0 <= a < kept.len() && kept[a] == acc@[j];
            }
        }
        Some(UndirectedGraph { nodes, edges: acc })
    }

    fn has_node(nodes: &Vec<(u64, Node)>, id: u64) -> (r: bool)
        ensures
            r == vertex_ids(nodes@).contains(id),
    {
        let mut i: usize = 0;
        while i < nodes.len()
            invariant
                i <= nodes@.len(),
                forall|j: int| 0 <= j < i ==> nodes@[j].0 != id,
            decreases nodes@.len() - i,
        {
            if nodes[i].0 == id {
                assert(vertex_ids(nodes@)[i as int] == id);
                return true;
            }
            i += 1;
        }
        false
    }

    /// The nodes, in the order they were given.
    pub fn nodes(&self) -> (r: &Vec<(u64, Node)>)
        ensures
            r@ == self@.vertexes,
    {
        &self.nodes
    }

    /// The edges, ordered by id.
    pub fn edges(&self) -> (r: &Vec<((u64, u64), Edge)>)
        ensures
            r@ == self@.edges,
    {
        &self.edges
    }

    /// The number of nodes.
    pub fn nodes_num(&self) -> (r: usize)
        ensures
            r == self@.vertexes.len(),
    {
        self.nodes.len()
    }

    /// The node with id `nid`, if there is one.
    pub fn get_node(&self, nid: u64) -> (r: Option<&Node>)
        ensures
            r is Some <==> vertex_ids(self@.vertexes).contains(nid),
            r matches Some(v) ==> *v == vertex_value(self@.vertexes, nid),
    {
        proof {
            use_type_invariant(self);
        }
        let ghost vs = self@.vertexes;
        let mut i: usize = 0;
        while i < self.nodes.len()
            invariant
                vs == self@.vertexes,
                vertex_ids(vs).no_duplicates(),
                i <= vs.len(),
                forall|j: int| 0 <= j < i ==> vs[j].0 != nid,
            decreases vs.len() - i,
        {
            if self.nodes[i].0 == nid {
                proof {
                    assert forall|c: int| 0 <= c < vs.len() && #[trigger] vs[c].0 == nid implies c
                        == i as int by {
                        assert(vertex_ids(vs)[c] == vertex_ids(vs)[i as int]);
                    }
                    assert(vs[i as int].0 == nid);
                    assert(vertex_ids(vs)[i as int] == nid);
                }
                return Some(&self.nodes[i].1);
            }
            i += 1;
        }
        proof {
            if vertex_ids(vs).contains(nid) {
                let j = choose|j: int| 0 <= j < vertex_ids(vs).len() && vertex_ids(vs)[j] == nid;
                assert(vs[j].0 == nid);
            }
        }
        None
    }

    /// The edge with id `eid` (in this direction), if there is one.
    pub fn get_edge(&self, eid: (u64, u64)) -> (r: Option<&Edge>)
        ensures
            r is Some <==> has_key(self@.edges, eid),
            r matches Some(e) ==> *e == edge_value(self@.edges, eid),
    {
        proof {
            use_type_invariant(self);
        }
        let ghost es = self@.edges;
        match find_key(&self.edges, eid) {
            Some(i) => {
                proof {
                    assert forall|c: int| 0 <= c < es.len() && #[trigger] es[c].0 == eid implies c
                        == i as int by {
                        if c < i {
                            assert(key_lt(es[c].0, es[i as int].0));
                        } else if c > i {
                            assert(key_lt(es[i as int].0, es[c].0));
                        }
                    }
                    assert(es[i as int].0 == eid);
                }
                Some(&self.edges[i].1)
            },
            None => None,
        }
    }

    /// The edges that touch node `nid`: first those leaving it, as
    /// `(nid, other)`, then those entering it, as `(other, nid)`, each in id
    /// order.
    pub fn edges_by_nid(&self, nid: u64) -> (r: (Vec<(u64, u64)>, Vec<(u64, u64)>))
        ensures
            r.0@ == outgoing_ids(self@.edges, nid),
            r.1@ == incoming_ids(self@.edges, nid),
    {
        let ghost ks = keys_of(self@.edges);
        let ghost out_pred = leaves(nid);
        let ghost in_pred = enters(nid);
        let mut outgoing: Vec<(u64, u64)> = Vec::new();
        let mut incoming: Vec<(u64, u64)> = Vec::new();
        let mut i: usize = 0;
        while i < self.edges.len()
            invariant
                ks == keys_of(self@.edges),
                out_pred == leaves(nid),
                in_pred == enters(nid),
                i <= ks.len(),
                outgoing@ == ks.take(i as int).filter(out_pred),
                incoming@ == ks.take(i as int).filter(in_pred),
            decreases ks.len() - i,
        {
            let k = self.edges[i].0;
            proof {
                assert(ks[i as int] == k);
                assert(ks.take(i as int + 1) == ks.take(i as int).push(k));
                ks.take(i as int).lemma_filter_push(k, out_pred);
                ks.take(i as int).lemma_filter_push(k, in_pred);
            }
            if k.0 == nid {
                outgoing.push(k);
            }
            if k.1 == nid {
                incoming.push(k);
            }
            i += 1;
        }
        assert(ks.take(i as int) == ks);
        (outgoing, incoming)
    }
}

proof fn lemma_kept_none_is_final<E>(nids: Seq<u64>, es: Seq<((u64, u64), E)>, n: int)
    requires
        0 <= n <= es.len(),
        kept_edges(nids, es.take(n)) is None,
    ensures
        kept_edges(nids, es) is None,
    decreases es.len() - n,
{
    if n < es.len() {
        assert(es.take(n + 1).drop_last() == es.take(n));
        lemma_kept_none_is_final(nids, es, n + 1);
    } else {
        assert(es.take(n) == es);
    }
}

/// Every end of every input edge is a node.
pub open spec fn all_ends_are_nodes<E>(nids: Seq<u64>, es: Seq<((u64, u64), E)>) -> bool {
    forall|i: int| 0 <= i < es.len() ==> nids.contains(#[trigger] es[i].0.0) && nids.contains(es[i].0.1)
}

/// Building keeps the edges exactly when every end of every input edge is a
/// node: a dangling edge is never dropped silently.
pub proof fn lemma_kept_iff_ends_are_nodes<E>(nids: Seq<u64>, es: Seq<((u64, u64), E)>)
    ensures
        kept_edges(nids, es) is Some <==> all_ends_are_nodes(nids, es),
    decreases es.len(),
{
    if es.len() > 0 {
        let init = es.drop_last();
        lemma_kept_iff_ends_are_nodes(nids, init);
        if all_ends_are_nodes(nids, es) {
            assert forall|i: int| 0 <= i < init.len() implies nids.contains(#[trigger] init[i].0.0)
                && nids.contains(init[i].0.1) by {
                assert(init[i] == es[i]);
            }
            assert(es.last() == es[es.len() - 1]);
        }
        if kept_edges(nids, es) is Some {
            assert forall|i: int| 0 <= i < es.len() implies nids.contains(#[trigger] es[i].0.0)
                && nids.contains(es[i].0.1) by {
                if i < es.len() - 1 {
                    assert(init[i] == es[i]);
                }
            }
        }
    }
}

/// What building keeps covers the input: every input edge is kept, or an
/// edge with its id or its reversed id was kept before it; and every kept
/// edge is an input edge.
pub proof fn lemma_kept_covers_input<E>(nids: Seq<u64>, es: Seq<((u64, u64), E)>)
    requires
        kept_edges(nids, es) is Some,
    ensures
        forall|i: int|
            0 <= i < es.len() ==> has_key(kept_edges(nids, es)->0, #[trigger] es[i].0) || has_key(
                kept_edges(nids, es)->0,
                reversed(es[i].0),
            ),
        forall|j: int|
            0 <= j < kept_edges(nids, es)->0.len() ==> es.contains(
                #[trigger] kept_edges(nids, es)->0[j],
            ),
    decreases es.len(),
{
    if es.len() > 0 {
        let init = es.drop_last();
        lemma_kept_covers_input(nids, init);
        let acc = kept_edges(nids, init)->0;
        let kept = kept_edges(nids, es)->0;
        let last = es.last();
        assert(last == es[es.len() - 1]);
        assert forall|i: int| 0 <= i < es.len() implies has_key(kept, #[trigger] es[i].0) || has_key(
            kept,
            reversed(es[i].0),
        ) by {
            if i < es.len() - 1 {
                assert(init[i] == es[i]);
                if has_key(acc, es[i].0) {
                    let a = choose|a: int| 0 <= a < acc.len() && #[trigger] acc[a].0 == es[i].0;
                    if kept != acc {
                        assert(kept[a] == acc[a]);
                    }
                } else {
                    let a = choose|a: int| 0 <= a < acc.len() && #[trigger] acc[a].0 == reversed(es[i].0);
                    if kept != acc {
                        assert(kept[a] == acc[a]);
                    }
                }
            } else if kept == acc {
                if keys_of(acc).contains(last.0) {
                    let a = choose|a: int| 0 <= a < keys_of(acc).len() && keys_of(acc)[a] == last.0;
                    assert(acc[a].0 == last.0);
                } else {
                    let a = choose|a: int| 0 <= a < keys_of(acc).len() && keys_of(acc)[a] == reversed(last.0);
                    assert(acc[a].0 == reversed(last.0));
                }
            } else {
                assert(kept[acc.len() as int] == last);
            }
        }
        assert forall|j: int| 0 <= j < kept.len() implies es.contains(#[trigger] kept[j]) by {
            if j < acc.len() {
                assert(kept[j] == acc[j]);
                let a = choose|a: int| 0 <= a < init.len() && init[a] == acc[j];
                assert(es[a] == init[a]);
            } else {
                assert(kept[j] == last);
            }
        }
    }
}

/// The kept edges join nodes, and no id is kept twice in either direction.
pub proof fn lemma_kept_edges_valid<E>(nids: Seq<u64>, es: Seq<((u64, u64), E)>)
    requires
        kept_edges(nids, es) is Some,
    ensures
        ({
            let kept = kept_edges(nids, es)->0;
            &&& forall|i: int|
                0 <= i < kept.len() ==> nids.contains(#[trigger] kept[i].0.0) && nids.contains(
                    kept[i].0.1,
                )
            &&& forall|i: int, j: int|
                0 <= i < kept.len() && 0 <= j < kept.len() && i != j ==> #[trigger] kept[i].0
                    != kept[j].0 && kept[i].0 != reversed(#[trigger] kept[j].0)
        }),
    decreases es.len(),
{
    if es.len() > 0 {
        lemma_kept_edges_valid(nids, es.drop_last());
        let acc = kept_edges(nids, es.drop_last())->0;
        let kept = kept_edges(nids, es)->0;
        let last = es.last();
        if kept != acc {
            assert(kept == acc.push(last));
            assert(!keys_of(acc).contains(last.0));
            assert(!keys_of(acc).contains(reversed(last.0)));
            assert forall|i: int| 0 <= i < kept.len() implies nids.contains(
                #[trigger] kept[i].0.0,
            ) && nids.contains(kept[i].0.1) by {
                if i < acc.len() {
                    assert(kept[i] == acc[i]);
                }
            }
            assert forall|i: int, j: int|
                0 <= i < kept.len() && 0 <= j < kept.len() && i != j implies #[trigger] kept[i].0
                != kept[j].0 && kept[i].0 != reversed(#[trigger] kept[j].0) by {
                let n = acc.len() as int;
                if i < n && j < n {
                    assert(kept[i] == acc[i] && kept[j] == acc[j]);
                } else if i == n {
                    assert(kept[j] == acc[j]);
                    assert(keys_of(acc)[j] == acc[j].0);
                    if kept[i].0 == reversed(kept[j].0) {
                        assert(reversed(last.0) == acc[j].0);
                    }
                } else {
                    assert(kept[i] == acc[i]);
                    assert(keys_of(acc)[i] == acc[i].0);
                    if kept[i].0 == reversed(kept[j].0) {
                        assert(reversed(last.0) == acc[i].0);
                    }
                }
            }
        }
    }
}

proof fn lemma_kept_wf<N, E>(
    ns: Seq<(u64, N)>,
    es: Seq<((u64, u64), E)>,
    sorted: Seq<((u64, u64), E)>,
)
    requires
        vertex_ids(ns).no_duplicates(),
        kept_edges(vertex_ids(ns), es) is Some,
        strictly_sorted(sorted),
        sorted.to_set() == kept_edges(vertex_ids(ns), es)->0.to_set(),
    ensures
        graph_wf(GraphView { vertexes: ns, edges: sorted }),
{
    let kept = kept_edges(vertex_ids(ns), es)->0;
    lemma_kept_edges_valid(vertex_ids(ns), es);
    assert forall|i: int| 0 <= i < sorted.len() implies vertex_ids(ns).contains(
        #[trigger] sorted[i].0.0,
    ) && vertex_ids(ns).contains(sorted[i].0.1) by {
        assert(sorted.to_set().contains(sorted[i]));
        let j = choose|j: int| 0 <= j < kept.len() && kept[j] == sorted[i];
        assert(kept[j].0 == sorted[i].0);
    }
    assert forall|i: int, j: int|
        0 <= i < sorted.len() && 0 <= j < sorted.len() && i != j implies #[trigger] sorted[i].0
        != reversed(#[trigger] sorted[j].0) by {
        assert(sorted.to_set().contains(sorted[i]));
        assert(sorted.to_set().contains(sorted[j]));
        let a = choose|a: int| 0 <= a < kept.len() && kept[a] == sorted[i];
        let b = choose|b: int| 0 <= b < kept.len() && kept[b] == sorted[j];
        assert(kept[a].0 == sorted[i].0);
        assert(kept[b].0 == sorted[j].0);
        if sorted[i].0 == reversed(sorted[j].0) && a == b {
            assert(sorted[i].0 == sorted[j].0);
            if i < j {
                assert(key_lt(sorted[i].0, sorted[j].0));
            } else {
                assert(key_lt(sorted[j].0, sorted[i].0));
            }
        }
    }
}

} // verus!
