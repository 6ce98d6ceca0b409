//! A network topology held in memory: vertexes keyed by client-side ids and
//! directed edge ids `(outgoing, incoming)`, checked when it is built.

use std::collections::HashMap;
use vstd::prelude::*;
use crate::algo::traits::Weighted;
use crate::algo::edge_order::{
    find_key, has_key, insert_sorted, key_lt, keys_of, lemma_same_set_same_keys, reversed,
    strictly_sorted,
};

verus! {

/// Reverse the direction of an edge id: `(outgoing, incoming)` becomes
/// `(incoming, outgoing)`.
pub fn reverse_edge_id(edge_id: &(u64, u64)) -> (r: (u64, u64))
    ensures
        r == reversed(*edge_id),
{
    (edge_id.1, edge_id.0)
}

/// Why a graph could not be built from the given lists.
pub enum GraphBuildError {
    /// The vertex list is empty.
    NoVertexes,
    /// Two vertexes share an id.
    RepeatedVertexId,
    /// An edge names a vertex id that is not in the vertex list.
    DanglingEdge,
    /// An edge repeats an earlier edge id, in either direction.
    RepeatedEdgeId,
}

impl GraphBuildError {
    /// The message that reports the error.
    pub open spec fn message(self) -> Seq<char> {
        match self {
            GraphBuildError::NoVertexes => "no vertexes"@,
            GraphBuildError::RepeatedVertexId => "repeated vertex id"@,
            GraphBuildError::DanglingEdge => "edge is not connected to a valid vertex"@,
            GraphBuildError::RepeatedEdgeId => "repreated edge id"@,
        }
    }
}

/// The ids of a vertex list.
pub open spec fn vertex_ids<V>(vs: Seq<(u64, V)>) -> Seq<u64> {
    vs.map_values(|p: (u64, V)| p.0)
}

/// How edge `k` fares after the edges `prev` were accepted: both its ends must
/// be vertexes, and neither it nor its reverse may have been seen.
pub open spec fn edge_verdict(vids: Seq<u64>, prev: Seq<(u64, u64)>, k: (u64, u64)) -> Option<
    GraphBuildError,
> {
    if !(vids.contains(k.0) && vids.contains(k.1)) {
        Some(GraphBuildError::DanglingEdge)
    } else if prev.contains(k) || prev.contains(reversed(k)) {
        Some(GraphBuildError::RepeatedEdgeId)
    } else {
        None
    }
}

/// The error of the first edge that is refused, taking the edges in order.
pub open spec fn first_edge_error(vids: Seq<u64>, keys: Seq<(u64, u64)>) -> Option<GraphBuildError>
    decreases keys.len(),
{
    if keys.len() == 0 {
        None
    } else {
        match first_edge_error(vids, keys.drop_last()) {
            Some(e) => Some(e),
            None => edge_verdict(vids, keys.drop_last(), keys.last()),
        }
    }
}

/// The error that building a graph from these lists reports, if any.
pub open spec fn build_error<V, E>(vs: Seq<(u64, V)>, es: Seq<((u64, u64), E)>) -> Option<
    GraphBuildError,
> {
    if vs.len() == 0 {
        Some(GraphBuildError::NoVertexes)
    } else if !vertex_ids(vs).no_duplicates() {
        Some(GraphBuildError::RepeatedVertexId)
    } else {
        first_edge_error(vertex_ids(vs), keys_of(es))
    }
}

/// What a graph holds: its vertexes in the order they were given, and its
/// edges ordered by id.
pub struct GraphView<V, E> {
    pub vertexes: Seq<(u64, V)>,
    pub edges: Seq<((u64, u64), E)>,
}

pub struct InMemoryGraph<Vertex, Edge> {
    vertexes: Vec<(u64, Vertex)>,
    edges: Vec<((u64, u64), Edge)>,
}

impl<Vertex, Edge> View for InMemoryGraph<Vertex, Edge> {
    type V = GraphView<Vertex, Edge>;

    closed spec fn view(&self) -> GraphView<Vertex, Edge> {
        GraphView { vertexes: self.vertexes@, edges: self.edges@ }
    }
}

/// A well-formed graph: distinct vertex ids, edges sorted by id, every edge
/// between two vertexes, and no edge present in both directions.
pub open spec fn graph_wf<V, E>(g: GraphView<V, E>) -> bool {
    &&& vertex_ids(g.vertexes).no_duplicates()
    &&& strictly_sorted(g.edges)
    &&& forall|i: int|
        0 <= i < g.edges.len() ==> vertex_ids(g.vertexes).contains(#[trigger] g.edges[i].0.0)
            && vertex_ids(g.vertexes).contains(g.edges[i].0.1)
    &&& forall|i: int, j: int|
        0 <= i < g.edges.len() && 0 <= j < g.edges.len() && i != j ==> #[trigger] g.edges[i].0
            != reversed(#[trigger] g.edges[j].0)
}

impl<Vertex, Edge> InMemoryGraph<Vertex, Edge> {
    #[verifier::type_invariant]
    spec fn inv(self) -> bool {
        graph_wf(self@)
    }

    /// Build a graph from a vertex list and an edge list.
    ///
    /// Fails with "no vertexes" on an empty vertex list, with "repeated vertex
    /// id" when two vertexes share an id, and otherwise with the error of the
    /// first edge that is refused: "edge is not connected to a valid vertex"
    /// when an end is missing, "repreated edge id" when the edge or its reverse
    /// came before.
    pub fn from_vecs(vertexes: Vec<(u64, Vertex)>, edges: Vec<((u64, u64), Edge)>) -> (r: Result<
        Self,
        String,
    >)
        ensures
            match r {
                Err(msg) => build_error(vertexes@, edges@) matches Some(e) && msg@ == e.message(),
                Ok(g) => {
                    &&& build_error(vertexes@, edges@) is None
                    &&& g@.vertexes == vertexes@
                    &&& strictly_sorted(g@.edges)
                    &&& g@.edges.to_set() == edges@.to_set()
                    &&& g@.edges.len() == edges@.len()
                    &&& forall|a: u64, b: u64|
                        a != b && #[trigger] has_key(g@.edges, (a, b)) ==> !has_key(g@.edges, (b, a))
                },
            },
    {
        if vertexes.len() == 0 {
            return Err(String::from_str("no vertexes"));
        }
        let ghost vids = vertex_ids(vertexes@);
        // vertex ids must be distinct
        let mut i: usize = 0;
        while i < vertexes.len()
            invariant
                i <= vertexes@.len(),
                vids == vertex_ids(vertexes@),
                forall|a: int, b: int| 0 <= a < b < i ==> vids[a] != vids[b],
            decreases vertexes@.len() - i,
        {
            let mut j: usize = 0;
            while j < i
                invariant
                    j <= i < vertexes@.len(),
                    vids == vertex_ids(vertexes@),
                    forall|a: int| 0 <= a < j ==> vids[a] != vids[i as int],
                decreases i - j,
            {
                if vertexes[j].0 == vertexes[i].0 {
                    assert(!vids.no_duplicates()) by {
                        assert(vids[j as int] == vids[i as int]);
                    }
                    return Err(String::from_str("repeated vertex id"));
                }
                j += 1;
            }
            i += 1;
        }
        assert(vids.no_duplicates());

        let total = edges.len();
        let ghost all_edges = edges@;
        let ghost all_keys = keys_of(all_edges);
        let mut rest = edges;
        let mut acc: Vec<((u64, u64), Edge)> = Vec::new();
        let mut n: usize = 0;
        while rest.len() > 0
            invariant
                n <= all_edges.len(),
                all_edges.len() == total,
                all_edges == edges@,
                rest@ == all_edges.subrange(n as int, all_edges.len() as int),
                vids == vertex_ids(vertexes@),
                vids.no_duplicates(),
                vertexes@.len() > 0,
                all_keys == keys_of(all_edges),
                first_edge_error(vids, all_keys.take(n as int)) is None,
                strictly_sorted(acc@),
                acc@.to_set() == all_edges.take(n as int).to_set(),
                acc@.len() == n,
            decreases rest@.len(),
        {
            let (k, e) = rest.remove(0);
            assert(all_edges[n as int] == (k, e));
            assert(all_keys.take(n as int + 1).drop_last() == all_keys.take(n as int));
            assert(all_keys.take(n as int + 1).last() == k);
            assert(all_edges.take(n as int + 1) == all_edges.take(n as int).push((k, e)));
            if !Self::has_vertex(&vertexes, k.0) || !Self::has_vertex(&vertexes, k.1) {
                proof {
                    assert(first_edge_error(vids, all_keys.take(n as int + 1).drop_last()) is None);
                    assert(edge_verdict(vids, all_keys.take(n as int), k) == Some(GraphBuildError::DanglingEdge));
                    assert(first_edge_error(vids, all_keys.take(n as int + 1)) == Some(GraphBuildError::DanglingEdge));
                    Self::lemma_error_is_final(vids, all_keys, n as int + 1);
                    assert(first_edge_error(vids, all_keys) == Some(GraphBuildError::DanglingEdge));
                    assert(build_error(vertexes@, all_edges) == Some(GraphBuildError::DanglingEdge));
                }
                return Err(String::from_str("edge is not connected to a valid vertex"));
            }
            let rk = reverse_edge_id(&k);
            proof {
                lemma_same_set_same_keys(acc@, all_edges.take(n as int), k);
                lemma_same_set_same_keys(acc@, all_edges.take(n as int), rk);
                assert(keys_of(all_edges.take(n as int)) == all_keys.take(n as int));
            }
            if find_key(&acc, k).is_some() || find_key(&acc, rk).is_some() {
                proof {
                    Self::lemma_error_is_final(vids, all_keys, n as int + 1);
                }
                return Err(String::from_str("repreated edge id"));
            }
            insert_sorted(&mut acc, k, e);
            proof {
                all_edges.take(n as int).lemma_push_to_set_commute((k, e));
            }
            n += 1;
        }
        assert(all_edges.take(n as int) == all_edges);
        assert(all_keys.take(n as int) == all_keys);
        proof {
            Self::lemma_accepted_wf(vertexes@, all_edges, acc@);
        }
        let g = InMemoryGraph { vertexes, edges: acc };
        proof {
            use_type_invariant(&g);
            assert forall|a: u64, b: u64|
                a != b && #[trigger] has_key(g@.edges, (a, b)) implies !has_key(g@.edges, (b, a)) by {
                let i = choose|i: int| 0 <= i < g@.edges.len() && #[trigger] g@.edges[i].0 == (a, b);
                if has_key(g@.edges, (b, a)) {
                    let j = choose|j: int| 0 <= j < g@.edges.len() && #[trigger] g@.edges[j].0 == (b, a);
                    assert(g@.edges[i].0 == reversed(g@.edges[j].0));
                }
            }
        }
        Ok(g)
    }

    fn has_vertex(vertexes: &Vec<(u64, Vertex)>, id: u64) -> (r: bool)
        ensures
            r == vertex_ids(vertexes@).contains(id),
    {
        let mut i: usize = 0;
        while i < vertexes.len()
            invariant
                i <= vertexes@.len(),
                forall|j: int| 0 <= j < i ==> vertexes@[j].0 != id,
            decreases vertexes@.len() - i,
        {
            if vertexes[i].0 == id {
                assert(vertex_ids(vertexes@)[i as int] == id);
                return true;
            }
            i += 1;
        }
        false
    }

    proof fn lemma_error_is_final(vids: Seq<u64>, keys: Seq<(u64, u64)>, n: int)
        requires
            0 <= n <= keys.len(),
            first_edge_error(vids, keys.take(n)) is Some,
        ensures
            first_edge_error(vids, keys) == first_edge_error(vids, keys.take(n)),
        decreases keys.len() - n,
    {
        if n < keys.len() {
            assert(keys.take(n + 1).drop_last() == keys.take(n));
            Self::lemma_error_is_final(vids, keys, n + 1);
        } else {
            assert(keys.take(n) == keys);
        }
    }

    proof fn lemma_accepted_wf(vs: Seq<(u64, Vertex)>, es: Seq<((u64, u64), Edge)>, sorted: Seq<((u64, u64), Edge)>)
        requires
            vertex_ids(vs).no_duplicates(),
            first_edge_error(vertex_ids(vs), keys_of(es)) is None,
            strictly_sorted(sorted),
            sorted.to_set() == es.to_set(),
        ensures
            graph_wf(GraphView { vertexes: vs, edges: sorted }),
    {
        lemma_accepted_edges(vertex_ids(vs), keys_of(es));
        let g = GraphView { vertexes: vs, edges: sorted };
        assert forall|i: int| 0 <= i < sorted.len() implies vertex_ids(vs).contains(
            #[trigger] sorted[i].0.0,
        ) && vertex_ids(vs).contains(sorted[i].0.1) by {
            assert(sorted.to_set().contains(sorted[i]));
            let j = choose|j: int| 0 <= j < es.len() && es[j] == sorted[i];
            assert(keys_of(es)[j] == sorted[i].0);
        }
        assert forall|i: int, j: int|
            0 <= i < sorted.len() && 0 <= j < sorted.len() && i != j implies #[trigger] sorted[i].0
            != reversed(#[trigger] sorted[j].0) by {
            assert(sorted.to_set().contains(sorted[i]));
            assert(sorted.to_set().contains(sorted[j]));
            let a = choose|a: int| 0 <= a < es.len() && es[a] == sorted[i];
            let b = choose|b: int| 0 <= b < es.len() && es[b] == sorted[j];
            assert(keys_of(es)[a] == sorted[i].0);
            assert(keys_of(es)[b] == sorted[j].0);
            if sorted[i].0 == reversed(sorted[j].0) {
                if a == b {
                    // a self-reverse id is a loop, and the sorted list holds it once
                    assert(sorted[i].0 == sorted[j].0);
                    if i < j {
                        assert(key_lt(sorted[i].0, sorted[j].0));
                    } else {
                        assert(key_lt(sorted[j].0, sorted[i].0));
                    }
                }
            }
        }
    }
}

/// Every edge that building accepts joins two vertexes, and no edge id occurs
/// twice in either direction.
pub proof fn lemma_accepted_edges(vids: Seq<u64>, keys: Seq<(u64, u64)>)
    requires
        first_edge_error(vids, keys) is None,
    ensures
        forall|i: int|
            0 <= i < keys.len() ==> vids.contains(#[trigger] keys[i].0) && vids.contains(keys[i].1),
        forall|i: int, j: int|
            0 <= i < keys.len() && 0 <= j < keys.len() && i != j ==> #[trigger] keys[i] != keys[j]
                && keys[i] != reversed(#[trigger] keys[j]),
    decreases keys.len(),
{
    if keys.len() > 0 {
        let init = keys.drop_last();
        lemma_accepted_edges(vids, init);
        let last = keys.last();
        assert forall|i: int| 0 <= i < keys.len() implies vids.contains(#[trigger] keys[i].0)
            && vids.contains(keys[i].1) by {
            if i < keys.len() - 1 {
                assert(keys[i] == init[i]);
            }
        }
        assert forall|i: int, j: int|
            0 <= i < keys.len() && 0 <= j < keys.len() && i != j implies #[trigger] keys[i]
            != keys[j] && keys[i] != reversed(#[trigger] keys[j]) by {
            let n = keys.len() - 1;
            if i < n && j < n {
                assert(keys[i] == init[i] && keys[j] == init[j]);
            } else if i == n {
                assert(keys[j] == init[j]);
                assert(!init.contains(last));
                assert(!init.contains(reversed(last)));
                if keys[i] == reversed(keys[j]) {
                    assert(init[j] == reversed(last));
                }
            } else {
                assert(keys[i] == init[i]);
                assert(!init.contains(last));
                assert(!init.contains(reversed(last)));
                if keys[i] == reversed(keys[j]) {
                    assert(init[i] == reversed(last));
                }
            }
        }
    }
}


/// The value stored under vertex id `id` (the list holds each id once).
pub open spec fn vertex_value<V>(vs: Seq<(u64, V)>, id: u64) -> V {
    vs[choose|i: int| 0 <= i < vs.len() && vs[i].0 == id].1
}

/// The second components of a list of pairs, in order.
pub open spec fn values_of<K, T>(s: Seq<(K, T)>) -> Seq<T> {
    s.map_values(|p: (K, T)| p.1)
}

/// A vertex as the partitioning algorithm sees it.
pub struct Node<W> {
    pub name: u64,
    pub weight: W,
}

/// A weighted directed edge as the partitioning algorithm sees it.
#[allow(non_camel_case_types)]
pub struct Edge_py<NW, EW> {
    pub start: Node<NW>,
    pub end: Node<NW>,
    pub weight: EW,
}

impl<Vertex, Edge> InMemoryGraph<Vertex, Edge> {
    /// Split the graph into its vertexes, in the order they were given, and its
    /// edges, ordered by edge id.
    pub fn into(self) -> (r: (Vec<Vertex>, Vec<Edge>))
        ensures
            r.0@ == values_of(self@.vertexes),
            r.1@ == values_of(self@.edges),
    {
        let ghost g = self@;
        let InMemoryGraph { vertexes, edges } = self;
        (Self::take_values(vertexes), Self::take_values(edges))
    }

    fn take_values<K, T>(pairs: Vec<(K, T)>) -> (r: Vec<T>)
        ensures
            r@ == values_of(pairs@),
    {
        let ghost all = pairs@;
        let mut rest = pairs;
        let mut out: Vec<T> = Vec::new();
        while rest.len() > 0
            invariant
                out@.len() <= all.len(),
                rest@ == all.subrange(out@.len() as int, all.len() as int),
                out@ == values_of(all.take(out@.len() as int)),
            decreases rest@.len(),
        {
            let ghost n = out@.len();
            let (_, v) = rest.remove(0);
            out.push(v);
            assert(values_of(all.take(n as int + 1)) == values_of(all.take(n as int)).push(v));
        }
        assert(all.take(out@.len() as int) == all);
        out
    }

    /// The vertexes, in the order they were given.
    pub fn vertexes(&self) -> (r: &Vec<(u64, Vertex)>)
        ensures
            r@ == self@.vertexes,
    {
        &self.vertexes
    }

    /// The edges, ordered by id.
    pub fn edges(&self) -> (r: &Vec<((u64, u64), Edge)>)
        ensures
            r@ == self@.edges,
    {
        &self.edges
    }

    /// The reverse of every edge id, in id order: the ids under which an
    /// edge is found from its incoming end.
    pub fn reverse_edges(&self) -> (r: Vec<((u64, u64), ())>)
        ensures
            r@.len() == self@.edges.len(),
            strictly_sorted(r@),
            forall|k: (u64, u64)| has_key(r@, k) <==> has_key(self@.edges, reversed(k)),
    {
        proof {
            use_type_invariant(self);
        }
        let ghost es = self@.edges;
        let mut out: Vec<((u64, u64), ())> = Vec::new();
        let mut i: usize = 0;
        while i < self.edges.len()
            invariant
                es == self@.edges,
                strictly_sorted(es),
                i <= es.len(),
                out@.len() == i,
                strictly_sorted(out@),
                forall|k: (u64, u64)|
                    has_key(out@, k) <==> exists|j: int| 0 <= j < i && #[trigger] es[j].0 == reversed(k),
            decreases es.len() - i,
        {
            let k = self.edges[i].0;
            let rk = (k.1, k.0);
            assert(!has_key(out@, rk)) by {
                if has_key(out@, rk) {
                    let j = choose|j: int| 0 <= j < i && #[trigger] es[j].0 == reversed(rk);
                    assert(es[j].0 == es[i as int].0);
                    assert(key_lt(es[j].0, es[i as int].0));
                }
            }
            let ghost before = out@;
            insert_sorted(&mut out, rk, ());
            proof {
                assert forall|q: (u64, u64)|
                    has_key(out@, q) <==> exists|j: int| 0 <= j < i + 1 && #[trigger] es[j].0 == reversed(q) by {
                    if has_key(out@, q) {
                        let a = choose|a: int| 0 <= a < out@.len() && #[trigger] out@[a].0 == q;
                        assert(out@.to_set().contains(out@[a]));
                        if out@[a] == (rk, ()) {
                            assert(es[i as int].0 == reversed(q));
                        } else {
                            assert(before.to_set().contains(out@[a]));
                            let b = choose|b: int| 0 <= b < before.len() && before[b] == out@[a];
                            assert(has_key(before, q));
                        }
                    }
                    if exists|j: int| 0 <= j < i + 1 && #[trigger] es[j].0 == reversed(q) {
                        let j = choose|j: int| 0 <= j < i + 1 && #[trigger] es[j].0 == reversed(q);
                        if j == i {
                            assert(q == rk);
                            let a = choose|a: int| 0 <= a < out@.len() && out@[a] == (rk, ());
                            assert(out@[a].0 == q);
                        } else {
                            assert(has_key(before, q));
                            let b = choose|b: int| 0 <= b < before.len() && #[trigger] before[b].0 == q;
                            assert(before.to_set().contains(before[b]));
                            assert(out@.to_set().contains(before[b]));
                            let a = choose|a: int| 0 <= a < out@.len() && out@[a] == before[b];
                            assert(out@[a].0 == q);
                        }
                    }
                }
            }
            i += 1;
        }
        proof {
            assert forall|q: (u64, u64)| has_key(out@, q) <==> has_key(es, reversed(q)) by {
                if has_key(es, reversed(q)) {
                    let j = choose|j: int| 0 <= j < es.len() && #[trigger] es[j].0 == reversed(q);
                }
            }
        }
        out
    }

    /// The number of vertexes.
    pub fn size(&self) -> (r: usize)
        ensures
            r == self@.vertexes.len(),
    {
        self.vertexes.len()
    }

    fn lookup_vertex(&self, id: u64) -> (r: &Vertex)
        requires
            vertex_ids(self@.vertexes).contains(id),
            vertex_ids(self@.vertexes).no_duplicates(),
        ensures
            *r == vertex_value(self@.vertexes, id),
    {
        let ghost vs = self@.vertexes;
        let mut i: usize = 0;
        while i < self.vertexes.len()
            invariant
                vs == self@.vertexes,
                i <= vs.len(),
                vertex_ids(vs).contains(id),
                vertex_ids(vs).no_duplicates(),
                forall|j: int| 0 <= j < i ==> vs[j].0 != id,
            decreases vs.len() - i,
        {
            if self.vertexes[i].0 == id {
                proof {
                    assert forall|c: int| 0 <= c < vs.len() && #[trigger] vs[c].0 == id implies c
                        == i as int by {
                        assert(vertex_ids(vs)[c] == vertex_ids(vs)[i as int]);
                    }
                    assert(vs[i as int].0 == id);
                }
                return &self.vertexes[i].1;
            }
            i += 1;
        }
        proof {
            let j = choose|j: int| 0 <= j < vertex_ids(vs).len() && vertex_ids(vs)[j] == id;
            assert(vs[j].0 == id);
        }
        &self.vertexes[0].1
    }
}

impl<Vertex: Weighted, Edge: Weighted> InMemoryGraph<Vertex, Edge> {
    /// The edge list that the affinity partitioning algorithm takes: each edge
    /// in id order, once in its own direction and once reversed, with the
    /// weights of its two ends and its own weight.
    pub fn affinity_edges(&self) -> (r: Vec<Edge_py<Vertex::Weight, Edge::Weight>>)
        ensures
            r@.len() == 2 * self@.edges.len(),
            forall|i: int|
                #![trigger self@.edges[i]]
                0 <= i < self@.edges.len() ==> {
                    let (k, e) = self@.edges[i];
                    let sw = vertex_value(self@.vertexes, k.0).weight();
                    let dw = vertex_value(self@.vertexes, k.1).weight();
                    &&& r@[2 * i] == Edge_py {
                        start: Node { name: k.0, weight: sw },
                        end: Node { name: k.1, weight: dw },
                        weight: e.weight(),
                    }
                    &&& r@[2 * i + 1] == Edge_py {
                        start: Node { name: k.1, weight: dw },
                        end: Node { name: k.0, weight: sw },
                        weight: e.weight(),
                    }
                },
    {
        proof {
            use_type_invariant(self);
        }
        let ghost es = self@.edges;
        let ghost vs = self@.vertexes;
        let mut out: Vec<Edge_py<Vertex::Weight, Edge::Weight>> = Vec::new();
        let mut i: usize = 0;
        while i < self.edges.len()
            invariant
                es == self@.edges,
                vs == self@.vertexes,
                graph_wf(self@),
                i <= es.len(),
                out@.len() == 2 * i,
                forall|j: int|
                    #![trigger es[j]]
                    0 <= j < i ==> {
                        let (k, e) = es[j];
                        let sw = vertex_value(vs, k.0).weight();
                        let dw = vertex_value(vs, k.1).weight();
                        &&& out@[2 * j] == Edge_py {
                            start: Node { name: k.0, weight: sw },
                            end: Node { name: k.1, weight: dw },
                            weight: e.weight(),
                        }
                        &&& out@[2 * j + 1] == Edge_py {
                            start: Node { name: k.1, weight: dw },
                            end: Node { name: k.0, weight: sw },
                            weight: e.weight(),
                        }
                    },
            decreases es.len() - i,
        {
            let k = self.edges[i].0;
            assert(vertex_ids(vs).contains(es[i as int].0.0));
            let start_weight = self.lookup_vertex(k.0).get_weight();
            let end_weight = self.lookup_vertex(k.1).get_weight();
            let edge_weight = self.edges[i].1.get_weight();
            out.push(
                Edge_py {
                    start: Node { name: k.0, weight: start_weight },
                    end: Node { name: k.1, weight: end_weight },
                    weight: edge_weight,
                },
            );
            out.push(
                Edge_py {
                    start: Node { name: k.1, weight: end_weight },
                    end: Node { name: k.0, weight: start_weight },
                    weight: edge_weight,
                },
            );
            i += 1;
        }
        out
    }
}

/// The bin each item lands in: every stored vertex starts in the first bin,
/// then cluster `i` moves its items to bin `i`; an item named in several
/// clusters ends up in the bin of the last of them.
pub open spec fn cluster_assignment<B>(ids: Seq<u64>, clusters: Seq<Vec<u64>>, bins: Seq<B>) -> Map<
    u64,
    B,
>
    decreases clusters.len(),
{
    if clusters.len() == 0 {
        Map::new(|k: u64| ids.contains(k), |k: u64| bins[0])
    } else {
        cluster_assignment(ids, clusters.drop_last(), bins).union_prefer_right(
            Map::new(|k: u64| clusters.last()@.contains(k), |k: u64| bins[clusters.len() - 1]),
        )
    }
}

/// Partitioning maps every stored vertex, and every item that a cluster
/// names, to a bin; an item of cluster `i` that no later cluster names lands
/// in bin `i`.
pub proof fn lemma_every_item_assigned<B>(ids: Seq<u64>, clusters: Seq<Vec<u64>>, bins: Seq<B>)
    ensures
        forall|k: u64| #[trigger] ids.contains(k) ==> cluster_assignment(ids, clusters, bins).dom().contains(k),
        forall|i: int, k: u64|
            0 <= i < clusters.len() && #[trigger] clusters[i]@.contains(k) && (forall|j: int|
                i < j < clusters.len() ==> !(#[trigger] clusters[j]@.contains(k))) ==> cluster_assignment(
                ids,
                clusters,
                bins,
            ).dom().contains(k) && cluster_assignment(ids, clusters, bins)[k] == bins[i],
    decreases clusters.len(),
{
    if clusters.len() > 0 {
        let init = clusters.drop_last();
        lemma_every_item_assigned(ids, init, bins);
        assert forall|i: int, k: u64|
            0 <= i < clusters.len() && #[trigger] clusters[i]@.contains(k) && (forall|j: int|
                i < j < clusters.len() ==> !(#[trigger] clusters[j]@.contains(k))) implies cluster_assignment(
            ids,
            clusters,
            bins,
        ).dom().contains(k) && cluster_assignment(ids, clusters, bins)[k] == bins[i] by {
            if i < clusters.len() - 1 {
                assert(!clusters[clusters.len() - 1]@.contains(k));
                assert(init[i] == clusters[i]);
                assert forall|j: int| i < j < init.len() implies !(#[trigger] init[j]@.contains(k)) by {
                    assert(init[j] == clusters[j]);
                }
            }
        }
    }
}

/// Mapping the first `j + 1` items of `s` to `b` adds item `j` to mapping the
/// first `j`.
proof fn lemma_take_one_more<B>(s: Seq<u64>, j: int, b: B)
    requires
        0 <= j < s.len(),
    ensures
        Map::new(|k: u64| s.take(j + 1).contains(k), |k: u64| b) =~= Map::new(
            |k: u64| s.take(j).contains(k),
            |k: u64| b,
        ).insert(s[j], b),
{
    assert(s.take(j + 1) == s.take(j).push(s[j]));
    assert forall|k: u64| #[trigger] s.take(j + 1).contains(k) <==> (s.take(j).contains(k) || k == s[j]) by {
        if k == s[j] {
            assert(s.take(j + 1)[j] == k);
        }
        if s.take(j).contains(k) {
            let a = choose|a: int| 0 <= a < j && #[trigger] s.take(j)[a] == k;
            assert(s.take(j + 1)[a] == k);
        }
        if s.take(j + 1).contains(k) && k != s[j] {
            let a = choose|a: int| 0 <= a < j + 1 && #[trigger] s.take(j + 1)[a] == k;
            assert(s.take(j)[a] == k);
        }
    }
}

impl<Vertex, Edge> InMemoryGraph<Vertex, Edge> {
    /// Partition the stored vertexes into bins: the items of cluster `i` go
    /// to the bin with id `bin_ids[i]`, and a vertex that no cluster names
    /// goes to the first bin. This needs at least one bin and no fewer bins
    /// than clusters; otherwise it fails with "not enough resource".
    pub fn assign_bins<B: Copy>(&self, clusters: &Vec<Vec<u64>>, bin_ids: &Vec<B>) -> (r: Result<
        HashMap<u64, B>,
        String,
    >)
        ensures
            r is Ok <==> (0 < bin_ids@.len() && clusters@.len() <= bin_ids@.len()),
            r matches Ok(m) ==> m@ == cluster_assignment(
                vertex_ids(self@.vertexes),
                clusters@,
                bin_ids@,
            ),
            r matches Err(msg) ==> msg@ == "not enough resource"@,
    {
        broadcast use vstd::std_specs::hash::group_hash_axioms;

        if bin_ids.len() == 0 || clusters.len() > bin_ids.len() {
            return Err(String::from_str("not enough resource"));
        }
        let ghost ids = vertex_ids(self@.vertexes);
        let first = bin_ids[0];
        let mut res: HashMap<u64, B> = HashMap::new();
        assert(res@ =~= Map::new(|k: u64| ids.take(0).contains(k), |k: u64| first));
        let mut v: usize = 0;
        while v < self.vertexes.len()
            invariant
                v <= self@.vertexes.len(),
                ids == vertex_ids(self@.vertexes),
                0 < bin_ids@.len(),
                first == bin_ids@[0],
                res@ == Map::new(|k: u64| ids.take(v as int).contains(k), |k: u64| first),
            decreases self@.vertexes.len() - v,
        {
            let id = self.vertexes[v].0;
            proof {
                lemma_take_one_more(ids, v as int, first);
            }
            res.insert(id, first);
            v += 1;
        }
        assert(ids.take(v as int) == ids);
        let mut i: usize = 0;
        while i < clusters.len()
            invariant
                i <= clusters@.len() <= bin_ids@.len(),
                0 < bin_ids@.len(),
                res@ == cluster_assignment(ids, clusters@.take(i as int), bin_ids@),
            decreases clusters@.len() - i,
        {
            let bin = bin_ids[i];
            let cluster = &clusters[i];
            let ghost before = res@;
            let mut j: usize = 0;
            assert(before.union_prefer_right(
                Map::new(|k: u64| cluster@.take(0).contains(k), |k: u64| bin),
            ) =~= before);
            while j < cluster.len()
                invariant
                    j <= cluster@.len(),
                    i < clusters@.len(),
                    i < bin_ids@.len(),
                    cluster == clusters@[i as int],
                    bin == bin_ids@[i as int],
                    res@ == before.union_prefer_right(
                        Map::new(|k: u64| cluster@.take(j as int).contains(k), |k: u64| bin),
                    ),
                decreases cluster@.len() - j,
            {
                let item = cluster[j];
                proof {
                    lemma_take_one_more(cluster@, j as int, bin);
                    let m1 = Map::new(|k: u64| cluster@.take(j as int).contains(k), |k: u64| bin);
                    assert(before.union_prefer_right(m1.insert(item, bin)) =~= before.union_prefer_right(
                        m1,
                    ).insert(item, bin));
                }
                res.insert(item, bin);
                j += 1;
            }
            proof {
                assert(cluster@.take(j as int) == cluster@);
                assert(clusters@.take(i as int + 1).drop_last() == clusters@.take(i as int));
                assert(clusters@.take(i as int + 1).last() == cluster);
            }
            i += 1;
        }
        assert(clusters@.take(i as int) == clusters@);
        Ok(res)
    }
}

} // verus!
