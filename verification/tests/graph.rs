use std::collections::HashMap;

use mocknet::algo::graph::UndirectedGraph;
use mocknet::algo::in_memory_graph::{reverse_edge_id, Edge_py, InMemoryGraph, Node};
use mocknet::algo::traits::{Max, Min, Weighted};

fn numbered(ids: &[u64]) -> Vec<(u64, u64)> {
    ids.iter().map(|&e| (e, 0)).collect()
}

fn edges(ids: &[(u64, u64)]) -> Vec<((u64, u64), u64)> {
    ids.iter().map(|&e| (e, 0)).collect()
}

fn build_err(vs: Vec<(u64, u64)>, es: Vec<((u64, u64), u64)>) -> String {
    match InMemoryGraph::from_vecs(vs, es) {
        Ok(_) => panic!("expected an error"),
        Err(m) => m,
    }
}

#[test]
fn reverse_edge_id_swaps_ends() {
    assert_eq!(reverse_edge_id(&(3, 9)), (9, 3));
    assert_eq!(reverse_edge_id(&(4, 4)), (4, 4));
}

#[test]
fn repeated_edge_in_sample_topology_is_refused() {
    let vertexes = numbered(&[1, 2, 3, 4, 5]);
    let es = edges(&[(1, 2), (1, 3), (1, 4), (1, 4), (1, 5), (2, 3), (7, 8)]);
    assert_eq!(build_err(vertexes, es), "repreated edge id");
}

#[test]
fn empty_vertex_list_is_refused() {
    assert_eq!(build_err(Vec::new(), Vec::new()), "no vertexes");
}

#[test]
fn repeated_vertex_id_is_refused() {
    assert_eq!(build_err(numbered(&[1, 2, 1]), Vec::new()), "repeated vertex id");
}

#[test]
fn dangling_edge_is_refused() {
    assert_eq!(
        build_err(numbered(&[1, 2]), edges(&[(1, 2), (2, 3)])),
        "edge is not connected to a valid vertex"
    );
}

#[test]
fn first_refused_edge_decides_the_error() {
    // the repeated edge comes before the dangling one
    assert_eq!(
        build_err(numbered(&[1, 2]), edges(&[(1, 2), (1, 2), (2, 3)])),
        "repreated edge id"
    );
    // the dangling edge comes before the repeated one
    assert_eq!(
        build_err(numbered(&[1, 2]), edges(&[(1, 2), (2, 9), (1, 2)])),
        "edge is not connected to a valid vertex"
    );
}

#[test]
fn reversed_edge_counts_as_repeated() {
    assert_eq!(build_err(numbered(&[1, 2]), edges(&[(1, 2), (2, 1)])), "repreated edge id");
}

#[test]
fn self_loop_is_accepted_once() {
    let g = InMemoryGraph::from_vecs(numbered(&[1]), edges(&[(1, 1)])).ok().unwrap();
    assert_eq!(g.size(), 1);
    assert_eq!(
        build_err(numbered(&[1]), edges(&[(1, 1), (1, 1)])),
        "repreated edge id"
    );
}

#[test]
fn graph_keeps_vertex_order_and_sorts_edges() {
    let vertexes = vec![(5, 50u64), (1, 10), (3, 30)];
    let es = vec![((3, 5), 35u64), ((1, 5), 15), ((1, 3), 13), ((3, 1), 31)];
    match InMemoryGraph::from_vecs(vertexes.clone(), es.clone()) {
        Err(m) => assert_eq!(m, "repreated edge id"),
        Ok(_) => panic!("(3, 1) reverses (1, 3)"),
    }
    let es = vec![((3, 5), 35u64), ((1, 5), 15), ((1, 3), 13)];
    let g = InMemoryGraph::from_vecs(vertexes, es).ok().unwrap();
    assert_eq!(g.size(), 3);
    let (vs, es) = g.into();
    assert_eq!(vs, vec![50, 10, 30]);
    assert_eq!(es, vec![13, 15, 35]);
}

#[derive(Clone, Copy)]
struct W(u32);

impl Weighted for W {
    type Weight = u32;
    fn weight(&self) -> u32 {
        self.0
    }
    fn get_weight(&self) -> u32 {
        self.0
    }
}

#[test]
fn affinity_edges_list_each_edge_both_ways() {
    let vertexes = vec![(1, W(7)), (2, W(8))];
    let es = vec![((2, 1), W(3))];
    let g = InMemoryGraph::from_vecs(vertexes, es).ok().unwrap();
    let list: Vec<Edge_py<u32, u32>> = g.affinity_edges();
    assert_eq!(list.len(), 2);
    let Edge_py { start: Node { name: s0, weight: sw0 }, end: Node { name: e0, weight: ew0 }, weight: w0 } = &list[0];
    assert_eq!((*s0, *sw0, *e0, *ew0, *w0), (2, 8, 1, 7, 3));
    let Edge_py { start: Node { name: s1, weight: sw1 }, end: Node { name: e1, weight: ew1 }, weight: w1 } = &list[1];
    assert_eq!((*s1, *sw1, *e1, *ew1, *w1), (1, 7, 2, 8, 3));
}

fn four_vertex_graph() -> InMemoryGraph<W, W> {
    let vertexes = vec![(1, W(1)), (2, W(1)), (3, W(1)), (4, W(1))];
    let es = vec![((1, 2), W(1)), ((2, 3), W(1))];
    InMemoryGraph::from_vecs(vertexes, es).ok().unwrap()
}

#[test]
fn clusters_fill_bins_in_order() {
    let g = four_vertex_graph();
    let clusters = vec![vec![1, 2], vec![3]];
    let res = g.assign_bins(&clusters, &vec![10u32, 20]).ok().unwrap();
    let mut expected = HashMap::new();
    expected.insert(1u64, 10u32);
    expected.insert(2, 10);
    expected.insert(3, 20);
    // vertex 4 has no edge and no cluster: it goes to the first bin
    expected.insert(4, 10);
    assert_eq!(res, expected);
    let res = g.assign_bins(&clusters, &vec![10u32, 20, 30]).ok().unwrap();
    assert_eq!(res, expected);
}

#[test]
fn reverse_edges_are_sorted_by_reversed_id() {
    let g = four_vertex_graph();
    let rev: Vec<(u64, u64)> = g.reverse_edges().into_iter().map(|(k, _)| k).collect();
    assert_eq!(rev, vec![(2, 1), (3, 2)]);
    let vertexes = vec![(1, W(1)), (2, W(1)), (3, W(1))];
    let es = vec![((1, 3), W(1)), ((2, 1), W(1)), ((3, 3), W(1))];
    let g = InMemoryGraph::from_vecs(vertexes, es).ok().unwrap();
    let rev: Vec<(u64, u64)> = g.reverse_edges().into_iter().map(|(k, _)| k).collect();
    assert_eq!(rev, vec![(1, 2), (3, 1), (3, 3)]);
}

#[test]
fn partition_needs_a_bin_for_each_cluster() {
    let g = four_vertex_graph();
    let clusters = vec![vec![1, 2], vec![3]];
    match g.assign_bins(&clusters, &vec![10u32]) {
        Err(m) => assert_eq!(m, "not enough resource"),
        Ok(_) => panic!("one bin is not enough for two clusters"),
    }
    match g.assign_bins(&Vec::new(), &Vec::<u32>::new()) {
        Err(m) => assert_eq!(m, "not enough resource"),
        Ok(_) => panic!("no bin at all"),
    }
    let all_first = g.assign_bins(&Vec::new(), &vec![7u32]).ok().unwrap();
    assert_eq!(all_first.len(), 4);
    assert!(all_first.values().all(|b| *b == 7));
}

#[test]
fn item_in_two_clusters_lands_in_the_last() {
    let g = four_vertex_graph();
    let clusters = vec![vec![1], vec![1, 2]];
    let res = g.assign_bins(&clusters, &vec![10u32, 20]).ok().unwrap();
    assert_eq!(res.get(&1), Some(&20));
    assert_eq!(res.get(&2), Some(&20));
    assert_eq!(res.get(&3), Some(&10));
}

#[test]
fn undirected_graph_drops_repeated_edges() {
    let nodes = vec![(1u64, "a"), (2, "b"), (3, "c")];
    let es = vec![((1u64, 2u64), 'x'), ((2, 1), 'y'), ((3, 1), 'z'), ((1, 2), 'w')];
    let g = UndirectedGraph::new(nodes, es).unwrap();
    assert_eq!(g.nodes_num(), 3);
    assert_eq!(g.edges().len(), 2);
    assert_eq!(g.get_edge((1, 2)), Some(&'x'));
    assert_eq!(g.get_edge((2, 1)), None);
    assert_eq!(g.get_edge((3, 1)), Some(&'z'));
    assert_eq!(g.get_node(2), Some(&"b"));
    assert_eq!(g.get_node(4), None);
    let (out1, in1) = g.edges_by_nid(1);
    assert_eq!(out1, vec![(1, 2)]);
    assert_eq!(in1, vec![(3, 1)]);
    let (out3, in3) = g.edges_by_nid(3);
    assert_eq!(out3, vec![(3, 1)]);
    assert!(in3.is_empty());
    assert_eq!(g.nodes()[0].1, "a");
}

#[test]
fn undirected_graph_refuses_bad_input() {
    assert!(UndirectedGraph::new(vec![(1u64, ()), (1, ())], Vec::<((u64, u64), ())>::new()).is_none());
    assert!(UndirectedGraph::new(vec![(1u64, ())], vec![((1u64, 2u64), ())]).is_none());
    assert!(UndirectedGraph::new(Vec::<(u64, ())>::new(), Vec::<((u64, u64), ())>::new()).is_some());
}

#[test]
fn edges_by_nid_sorted_by_other_end() {
    let nodes = vec![(1u64, ()), (2, ()), (3, ()), (4, ())];
    let es = vec![((1u64, 4u64), ()), ((1, 2), ()), ((3, 1), ()), ((2, 1), ()), ((1, 3), ())];
    // (2, 1) repeats (1, 2); (1, 3) repeats (3, 1)
    let g = UndirectedGraph::new(nodes, es).unwrap();
    let (out1, in1) = g.edges_by_nid(1);
    assert_eq!(out1, vec![(1, 2), (1, 4)]);
    assert_eq!(in1, vec![(3, 1)]);
}

#[test]
fn u64_bounds() {
    assert_eq!(<u64 as Min>::minimum(), 0);
    assert_eq!(<u64 as Max>::maximum(), u64::MAX);
}
