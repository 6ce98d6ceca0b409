//! Initialise an emulation network with its topology: check the request,
//! build the topology graph, and lay out the records that go into the
//! database once devices are placed on servers.

use std::collections::HashMap;
use vstd::prelude::*;
use crate::algo::in_memory_graph::{build_error, cluster_assignment, values_of, vertex_ids, InMemoryGraph};
use crate::algo::edge_order::{keys_of, strictly_sorted};
use crate::database_new::indradb::indradb_util::{BulkInsertItem, Uuid, Vertex as DbVertex};
use crate::database_new::indradb::indradb_util::readers::{type_from_name, utf8_len};

verus! {

/// A device as the client describes it.
pub struct VertexInfo {
    /// client side vertex id
    pub client_id: u64,
    /// a description string to hold the place
    pub description: String,
}

/// A link as the client describes it.
pub struct EdgeInfo {
    /// client side edge id, (outgoing, incoming)
    pub client_id: (u64, u64),
    /// a description string to hold the place
    pub description: String,
}

/// A device as stored: its description, its own id, and the server it runs on.
pub struct Vertex {
    pub client_info: VertexInfo,
    pub uuid: Uuid,
    pub server_uuid: Uuid,
}

/// A link as stored, between the ids of its outgoing and incoming devices.
pub struct Edge {
    pub client_info: EdgeInfo,
    pub edge_key: (Uuid, Uuid),
    pub description: String,
}

/// Build the topology of an emulation network that is still uninitialised.
///
/// `record` is what reading the network's stored record gave: `None` when
/// there is no record, else whether the network is still uninitialised.
/// `vertexes` and `edges` are the decoded device and link lists, `None` when
/// their JSON could not be decoded. The checks are made in that order.
pub fn build_network_graph(
    record: Option<bool>,
    vertexes: Option<Vec<(u64, VertexInfo)>>,
    edges: Option<Vec<((u64, u64), EdgeInfo)>>,
) -> (r: Result<InMemoryGraph<VertexInfo, EdgeInfo>, String>)
    ensures
        record is None ==> (r matches Err(m) && m@ == "emunet not exist"@),
        record == Some(false) ==> (r matches Err(m) && m@
            == "the emunet has already been initialized"@),
        record == Some(true) && vertexes is None ==> (r matches Err(m) && m@
            == "invalid json format for vertexes"@),
        record == Some(true) && vertexes is Some && edges is None ==> (r matches Err(m) && m@
            == "invalid json format for edges"@),
        record == Some(true) && vertexes is Some && edges is Some ==> {
            let vs = vertexes->0@;
            let es = edges->0@;
            match build_error(vs, es) {
                Some(e) => r matches Err(m) && m@ == "can't build the network graph: "@
                    + e.message(),
                None => r matches Ok(g) && g@.vertexes == vs && strictly_sorted(g@.edges)
                    && g@.edges.to_set() == es.to_set() && g@.edges.len() == es.len(),
            }
        },
{
    let is_uninit = match record {
        Some(u) => u,
        None => {
            return Err(String::from_str("emunet not exist"));
        },
    };
    if !is_uninit {
        return Err(String::from_str("the emunet has already been initialized"));
    }
    let input_vertexes = match vertexes {
        Some(v) => v,
        None => {
            return Err(String::from_str("invalid json format for vertexes"));
        },
    };
    let input_edges = match edges {
        Some(e) => e,
        None => {
            return Err(String::from_str("invalid json format for edges"));
        },
    };
    match InMemoryGraph::from_vecs(input_vertexes, input_edges) {
        Ok(g) => Ok(g),
        Err(msg) => Err(String::from_str("can't build the network graph: ").concat(msg.as_str())),
    }
}

/// The report of a failed partitioning, given the partitioner's message.
pub fn partition_failure(msg: &str) -> (r: String)
    ensures
        r@ == "can't partition the network graph: "@ + msg@,
{
    String::from_str("can't partition the network graph: ").concat(msg)
}

/// The stored devices: device `i` gets id `uuids[i]` and the server that the
/// assignment gives its client id.
pub fn build_vertexes(
    infos: Vec<VertexInfo>,
    uuids: &Vec<Uuid>,
    assignment: &HashMap<u64, Uuid>,
) -> (r: Vec<Vertex>)
    requires
        infos@.len() == uuids@.len(),
        forall|i: int| 0 <= i < infos@.len() ==> assignment@.contains_key(#[trigger] infos@[i].client_id),
    ensures
        r@.len() == infos@.len(),
        forall|i: int|
            0 <= i < r@.len() ==> {
                &&& (#[trigger] r@[i]).client_info == infos@[i]
                &&& r@[i].uuid == uuids@[i]
                &&& r@[i].server_uuid == assignment@[infos@[i].client_id]
            },
{
    broadcast use vstd::std_specs::hash::group_hash_axioms;

    let ghost all = infos@;
    let mut rest = infos;
    let mut out: Vec<Vertex> = Vec::new();
    while rest.len() > 0
        invariant
            out@.len() <= all.len(),
            all.len() == uuids@.len(),
            rest@ == all.subrange(out@.len() as int, all.len() as int),
            forall|i: int| 0 <= i < all.len() ==> assignment@.contains_key(#[trigger] all[i].client_id),
            forall|i: int|
                0 <= i < out@.len() ==> {
                    &&& (#[trigger] out@[i]).client_info == all[i]
                    &&& out@[i].uuid == uuids@[i]
                    &&& out@[i].server_uuid == assignment@[all[i].client_id]
                },
        decreases rest@.len(),
    {
        let n = out.len();
        let vi = rest.remove(0);
        assert(vi == all[n as int]);
        let client_id = vi.client_id;
        let server_uuid = *assignment.get(&client_id).unwrap();
        out.push(Vertex { client_info: vi, uuid: uuids[n], server_uuid });
    }
    out
}

/// The bulk insertion items that create the stored devices as vertexes of
/// type "t".
pub fn vertex_items(vertexes: &Vec<Vertex>) -> (r: Vec<BulkInsertItem>)
    ensures
        r@.len() == vertexes@.len(),
        forall|i: int|
            0 <= i < r@.len() ==> (#[trigger] r@[i] matches BulkInsertItem::Vertex(v) && v.id
                == vertexes@[i].uuid && v.t.0@ == "t"@),
{
    let mut out: Vec<BulkInsertItem> = Vec::new();
    let mut i: usize = 0;
    while i < vertexes.len()
        invariant
            i <= vertexes@.len(),
            out@.len() == i,
            forall|j: int|
                0 <= j < i ==> (#[trigger] out@[j] matches BulkInsertItem::Vertex(v) && v.id
                    == vertexes@[j].uuid && v.t.0@ == "t"@),
        decreases vertexes@.len() - i,
    {
        proof {
            reveal_strlit("t");
            assert(utf8_len("t"@.drop_last()) == 0);
        }
        let t = type_from_name("t").unwrap();
        let v = DbVertex { id: vertexes[i].uuid, t };
        out.push(BulkInsertItem::Vertex(v));
        i += 1;
    }
    out
}

/// The bulk insertion items that store each device's record, given as JSON
/// text, under the property "default" of its vertex.
pub fn vertex_property_items(vertexes: &Vec<Vertex>, records: Vec<String>) -> (r: Vec<
    BulkInsertItem,
>)
    requires
        records@.len() == vertexes@.len(),
    ensures
        r@.len() == vertexes@.len(),
        forall|i: int|
            0 <= i < r@.len() ==> (#[trigger] r@[i] matches BulkInsertItem::VertexProperty(
                id,
                name,
                value,
            ) && id == vertexes@[i].uuid && name@ == "default"@ && value@ == records@[i]@),
{
    let ghost all = records@;
    let mut rest = records;
    let mut out: Vec<BulkInsertItem> = Vec::new();
    while rest.len() > 0
        invariant
            out@.len() <= all.len(),
            all.len() == vertexes@.len(),
            rest@ == all.subrange(out@.len() as int, all.len() as int),
            forall|j: int|
                0 <= j < out@.len() ==> (#[trigger] out@[j] matches BulkInsertItem::VertexProperty(
                    id,
                    name,
                    value,
                ) && id == vertexes@[j].uuid && name@ == "default"@ && value@ == all[j]@),
        decreases rest@.len(),
    {
        let n = out.len();
        let json = rest.remove(0);
        assert(json == all[n as int]);
        out.push(BulkInsertItem::VertexProperty(vertexes[n].uuid, String::from_str("default"), json));
    }
    out
}

/// The server that the partition of a network places each device on, when
/// cluster `i` goes to server `servers[i]`.
pub open spec fn placement(
    graph: Seq<(u64, VertexInfo)>,
    clusters: Seq<Vec<u64>>,
    servers: Seq<Uuid>,
) -> Map<u64, Uuid> {
    cluster_assignment(vertex_ids(graph), clusters, servers)
}

/// Whether partitioning with `clusters` over `servers` succeeds: there is a
/// server, and a server for each cluster.
pub open spec fn placement_ok(clusters: Seq<Vec<u64>>, servers: Seq<Uuid>) -> bool {
    0 < servers.len() && clusters.len() <= servers.len()
}

/// Place the devices of a built network on servers and lay out the vertexes
/// that store them: partition the graph (cluster `i` goes to `servers[i]`),
/// give device `i` the id `uuids[i]`, and make the bulk insertion items that
/// create one vertex of type "t" per device.
pub fn place_network(
    graph: InMemoryGraph<VertexInfo, EdgeInfo>,
    clusters: &Vec<Vec<u64>>,
    servers: &Vec<Uuid>,
    uuids: &Vec<Uuid>,
) -> (r: Result<(Vec<Vertex>, Vec<BulkInsertItem>), String>)
    requires
        uuids@.len() == graph@.vertexes.len(),
        placement_ok(clusters@, servers@) ==> forall|i: int|
            0 <= i < graph@.vertexes.len() ==> placement(graph@.vertexes, clusters@, servers@).dom().contains(
                (#[trigger] graph@.vertexes[i]).1.client_id,
            ),
    ensures
        !placement_ok(clusters@, servers@) ==> (r matches Err(m) && m@
            == "can't partition the network graph: not enough resource"@),
        placement_ok(clusters@, servers@) ==> (r matches Ok((vs, items)) && {
            let infos = values_of(graph@.vertexes);
            let assignment = placement(graph@.vertexes, clusters@, servers@);
            &&& vs@.len() == infos.len()
            &&& items@.len() == infos.len()
            &&& forall|i: int|
                0 <= i < vs@.len() ==> {
                    &&& (#[trigger] vs@[i]).client_info == infos[i]
                    &&& vs@[i].uuid == uuids@[i]
                    &&& vs@[i].server_uuid == assignment[infos[i].client_id]
                    &&& items@[i] matches BulkInsertItem::Vertex(v) && v.id == uuids@[i] && v.t.0@ == "t"@
                }
        }),
{
    let assignment = match graph.assign_bins(clusters, servers) {
        Ok(a) => a,
        Err(msg) => {
            let report = partition_failure(msg.as_str());
            proof {
                reveal_strlit("not enough resource");
                reveal_strlit("can't partition the network graph: ");
                reveal_strlit("can't partition the network graph: not enough resource");
                assert(report@ =~= "can't partition the network graph: not enough resource"@);
            }
            return Err(report);
        },
    };
    let ghost gv = graph@;
    let (infos, _) = graph.into();
    assert forall|i: int| 0 <= i < infos@.len() implies assignment@.contains_key(
        #[trigger] infos@[i].client_id,
    ) by {
        assert(infos@[i] == gv.vertexes[i].1);
    }
    let vertexes = build_vertexes(infos, uuids, &assignment);
    let items = vertex_items(&vertexes);
    Ok((vertexes, items))
}

} // verus!
