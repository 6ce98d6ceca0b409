//! How each query is written as its wire message.

use vstd::prelude::*;
use crate::database_new::indradb::indradb_util::{
    BulkInsertItem, BulkInsertItemMsg, EdgeDirection, EdgeDirectionMsg, EdgeKey, EdgeKeyMsg,
    EdgePropertyQuery, EdgePropertyQueryMsg, EdgeQuery, EdgeQueryMsg, Type, Uuid, Vertex,
    VertexMsg, VertexPropertyQuery, VertexPropertyQueryMsg, VertexQuery, VertexQueryMsg,
};

verus! {

/// The bytes of an optional id as written: empty when unset.
pub open spec fn opt_id_bytes(u: Option<Uuid>) -> Seq<u8> {
    match u {
        Some(u) => u.0@,
        None => Seq::empty(),
    }
}

/// The text of an optional type as written: empty when unset.
pub open spec fn opt_type_text(t: Option<Type>) -> Seq<char> {
    match t {
        Some(t) => t.0@,
        None => Seq::empty(),
    }
}

/// A time bound as written: nanoseconds taken as an unsigned number, zero
/// when unset.
pub open spec fn opt_time(t: Option<i64>) -> u64 {
    match t {
        Some(n) => n as u64,
        None => 0,
    }
}

pub open spec fn direction_msg(d: EdgeDirection) -> EdgeDirectionMsg {
    match d {
        EdgeDirection::Outbound => EdgeDirectionMsg::Outbound,
        EdgeDirection::Inbound => EdgeDirectionMsg::Inbound,
    }
}

pub open spec fn vertex_written(v: Vertex, m: VertexMsg) -> bool {
    m.id@ == v.id.0@ && m.t@ == v.t.0@
}

pub open spec fn edge_key_written(k: EdgeKey, m: EdgeKeyMsg) -> bool {
    &&& m.outbound_id@ == k.outbound_id.0@
    &&& m.t@ == k.t.0@
    &&& m.inbound_id@ == k.inbound_id.0@
}

/// `m` is the message that query `q` is written as.
pub open spec fn vertex_query_written(q: VertexQuery, m: VertexQueryMsg) -> bool
    decreases q,
{
    match q {
        VertexQuery::Range(r) => match m {
            VertexQueryMsg::Range { start_id, t, limit } => start_id@ == opt_id_bytes(r.start_id)
                && t@ == opt_type_text(r.t) && limit == r.limit,
            _ => false,
        },
        VertexQuery::Specific(s) => match m {
            VertexQueryMsg::Specific { ids } => ids@.len() == s.ids@.len() && forall|i: int|
                0 <= i < ids@.len() ==> (#[trigger] ids@[i])@ == s.ids@[i].0@,
            _ => false,
        },
        VertexQuery::Pipe(p) => match m {
            VertexQueryMsg::Pipe { inner, direction, limit, t } => direction == direction_msg(
                p.direction,
            ) && limit == p.limit && t@ == opt_type_text(p.t) && edge_query_written(
                *p.inner,
                *inner,
            ),
            _ => false,
        },
    }
}

/// `m` is the message that query `q` is written as.
pub open spec fn edge_query_written(q: EdgeQuery, m: EdgeQueryMsg) -> bool
    decreases q,
{
    match q {
        EdgeQuery::Specific(s) => match m {
            EdgeQueryMsg::Specific { keys } => keys@.len() == s.keys@.len() && forall|i: int|
                0 <= i < keys@.len() ==> edge_key_written(s.keys@[i], #[trigger] keys@[i]),
            _ => false,
        },
        EdgeQuery::Pipe(p) => match m {
            EdgeQueryMsg::Pipe { inner, direction, t, high, low, limit } => direction
                == direction_msg(p.direction) && t@ == opt_type_text(p.t) && high == opt_time(
                p.high,
            ) && low == opt_time(p.low) && limit == p.limit && vertex_query_written(
                *p.inner,
                *inner,
            ),
            _ => false,
        },
    }
}

pub open spec fn bulk_item_written(item: BulkInsertItem, m: BulkInsertItemMsg) -> bool {
    match item {
        BulkInsertItem::Vertex(v) => m matches BulkInsertItemMsg::Vertex { vertex } && vertex_written(
            v,
            vertex,
        ),
        BulkInsertItem::Edge(k) => m matches BulkInsertItemMsg::Edge { key } && edge_key_written(
            k,
            key,
        ),
        BulkInsertItem::VertexProperty(id, name, value) => m matches BulkInsertItemMsg::VertexProperty {
            id: mid,
            name: mname,
            value: mvalue,
        } && mid@ == id.0@ && mname@ == name@ && mvalue@ == value@,
        BulkInsertItem::EdgeProperty(k, name, value) => m matches BulkInsertItemMsg::EdgeProperty {
            key,
            name: mname,
            value: mvalue,
        } && edge_key_written(k, key) && mname@ == name@ && mvalue@ == value@,
    }
}

// ---- writers ----

fn id_bytes(id: &Uuid) -> (r: Vec<u8>)
    ensures
        r@ == id.0@,
{
    let mut out: Vec<u8> = Vec::new();
    let mut i: usize = 0;
    while i < 16
        invariant
            i <= 16,
            id.0@.len() == 16,
            out@ == id.0@.take(i as int),
        decreases 16 - i,
    {
        out.push(id.0[i]);
        assert(id.0@.take(i as int + 1) == id.0@.take(i as int).push(id.0@[i as int]));
        i += 1;
    }
    assert(id.0@.take(16) == id.0@);
    out
}

fn opt_id(id: &Option<Uuid>) -> (r: Vec<u8>)
    ensures
        r@ == opt_id_bytes(*id),
{
    match id {
        Some(u) => id_bytes(u),
        None => Vec::new(),
    }
}

fn opt_type(t: &Option<Type>) -> (r: String)
    ensures
        r@ == opt_type_text(*t),
{
    match t {
        Some(t) => t.0.clone(),
        None => String::new(),
    }
}

fn opt_timestamp(t: Option<i64>) -> (r: u64)
    ensures
        r == opt_time(t),
{
    match t {
        Some(n) => n as u64,
        None => 0,
    }
}

pub fn from_vertex(vertex: &Vertex) -> (r: VertexMsg)
    ensures
        vertex_written(*vertex, r),
{
    VertexMsg { id: id_bytes(&vertex.id), t: vertex.t.0.clone() }
}

pub fn from_edge_key(key: &EdgeKey) -> (r: EdgeKeyMsg)
    ensures
        edge_key_written(*key, r),
{
    EdgeKeyMsg {
        outbound_id: id_bytes(&key.outbound_id),
        t: key.t.0.clone(),
        inbound_id: id_bytes(&key.inbound_id),
    }
}

pub fn from_edge_direction(direction: &EdgeDirection) -> (r: EdgeDirectionMsg)
    ensures
        r == direction_msg(*direction),
{
    match direction {
        EdgeDirection::Outbound => EdgeDirectionMsg::Outbound,
        EdgeDirection::Inbound => EdgeDirectionMsg::Inbound,
    }
}

pub fn from_vertex_query(q: &VertexQuery) -> (r: VertexQueryMsg)
    ensures
        vertex_query_written(*q, r),
    decreases q,
{
    match q {
        VertexQuery::Range(rq) => VertexQueryMsg::Range {
            start_id: opt_id(&rq.start_id),
            t: opt_type(&rq.t),
            limit: rq.limit,
        },
        VertexQuery::Specific(sq) => {
            let mut ids: Vec<Vec<u8>> = Vec::new();
            let mut i: usize = 0;
            while i < sq.ids.len()
                invariant
                    i <= sq.ids@.len(),
                    ids@.len() == i,
                    forall|j: int| 0 <= j < i ==> (#[trigger] ids@[j])@ == sq.ids@[j].0@,
                decreases sq.ids@.len() - i,
            {
                ids.push(id_bytes(&sq.ids[i]));
                i += 1;
            }
            VertexQueryMsg::Specific { ids }
        },
        VertexQuery::Pipe(pq) => {
            let inner = from_edge_query(&pq.inner);
            VertexQueryMsg::Pipe {
                inner: Box::new(inner),
                direction: from_edge_direction(&pq.direction),
                limit: pq.limit,
                t: opt_type(&pq.t),
            }
        },
    }
}

pub fn from_edge_query(q: &EdgeQuery) -> (r: EdgeQueryMsg)
    ensures
        edge_query_written(*q, r),
        *q matches EdgeQuery::Specific(s) ==> (r matches EdgeQueryMsg::Specific { keys } && keys@.len()
            == s.keys@.len() && forall|i: int|
            0 <= i < keys@.len() ==> {
                &&& (#[trigger] keys@[i]).outbound_id@ == s.keys@[i].outbound_id.0@
                &&& keys@[i].t@ == s.keys@[i].t.0@
                &&& keys@[i].inbound_id@ == s.keys@[i].inbound_id.0@
            }),
    decreases q,
{
    match q {
        EdgeQuery::Specific(sq) => {
            let mut keys: Vec<EdgeKeyMsg> = Vec::new();
            let mut i: usize = 0;
            while i < sq.keys.len()
                invariant
                    i <= sq.keys@.len(),
                    keys@.len() == i,
                    forall|j: int| 0 <= j < i ==> edge_key_written(sq.keys@[j], #[trigger] keys@[j]),
                decreases sq.keys@.len() - i,
            {
                keys.push(from_edge_key(&sq.keys[i]));
                i += 1;
            }
            EdgeQueryMsg::Specific { keys }
        },
        EdgeQuery::Pipe(pq) => {
            let inner = from_vertex_query(&pq.inner);
            EdgeQueryMsg::Pipe {
                inner: Box::new(inner),
                direction: from_edge_direction(&pq.direction),
                t: opt_type(&pq.t),
                high: opt_timestamp(pq.high),
                low: opt_timestamp(pq.low),
                limit: pq.limit,
            }
        },
    }
}

pub fn from_vertex_property_query(q: &VertexPropertyQuery) -> (r: VertexPropertyQueryMsg)
    ensures
        r.name@ == q.name@,
        vertex_query_written(q.inner, r.inner),
{
    VertexPropertyQueryMsg { name: q.name.clone(), inner: from_vertex_query(&q.inner) }
}

pub fn from_edge_property_query(q: &EdgePropertyQuery) -> (r: EdgePropertyQueryMsg)
    ensures
        r.name@ == q.name@,
        edge_query_written(q.inner, r.inner),
{
    EdgePropertyQueryMsg { name: q.name.clone(), inner: from_edge_query(&q.inner) }
}

pub fn from_bulk_insert_item(item: &BulkInsertItem) -> (r: BulkInsertItemMsg)
    ensures
        bulk_item_written(*item, r),
        *item matches BulkInsertItem::Edge(k) ==> (r matches BulkInsertItemMsg::Edge { key }
            && key.outbound_id@ == k.outbound_id.0@ && key.t@ == k.t.0@ && key.inbound_id@
            == k.inbound_id.0@),
        *item matches BulkInsertItem::EdgeProperty(k, name, value) ==> (
        r matches BulkInsertItemMsg::EdgeProperty { key, name: mname, value: mvalue }
            && key.outbound_id@ == k.outbound_id.0@ && key.t@ == k.t.0@ && key.inbound_id@
            == k.inbound_id.0@ && mname@ == name@ && mvalue@ == value@),
{
    match item {
        BulkInsertItem::Vertex(vertex) => BulkInsertItemMsg::Vertex { vertex: from_vertex(vertex) },
        BulkInsertItem::Edge(edge) => BulkInsertItemMsg::Edge { key: from_edge_key(edge) },
        BulkInsertItem::VertexProperty(id, name, value) => BulkInsertItemMsg::VertexProperty {
            id: id_bytes(id),
            name: name.clone(),
            value: value.clone(),
        },
        BulkInsertItem::EdgeProperty(key, name, value) => BulkInsertItemMsg::EdgeProperty {
            key: from_edge_key(key),
            name: name.clone(),
            value: value.clone(),
        },
    }
}

/// Write every item of a bulk insertion, in order.
pub fn from_bulk_insert_items(items: &[BulkInsertItem]) -> (r: Vec<BulkInsertItemMsg>)
    ensures
        r@.len() == items@.len(),
        forall|i: int| 0 <= i < items@.len() ==> bulk_item_written(items@[i], #[trigger] r@[i]),
{
    let mut out: Vec<BulkInsertItemMsg> = Vec::new();
    let mut i: usize = 0;
    while i < items.len()
        invariant
            i <= items@.len(),
            out@.len() == i,
            forall|j: int| 0 <= j < i ==> bulk_item_written(items@[j], #[trigger] out@[j]),
        decreases items@.len() - i,
    {
        out.push(from_bulk_insert_item(&items[i]));
        i += 1;
    }
    out
}

} // verus!
