//! Queries of the graph database, and the wire messages they are sent as.
//!
//! A message field that a query leaves unset keeps its default on the wire:
//! empty bytes, empty text, or zero.

use vstd::prelude::*;

pub mod converters;
pub mod readers;

verus! {

/// A 128-bit identifier, as its 16 bytes.
#[derive(Clone, Copy)]
pub struct Uuid(pub [u8; 16]);

/// The type name of a vertex or an edge.
pub struct Type(pub String);

pub struct Vertex {
    pub id: Uuid,
    pub t: Type,
}

/// An edge: its outbound vertex, its type, and its inbound vertex.
pub struct EdgeKey {
    pub outbound_id: Uuid,
    pub t: Type,
    pub inbound_id: Uuid,
}

pub enum EdgeDirection {
    Outbound,
    Inbound,
}

/// Vertexes in id order, from `start_id` on, of type `t`, at most `limit`.
pub struct RangeVertexQuery {
    pub limit: u32,
    pub t: Option<Type>,
    pub start_id: Option<Uuid>,
}

pub struct SpecificVertexQuery {
    pub ids: Vec<Uuid>,
}

/// The vertexes at one end of the edges that `inner` selects.
pub struct PipeVertexQuery {
    pub inner: Box<EdgeQuery>,
    pub direction: EdgeDirection,
    pub limit: u32,
    pub t: Option<Type>,
}

pub enum VertexQuery {
    Range(RangeVertexQuery),
    Specific(SpecificVertexQuery),
    Pipe(PipeVertexQuery),
}

pub struct SpecificEdgeQuery {
    pub keys: Vec<EdgeKey>,
}

/// The edges at the vertexes that `inner` selects; `high` and `low` bound
/// their creation times, in nanoseconds since the Unix epoch.
pub struct PipeEdgeQuery {
    pub inner: Box<VertexQuery>,
    pub direction: EdgeDirection,
    pub t: Option<Type>,
    pub high: Option<i64>,
    pub low: Option<i64>,
    pub limit: u32,
}

pub enum EdgeQuery {
    Specific(SpecificEdgeQuery),
    Pipe(PipeEdgeQuery),
}

pub struct VertexPropertyQuery {
    pub inner: VertexQuery,
    pub name: String,
}

pub struct EdgePropertyQuery {
    pub inner: EdgeQuery,
    pub name: String,
}

/// An edge and when it was created, in seconds since the Unix epoch.
pub struct Edge {
    pub key: EdgeKey,
    pub created_datetime: i64,
}

/// A property of a vertex; its value is JSON text.
pub struct VertexProperty {
    pub id: Uuid,
    pub value: String,
}

/// A property of an edge; its value is JSON text.
pub struct EdgeProperty {
    pub key: EdgeKey,
    pub value: String,
}

/// A named property; its value is JSON text.
pub struct NamedProperty {
    pub name: String,
    pub value: String,
}

/// A vertex with its properties.
pub struct VertexProperties {
    pub vertex: Vertex,
    pub props: Vec<NamedProperty>,
}

/// An edge with its properties.
pub struct EdgeProperties {
    pub edge: Edge,
    pub props: Vec<NamedProperty>,
}

/// One item of a bulk insertion; property values are JSON text.
pub enum BulkInsertItem {
    Vertex(Vertex),
    Edge(EdgeKey),
    VertexProperty(Uuid, String, String),
    EdgeProperty(EdgeKey, String, String),
}

// ---- wire messages ----

pub struct VertexMsg {
    pub id: Vec<u8>,
    pub t: String,
}

pub struct EdgeKeyMsg {
    pub outbound_id: Vec<u8>,
    pub t: String,
    pub inbound_id: Vec<u8>,
}

pub struct EdgeMsg {
    pub key: EdgeKeyMsg,
    pub created_datetime: u64,
}

pub struct VertexPropertyMsg {
    pub id: Vec<u8>,
    pub value: String,
}

pub struct EdgePropertyMsg {
    pub key: EdgeKeyMsg,
    pub value: String,
}

pub struct PropertyMsg {
    pub name: String,
    pub value: String,
}

pub struct VertexPropertiesMsg {
    pub vertex: VertexMsg,
    pub props: Vec<PropertyMsg>,
}

pub struct EdgePropertiesMsg {
    pub edge: EdgeMsg,
    pub props: Vec<PropertyMsg>,
}

pub enum EdgeDirectionMsg {
    Outbound,
    Inbound,
}

pub enum VertexQueryMsg {
    Range { start_id: Vec<u8>, t: String, limit: u32 },
    Specific { ids: Vec<Vec<u8>> },
    Pipe { inner: Box<EdgeQueryMsg>, direction: EdgeDirectionMsg, limit: u32, t: String },
}

pub enum EdgeQueryMsg {
    Specific { keys: Vec<EdgeKeyMsg> },
    Pipe {
        inner: Box<VertexQueryMsg>,
        direction: EdgeDirectionMsg,
        t: String,
        high: u64,
        low: u64,
        limit: u32,
    },
}

pub struct VertexPropertyQueryMsg {
    pub name: String,
    pub inner: VertexQueryMsg,
}

pub struct EdgePropertyQueryMsg {
    pub name: String,
    pub inner: EdgeQueryMsg,
}

pub enum BulkInsertItemMsg {
    Vertex { vertex: VertexMsg },
    Edge { key: EdgeKeyMsg },
    VertexProperty { id: Vec<u8>, name: String, value: String },
    EdgeProperty { key: EdgeKeyMsg, name: String, value: String },
}

/// A transaction of the database, through which the queries above are sent.
pub struct ClientTransaction<T> {
    pub trans: T,
}

impl<T> ClientTransaction<T> {
    pub fn new(trans: T) -> (r: Self)
        ensures
            r.trans == trans,
    {
        ClientTransaction { trans }
    }
}

} // verus!
