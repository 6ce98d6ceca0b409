//! How a wire message is read back into a vertex, an edge or a property:
//! ids must hold sixteen bytes, type names must be valid, property values
//! must be JSON and creation times must be representable, else the reading
//! fails with the text of the first error met.

use chrono::TimeZone;
use vstd::prelude::*;
use crate::decimal::decimal;
use crate::database_new::indradb::indradb_util::{
    BulkInsertItem, BulkInsertItemMsg, Edge, EdgeKey, EdgeKeyMsg, EdgeQuery, EdgeQueryMsg, EdgeMsg, EdgeProperties, EdgePropertiesMsg, EdgeProperty,
    EdgePropertyMsg, NamedProperty, PropertyMsg, Type, Uuid, Vertex, VertexMsg, VertexProperties,
    VertexPropertiesMsg, VertexProperty, VertexPropertyMsg,
};
use crate::database_new::indradb::indradb_util::converters::{
    bulk_item_written, edge_key_written, edge_query_written, vertex_written,
};

verus! {

/// The text of the error for an id of `found` bytes.
pub open spec fn id_length_message(found: nat) -> Seq<char> {
    "invalid bytes length: expected 16, found "@ + decimal(found)
}

/// The characters a type name may hold: ASCII letters and digits, '-', '_'.
pub open spec fn type_char_ok(c: char) -> bool {
    ||| ('a' <= c && c <= 'z')
    ||| ('A' <= c && c <= 'Z')
    ||| ('0' <= c && c <= '9')
    ||| c == '-'
    ||| c == '_'
}

/// The number of bytes that `c` takes in UTF-8.
pub open spec fn utf8_width(c: char) -> nat {
    if (c as u32) < 0x80 {
        1
    } else if (c as u32) < 0x800 {
        2
    } else if (c as u32) < 0x10000 {
        3
    } else {
        4
    }
}

/// The number of bytes that `s` takes in UTF-8.
pub open spec fn utf8_len(s: Seq<char>) -> nat
    decreases s.len(),
{
    if s.len() == 0 {
        0
    } else {
        utf8_len(s.drop_last()) + utf8_width(s.last())
    }
}

/// A valid type name: at most 255 bytes, not empty, and made of the
/// characters above only.
pub open spec fn type_name_valid(s: Seq<char>) -> bool {
    &&& utf8_len(s) <= 255
    &&& s.len() > 0
    &&& forall|i: int| 0 <= i < s.len() ==> type_char_ok(#[trigger] s[i])
}

/// The text of the error for an invalid type name.
pub open spec fn type_name_error(s: Seq<char>) -> Seq<char> {
    if utf8_len(s) > 255 {
        "value too long"@
    } else {
        "invalid value"@
    }
}

/// Calls `uuid::Uuid::from_slice`. Trusted: it gives the id made of the
/// bytes when there are sixteen of them, and otherwise an error whose text
/// names sixteen and the number of bytes found.
#[verifier::external_body]
pub(crate) fn uuid_from_slice(bytes: &[u8]) -> (r: Result<Uuid, String>)
    ensures
        match r {
            Ok(u) => bytes@.len() == 16 && u.0@ == bytes@,
            Err(msg) => bytes@.len() != 16 && msg@ == id_length_message(bytes@.len()),
        },
{
    match uuid::Uuid::from_slice(bytes) {
        Ok(u) => Ok(Uuid(*u.as_bytes())),
        Err(e) => Err(format!("{}", e)),
    }
}

/// Calls `indradb::Type::new`. Trusted: it accepts a name of at most 255
/// bytes that matches `^[a-zA-Z0-9-_]+$` and keeps it; it refuses a longer
/// name as too long, and any other as invalid, with the error's text.
#[verifier::external_body]
pub(crate) fn type_from_name(name: &str) -> (r: Result<Type, String>)
    ensures
        match r {
            Ok(t) => type_name_valid(name@) && t.0@ == name@,
            Err(msg) => !type_name_valid(name@) && msg@ == type_name_error(name@),
        },
{
    match indradb::Type::new(name) {
        Ok(t) => Ok(Type(t.0)),
        Err(e) => Err(format!("{}", e)),
    }
}

/// What reading a vertex message with id bytes `id` and type text `t`
/// gives: the id and the type, or the text of the first error.
pub open spec fn read_vertex(id: Seq<u8>, t: Seq<char>) -> Result<(Seq<u8>, Seq<char>), Seq<char>> {
    if id.len() != 16 {
        Err(id_length_message(id.len()))
    } else if !type_name_valid(t) {
        Err(type_name_error(t))
    } else {
        Ok((id, t))
    }
}

/// What reading an edge key message gives: the two ids and the type, or the
/// text of the first error, met in the order outbound id, type, inbound id.
pub open spec fn read_edge_key(out_id: Seq<u8>, t: Seq<char>, in_id: Seq<u8>) -> Result<
    (Seq<u8>, Seq<char>, Seq<u8>),
    Seq<char>,
> {
    if out_id.len() != 16 {
        Err(id_length_message(out_id.len()))
    } else if !type_name_valid(t) {
        Err(type_name_error(t))
    } else if in_id.len() != 16 {
        Err(id_length_message(in_id.len()))
    } else {
        Ok((out_id, t, in_id))
    }
}

pub open spec fn vertex_result_view(r: Result<Vertex, String>) -> Result<
    (Seq<u8>, Seq<char>),
    Seq<char>,
> {
    match r {
        Ok(v) => Ok((v.id.0@, v.t.0@)),
        Err(e) => Err(e@),
    }
}

pub open spec fn edge_key_result_view(r: Result<EdgeKey, String>) -> Result<
    (Seq<u8>, Seq<char>, Seq<u8>),
    Seq<char>,
> {
    match r {
        Ok(k) => Ok((k.outbound_id.0@, k.t.0@, k.inbound_id.0@)),
        Err(e) => Err(e@),
    }
}

/// Reads a vertex: its id, then its type.
pub fn to_vertex(m: &VertexMsg) -> (r: Result<Vertex, String>)
    ensures
        vertex_result_view(r) == read_vertex(m.id@, m.t@),
{
    let id = match uuid_from_slice(m.id.as_slice()) {
        Ok(id) => id,
        Err(e) => return Err(e),
    };
    let t = match type_from_name(m.t.as_str()) {
        Ok(t) => t,
        Err(e) => return Err(e),
    };
    Ok(Vertex { id, t })
}

/// Reads an edge key: its outbound id, its type, then its inbound id.
pub fn to_edge_key(m: &EdgeKeyMsg) -> (r: Result<EdgeKey, String>)
    ensures
        edge_key_result_view(r) == read_edge_key(m.outbound_id@, m.t@, m.inbound_id@),
{
    let outbound_id = match uuid_from_slice(m.outbound_id.as_slice()) {
        Ok(id) => id,
        Err(e) => return Err(e),
    };
    let t = match type_from_name(m.t.as_str()) {
        Ok(t) => t,
        Err(e) => return Err(e),
    };
    let inbound_id = match uuid_from_slice(m.inbound_id.as_slice()) {
        Ok(id) => id,
        Err(e) => return Err(e),
    };
    Ok(EdgeKey { outbound_id, t, inbound_id })
}

/// A vertex written as a message reads back as the same vertex, when its
/// type name is valid.
pub proof fn lemma_vertex_round_trip(v: Vertex, m: VertexMsg)
    requires
        vertex_written(v, m),
        type_name_valid(v.t.0@),
    ensures
        read_vertex(m.id@, m.t@) == Ok::<(Seq<u8>, Seq<char>), Seq<char>>((v.id.0@, v.t.0@)),
{
}

/// An edge key written as a message reads back as the same key, when its
/// type name is valid.
pub proof fn lemma_edge_key_round_trip(k: EdgeKey, m: EdgeKeyMsg)
    requires
        edge_key_written(k, m),
        type_name_valid(k.t.0@),
    ensures
        read_edge_key(m.outbound_id@, m.t@, m.inbound_id@) == Ok::<
            (Seq<u8>, Seq<char>, Seq<u8>),
            Seq<char>,
        >((k.outbound_id.0@, k.t.0@, k.inbound_id.0@)),
{
}

/// What `serde_json::from_str` reports for `text` read as a JSON value:
/// `None` when it parses, else the text of its error.
pub uninterp spec fn json_error(text: Seq<char>) -> Option<Seq<char>>;

/// What `chrono::Utc.timestamp_opt(secs, 0)` gives, as seconds since the
/// Unix epoch: `None` when the time is out of chrono's range.
pub uninterp spec fn utc_from_timestamp(secs: i64) -> Option<i64>;

/// Calls `serde_json::from_str::<serde_json::Value>`. Trusted: it fails
/// exactly when `json_error` names an error, with that error's text.
#[verifier::external_body]
pub(crate) fn json_check(text: &str) -> (r: Result<(), String>)
    ensures
        match r {
            Ok(_) => json_error(text@) is None,
            Err(m) => json_error(text@) == Some(m@),
        },
{
    match serde_json::from_str::<serde_json::Value>(text) {
        Ok(_) => Ok(()),
        Err(e) => Err(format!("{}", e)),
    }
}

/// Calls `chrono::Utc.timestamp_opt(secs, 0)` and reads the time back as
/// seconds. Trusted: its result is `utc_from_timestamp(secs)`, and a time it
/// gives reads back as `secs`, as chrono documents the round trip.
#[verifier::external_body]
pub(crate) fn utc_timestamp(secs: i64) -> (r: Option<i64>)
    ensures
        r == utc_from_timestamp(secs),
        r matches Some(t) ==> t == secs,
{
    match chrono::Utc.timestamp_opt(secs, 0).single() {
        Some(dt) => Some(dt.timestamp()),
        None => None,
    }
}

/// The outcome of reading `text` as JSON.
pub open spec fn json_result(text: Seq<char>) -> Result<(), Seq<char>> {
    match json_error(text) {
        None => Ok(()),
        Some(e) => Err(e),
    }
}

pub open spec fn unit_result_view(r: Result<(), String>) -> Result<(), Seq<char>> {
    match r {
        Ok(_) => Ok(()),
        Err(e) => Err(e@),
    }
}

/// Reading a vertex property: its id, then its value, whose JSON check gave
/// `json`.
pub open spec fn read_vertex_property(id: Seq<u8>, value: Seq<char>, json: Result<(), Seq<char>>) -> Result<
    (Seq<u8>, Seq<char>),
    Seq<char>,
> {
    if id.len() != 16 {
        Err(id_length_message(id.len()))
    } else {
        match json {
            Err(e) => Err(e),
            Ok(_) => Ok((id, value)),
        }
    }
}

/// Reading a named property whose value's JSON check gave `json`.
pub open spec fn read_named_property(name: Seq<char>, value: Seq<char>, json: Result<(), Seq<char>>) -> Result<
    (Seq<char>, Seq<char>),
    Seq<char>,
> {
    match json {
        Err(e) => Err(e),
        Ok(_) => Ok((name, value)),
    }
}

/// Reading an edge property: its key, then its value, whose JSON check gave
/// `json`.
pub open spec fn read_edge_property(key: EdgeKeyMsg, value: Seq<char>, json: Result<(), Seq<char>>) -> Result<
    ((Seq<u8>, Seq<char>, Seq<u8>), Seq<char>),
    Seq<char>,
> {
    match read_edge_key(key.outbound_id@, key.t@, key.inbound_id@) {
        Err(e) => Err(e),
        Ok(k) => match json {
            Err(e) => Err(e),
            Ok(_) => Ok((k, value)),
        },
    }
}

/// Reading an edge: its key, then its creation time, the seconds taken as a
/// signed number.
pub open spec fn read_edge(m: EdgeMsg) -> Result<((Seq<u8>, Seq<char>, Seq<u8>), i64), Seq<char>> {
    match read_edge_key(m.key.outbound_id@, m.key.t@, m.key.inbound_id@) {
        Err(e) => Err(e),
        Ok(k) => Ok((k, m.created_datetime as i64)),
    }
}

/// The creation time of an edge whose key reads can be represented.
pub open spec fn edge_time_ok(m: EdgeMsg) -> bool {
    read_edge_key(m.key.outbound_id@, m.key.t@, m.key.inbound_id@) is Ok ==> utc_from_timestamp(
        m.created_datetime as i64,
    ) is Some
}

/// Reading a list of named properties in order; the first error wins.
pub open spec fn read_props(ps: Seq<PropertyMsg>) -> Result<Seq<(Seq<char>, Seq<char>)>, Seq<char>>
    decreases ps.len(),
{
    if ps.len() == 0 {
        Ok(Seq::empty())
    } else {
        match read_props(ps.drop_last()) {
            Err(e) => Err(e),
            Ok(done) => match read_named_property(ps.last().name@, ps.last().value@, json_result(ps.last().value@)) {
                Err(e) => Err(e),
                Ok(p) => Ok(done.push(p)),
            },
        }
    }
}

pub open spec fn props_view(ps: Seq<NamedProperty>) -> Seq<(Seq<char>, Seq<char>)> {
    ps.map_values(|p: NamedProperty| (p.name@, p.value@))
}

pub open spec fn edge_view(e: Edge) -> ((Seq<u8>, Seq<char>, Seq<u8>), i64) {
    ((e.key.outbound_id.0@, e.key.t.0@, e.key.inbound_id.0@), e.created_datetime)
}

pub open spec fn vertex_property_result_view(r: Result<VertexProperty, String>) -> Result<
    (Seq<u8>, Seq<char>),
    Seq<char>,
> {
    match r {
        Ok(p) => Ok((p.id.0@, p.value@)),
        Err(e) => Err(e@),
    }
}

pub open spec fn named_property_result_view(r: Result<NamedProperty, String>) -> Result<
    (Seq<char>, Seq<char>),
    Seq<char>,
> {
    match r {
        Ok(p) => Ok((p.name@, p.value@)),
        Err(e) => Err(e@),
    }
}

pub open spec fn edge_property_result_view(r: Result<EdgeProperty, String>) -> Result<
    ((Seq<u8>, Seq<char>, Seq<u8>), Seq<char>),
    Seq<char>,
> {
    match r {
        Ok(p) => Ok(((p.key.outbound_id.0@, p.key.t.0@, p.key.inbound_id.0@), p.value@)),
        Err(e) => Err(e@),
    }
}

pub open spec fn edge_result_view(r: Result<Edge, String>) -> Result<
    ((Seq<u8>, Seq<char>, Seq<u8>), i64),
    Seq<char>,
> {
    match r {
        Ok(e) => Ok(edge_view(e)),
        Err(e) => Err(e@),
    }
}

pub open spec fn props_result_view(r: Result<Vec<NamedProperty>, String>) -> Result<
    Seq<(Seq<char>, Seq<char>)>,
    Seq<char>,
> {
    match r {
        Ok(ps) => Ok(props_view(ps@)),
        Err(e) => Err(e@),
    }
}

/// Reads a vertex property whose value's JSON check gave `json`.
pub fn vertex_property_with(m: &VertexPropertyMsg, json: Result<(), String>) -> (r: Result<
    VertexProperty,
    String,
>)
    ensures
        vertex_property_result_view(r) == read_vertex_property(m.id@, m.value@, unit_result_view(json)),
{
    let id = match uuid_from_slice(m.id.as_slice()) {
        Ok(id) => id,
        Err(e) => return Err(e),
    };
    match json {
        Err(e) => Err(e),
        Ok(_) => Ok(VertexProperty { id, value: m.value.clone() }),
    }
}

/// Reads a vertex property: its id, then its value as JSON.
pub fn to_vertex_property(m: &VertexPropertyMsg) -> (r: Result<VertexProperty, String>)
    ensures
        vertex_property_result_view(r) == read_vertex_property(m.id@, m.value@, json_result(m.value@)),
{
    let json = json_check(m.value.as_str());
    vertex_property_with(m, json)
}

/// Reads a named property whose value's JSON check gave `json`.
pub fn named_property_with(m: &PropertyMsg, json: Result<(), String>) -> (r: Result<NamedProperty, String>)
    ensures
        named_property_result_view(r) == read_named_property(m.name@, m.value@, unit_result_view(json)),
{
    match json {
        Err(e) => Err(e),
        Ok(_) => Ok(NamedProperty { name: m.name.clone(), value: m.value.clone() }),
    }
}

/// Reads a named property: its value must be JSON.
pub fn to_named_property(m: &PropertyMsg) -> (r: Result<NamedProperty, String>)
    ensures
        named_property_result_view(r) == read_named_property(m.name@, m.value@, json_result(m.value@)),
{
    let json = json_check(m.value.as_str());
    named_property_with(m, json)
}

/// Reads an edge property whose value's JSON check gave `json`.
pub fn edge_property_with(m: &EdgePropertyMsg, json: Result<(), String>) -> (r: Result<EdgeProperty, String>)
    ensures
        edge_property_result_view(r) == read_edge_property(m.key, m.value@, unit_result_view(json)),
{
    let key = match to_edge_key(&m.key) {
        Ok(k) => k,
        Err(e) => return Err(e),
    };
    match json {
        Err(e) => Err(e),
        Ok(_) => Ok(EdgeProperty { key, value: m.value.clone() }),
    }
}

/// Reads an edge property: its key, then its value as JSON.
pub fn to_edge_property(m: &EdgePropertyMsg) -> (r: Result<EdgeProperty, String>)
    ensures
        edge_property_result_view(r) == read_edge_property(m.key, m.value@, json_result(m.value@)),
{
    let json = json_check(m.value.as_str());
    edge_property_with(m, json)
}

/// A list of properties that fails from position `i` on fails the same way
/// as a whole.
proof fn lemma_props_error_stays(ps: Seq<PropertyMsg>, i: int)
    requires
        0 <= i <= ps.len(),
        read_props(ps.take(i)) is Err,
    ensures
        read_props(ps) == read_props(ps.take(i)),
    decreases ps.len() - i,
{
    if i < ps.len() {
        assert(ps.take(i + 1).drop_last() == ps.take(i));
        lemma_props_error_stays(ps, i + 1);
    } else {
        assert(ps.take(i) == ps);
    }
}

/// Reads a list of named properties in order, stopping at the first error.
pub fn to_named_properties(props: &Vec<PropertyMsg>) -> (r: Result<Vec<NamedProperty>, String>)
    ensures
        props_result_view(r) == read_props(props@),
{
    let mut out: Vec<NamedProperty> = Vec::new();
    let mut i: usize = 0;
    assert(props@.take(0) == Seq::<PropertyMsg>::empty());
    assert(props_view(out@) =~= Seq::<(Seq<char>, Seq<char>)>::empty());
    while i < props.len()
        invariant
            i <= props@.len(),
            read_props(props@.take(i as int)) == Ok::<Seq<(Seq<char>, Seq<char>)>, Seq<char>>(
                props_view(out@),
            ),
        decreases props@.len() - i,
    {
        let p = to_named_property(&props[i]);
        assert(props@.take(i + 1).drop_last() == props@.take(i as int));
        assert(props@.take(i + 1).last() == props@[i as int]);
        match p {
            Err(e) => {
                proof {
                    lemma_props_error_stays(props@, i + 1);
                }
                return Err(e);
            },
            Ok(np) => {
                let ghost before = out@;
                let ghost pv = (np.name@, np.value@);
                out.push(np);
                assert(props_view(out@) =~= props_view(before).push(pv));
            },
        }
        i += 1;
    }
    assert(props@.take(i as int) == props@);
    Ok(out)
}

/// Reads an edge: its key, then its creation time. A key that reads with a
/// time out of chrono's range is left out, as the time cannot be built.
pub fn to_edge(m: &EdgeMsg) -> (r: Result<Edge, String>)
    requires
        edge_time_ok(*m),
    ensures
        edge_result_view(r) == read_edge(*m),
{
    let key = match to_edge_key(&m.key) {
        Ok(k) => k,
        Err(e) => return Err(e),
    };
    let secs = m.created_datetime as i64;
    let created_datetime = utc_timestamp(secs).unwrap();
    Ok(Edge { key, created_datetime })
}

/// Reads an edge as `to_edge` does, and gives `None` where its time cannot
/// be built.
pub fn try_to_edge(m: &EdgeMsg) -> (r: Option<Result<Edge, String>>)
    ensures
        r is None <==> !edge_time_ok(*m),
        r matches Some(e) ==> edge_result_view(e) == read_edge(*m),
{
    match to_edge_key(&m.key) {
        Err(e) => Some(Err(e)),
        Ok(_) => match utc_timestamp(m.created_datetime as i64) {
            None => None,
            Some(_) => Some(to_edge(m)),
        },
    }
}

/// Reading a vertex with its properties: the vertex, then each property.
pub open spec fn read_vertex_properties(m: VertexPropertiesMsg) -> Result<
    ((Seq<u8>, Seq<char>), Seq<(Seq<char>, Seq<char>)>),
    Seq<char>,
> {
    match read_vertex(m.vertex.id@, m.vertex.t@) {
        Err(e) => Err(e),
        Ok(v) => match read_props(m.props@) {
            Err(e) => Err(e),
            Ok(ps) => Ok((v, ps)),
        },
    }
}

/// Reading an edge with its properties: the edge, then each property.
pub open spec fn read_edge_properties(m: EdgePropertiesMsg) -> Result<
    (((Seq<u8>, Seq<char>, Seq<u8>), i64), Seq<(Seq<char>, Seq<char>)>),
    Seq<char>,
> {
    match read_edge(m.edge) {
        Err(e) => Err(e),
        Ok(ed) => match read_props(m.props@) {
            Err(e) => Err(e),
            Ok(ps) => Ok((ed, ps)),
        },
    }
}

pub open spec fn vertex_properties_result_view(r: Result<VertexProperties, String>) -> Result<
    ((Seq<u8>, Seq<char>), Seq<(Seq<char>, Seq<char>)>),
    Seq<char>,
> {
    match r {
        Ok(vp) => Ok(((vp.vertex.id.0@, vp.vertex.t.0@), props_view(vp.props@))),
        Err(e) => Err(e@),
    }
}

pub open spec fn edge_properties_result_view(r: Result<EdgeProperties, String>) -> Result<
    (((Seq<u8>, Seq<char>, Seq<u8>), i64), Seq<(Seq<char>, Seq<char>)>),
    Seq<char>,
> {
    match r {
        Ok(ep) => Ok((edge_view(ep.edge), props_view(ep.props@))),
        Err(e) => Err(e@),
    }
}

/// Reads a vertex and then its properties; the first error wins.
pub fn to_vertex_properties(m: &VertexPropertiesMsg) -> (r: Result<VertexProperties, String>)
    ensures
        vertex_properties_result_view(r) == read_vertex_properties(*m),
{
    let vertex = match to_vertex(&m.vertex) {
        Ok(v) => v,
        Err(e) => return Err(e),
    };
    let props = match to_named_properties(&m.props) {
        Ok(ps) => ps,
        Err(e) => return Err(e),
    };
    Ok(VertexProperties { vertex, props })
}

/// Reads an edge and then its properties; the first error wins.
pub fn to_edge_properties(m: &EdgePropertiesMsg) -> (r: Result<EdgeProperties, String>)
    requires
        edge_time_ok(m.edge),
    ensures
        edge_properties_result_view(r) == read_edge_properties(*m),
{
    let edge = match to_edge(&m.edge) {
        Ok(e) => e,
        Err(e) => return Err(e),
    };
    let props = match to_named_properties(&m.props) {
        Ok(ps) => ps,
        Err(e) => return Err(e),
    };
    Ok(EdgeProperties { edge, props })
}

/// Reads an edge with its properties as `to_edge_properties` does, and gives
/// `None` where the edge's time cannot be built.
pub fn try_to_edge_properties(m: &EdgePropertiesMsg) -> (r: Option<Result<EdgeProperties, String>>)
    ensures
        r is None <==> !edge_time_ok(m.edge),
        r matches Some(e) ==> edge_properties_result_view(e) == read_edge_properties(*m),
{
    match try_to_edge(&m.edge) {
        None => None,
        Some(_) => Some(to_edge_properties(m)),
    }
}

/// The views of an edge key's parts.
pub open spec fn key_parts(k: EdgeKey) -> (Seq<u8>, Seq<char>, Seq<u8>) {
    (k.outbound_id.0@, k.t.0@, k.inbound_id.0@)
}

/// A specific edge query is written with one key per key of the query, in
/// order, and each written key reads back as the query's key when its type
/// name is valid.
pub proof fn lemma_specific_edge_query_reads_back(keys: Seq<EdgeKey>, q: EdgeQuery, m: EdgeQueryMsg)
    requires
        q matches EdgeQuery::Specific(s) && s.keys@ == keys,
        edge_query_written(q, m),
        forall|i: int| 0 <= i < keys.len() ==> type_name_valid(#[trigger] keys[i].t.0@),
    ensures
        m matches EdgeQueryMsg::Specific { keys: mkeys } && mkeys@.len() == keys.len() && forall|i: int|
            0 <= i < keys.len() ==> read_edge_key(
                (#[trigger] mkeys@[i]).outbound_id@,
                mkeys@[i].t@,
                mkeys@[i].inbound_id@,
            ) == Ok::<(Seq<u8>, Seq<char>, Seq<u8>), Seq<char>>(key_parts(keys[i])),
{
    if let EdgeQueryMsg::Specific { keys: mkeys } = m {
        assert forall|i: int| 0 <= i < keys.len() implies read_edge_key(
            (#[trigger] mkeys@[i]).outbound_id@,
            mkeys@[i].t@,
            mkeys@[i].inbound_id@,
        ) == Ok::<(Seq<u8>, Seq<char>, Seq<u8>), Seq<char>>(key_parts(keys[i])) by {
            lemma_edge_key_round_trip(keys[i], mkeys@[i]);
        }
    }
}

/// An edge, or an edge property, written as a bulk insertion item reads back
/// as the same edge key, in the same direction, when its type name is valid;
/// a property keeps its name and value.
pub proof fn lemma_bulk_edge_items_read_back(item: BulkInsertItem, m: BulkInsertItemMsg)
    requires
        bulk_item_written(item, m),
    ensures
        item matches BulkInsertItem::Edge(k) ==> (m matches BulkInsertItemMsg::Edge { key } && (
        type_name_valid(k.t.0@) ==> read_edge_key(key.outbound_id@, key.t@, key.inbound_id@)
            == Ok::<(Seq<u8>, Seq<char>, Seq<u8>), Seq<char>>(key_parts(k)))),
        item matches BulkInsertItem::EdgeProperty(k, name, value) ==> (
        m matches BulkInsertItemMsg::EdgeProperty { key, name: mname, value: mvalue } && mname@
            == name@ && mvalue@ == value@ && (type_name_valid(k.t.0@) ==> read_edge_key(
            key.outbound_id@,
            key.t@,
            key.inbound_id@,
        ) == Ok::<(Seq<u8>, Seq<char>, Seq<u8>), Seq<char>>(key_parts(k)))),
{
    match item {
        BulkInsertItem::Edge(k) => {
            if let BulkInsertItemMsg::Edge { key } = m {
                if type_name_valid(k.t.0@) {
                    lemma_edge_key_round_trip(k, key);
                }
            }
        },
        BulkInsertItem::EdgeProperty(k, name, value) => {
            if let BulkInsertItemMsg::EdgeProperty { key, name: mname, value: mvalue } = m {
                if type_name_valid(k.t.0@) {
                    lemma_edge_key_round_trip(k, key);
                }
            }
        },
        _ => {},
    }
}

} // verus!
