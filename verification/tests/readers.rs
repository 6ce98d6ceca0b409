use mocknet::database_new::indradb::indradb_util::converters::{from_edge_key, from_vertex};
use mocknet::database_new::indradb::indradb_util::readers::{to_edge_key, to_vertex};
use mocknet::database_new::indradb::indradb_util::{EdgeKey, EdgeKeyMsg, Type, Uuid, Vertex, VertexMsg};

#[test]
fn vertex_reads_back_what_was_written() {
    let v = Vertex { id: Uuid([7u8; 16]), t: Type("dev-1_x".to_string()) };
    let back = to_vertex(&from_vertex(&v)).unwrap();
    assert_eq!(back.id.0, [7u8; 16]);
    assert_eq!(back.t.0, "dev-1_x");
}

#[test]
fn vertex_with_short_id_is_refused() {
    let m = VertexMsg { id: vec![1, 2, 3], t: "t".to_string() };
    assert_eq!(to_vertex(&m).err().unwrap(), "invalid bytes length: expected 16, found 3");
}

#[test]
fn vertex_with_bad_type_is_refused() {
    let m = VertexMsg { id: vec![0u8; 16], t: "a b".to_string() };
    assert_eq!(to_vertex(&m).err().unwrap(), "invalid value");
    let m = VertexMsg { id: vec![0u8; 16], t: String::new() };
    assert_eq!(to_vertex(&m).err().unwrap(), "invalid value");
    let m = VertexMsg { id: vec![0u8; 16], t: "x".repeat(256) };
    assert_eq!(to_vertex(&m).err().unwrap(), "value too long");
    let m = VertexMsg { id: vec![0u8; 16], t: "x".repeat(255) };
    assert_eq!(to_vertex(&m).unwrap().t.0.len(), 255);
    // 128 two-byte characters: short in characters, too long in bytes
    let m = VertexMsg { id: vec![0u8; 16], t: "é".repeat(128) };
    assert_eq!(to_vertex(&m).err().unwrap(), "value too long");
}

#[test]
fn edge_key_reads_back_and_checks_in_order() {
    let k = EdgeKey { outbound_id: Uuid([1u8; 16]), t: Type("link".to_string()), inbound_id: Uuid([2u8; 16]) };
    let back = to_edge_key(&from_edge_key(&k)).unwrap();
    assert_eq!((back.outbound_id.0, back.t.0, back.inbound_id.0), ([1u8; 16], "link".to_string(), [2u8; 16]));

    let m = EdgeKeyMsg { outbound_id: vec![], t: "$".to_string(), inbound_id: vec![0u8; 17] };
    assert_eq!(to_edge_key(&m).err().unwrap(), "invalid bytes length: expected 16, found 0");
    let m = EdgeKeyMsg { outbound_id: vec![0u8; 16], t: "$".to_string(), inbound_id: vec![0u8; 17] };
    assert_eq!(to_edge_key(&m).err().unwrap(), "invalid value");
    let m = EdgeKeyMsg { outbound_id: vec![0u8; 16], t: "ok".to_string(), inbound_id: vec![0u8; 17] };
    assert_eq!(to_edge_key(&m).err().unwrap(), "invalid bytes length: expected 16, found 17");
}

use mocknet::database_new::indradb::indradb_util::readers::{
    named_property_with, to_edge_properties, to_edge_property, to_named_property, to_named_properties,
    to_vertex_properties, to_vertex_property, try_to_edge, try_to_edge_properties, vertex_property_with,
};
use mocknet::database_new::indradb::indradb_util::{
    EdgeMsg, EdgePropertiesMsg, EdgePropertyMsg, PropertyMsg, VertexPropertiesMsg, VertexPropertyMsg,
};

fn json_err(text: &str) -> String {
    serde_json::from_str::<serde_json::Value>(text).unwrap_err().to_string()
}

fn key_msg() -> EdgeKeyMsg {
    EdgeKeyMsg { outbound_id: vec![1u8; 16], t: "link".to_string(), inbound_id: vec![2u8; 16] }
}

fn prop(name: &str, value: &str) -> PropertyMsg {
    PropertyMsg { name: name.to_string(), value: value.to_string() }
}

#[test]
fn vertex_property_reads_id_then_json() {
    let p = to_vertex_property(&VertexPropertyMsg { id: vec![3u8; 16], value: "{\"a\":1}".to_string() }).unwrap();
    assert_eq!((p.id.0, p.value.as_str()), ([3u8; 16], "{\"a\":1}"));
    let e = to_vertex_property(&VertexPropertyMsg { id: vec![3u8; 2], value: "{".to_string() }).err().unwrap();
    assert_eq!(e, "invalid bytes length: expected 16, found 2");
    let e = to_vertex_property(&VertexPropertyMsg { id: vec![3u8; 16], value: "{".to_string() }).err().unwrap();
    assert_eq!(e, json_err("{"));
    let m = VertexPropertyMsg { id: vec![3u8; 16], value: "x".to_string() };
    assert_eq!(vertex_property_with(&m, Err("bad".to_string())).err().unwrap(), "bad");
    assert_eq!(vertex_property_with(&m, Ok(())).unwrap().value, "x");
}

#[test]
fn named_and_edge_properties() {
    let p = to_named_property(&prop("n", "[1, 2]")).unwrap();
    assert_eq!((p.name.as_str(), p.value.as_str()), ("n", "[1, 2]"));
    assert_eq!(to_named_property(&prop("n", "nope")).err().unwrap(), json_err("nope"));
    assert_eq!(named_property_with(&prop("n", "nope"), Ok(())).unwrap().value, "nope");
    let p = to_edge_property(&EdgePropertyMsg { key: key_msg(), value: "true".to_string() }).unwrap();
    assert_eq!((p.key.t.0.as_str(), p.value.as_str()), ("link", "true"));
    let mut bad = key_msg();
    bad.t = "$".to_string();
    assert_eq!(to_edge_property(&EdgePropertyMsg { key: bad, value: "{".to_string() }).err().unwrap(), "invalid value");
}

#[test]
fn property_lists_stop_at_the_first_error() {
    let ps = to_named_properties(&vec![prop("a", "1"), prop("b", "\"x\"")]).unwrap();
    assert_eq!(ps.len(), 2);
    assert_eq!((ps[1].name.as_str(), ps[1].value.as_str()), ("b", "\"x\""));
    assert_eq!(to_named_properties(&vec![prop("a", "1"), prop("b", "{"), prop("c", "]")]).err().unwrap(), json_err("{"));
    let m = VertexPropertiesMsg { vertex: VertexMsg { id: vec![0u8; 16], t: "v".to_string() }, props: vec![prop("a", "null")] };
    let vp = to_vertex_properties(&m).unwrap();
    assert_eq!((vp.vertex.t.0.as_str(), vp.props.len()), ("v", 1));
    let m = VertexPropertiesMsg { vertex: VertexMsg { id: vec![0u8; 1], t: "v".to_string() }, props: vec![prop("a", "{")] };
    assert_eq!(to_vertex_properties(&m).err().unwrap(), "invalid bytes length: expected 16, found 1");
}

#[test]
fn edges_read_their_creation_time() {
    let e = try_to_edge(&EdgeMsg { key: key_msg(), created_datetime: 1_600_000_000 }).unwrap().unwrap();
    assert_eq!((e.key.t.0.as_str(), e.created_datetime), ("link", 1_600_000_000));
    // a time that chrono cannot represent
    assert!(try_to_edge(&EdgeMsg { key: key_msg(), created_datetime: i64::MAX as u64 }).is_none());
    // the key is read first, so a bad key is reported whatever the time
    let mut bad = key_msg();
    bad.outbound_id = vec![];
    let r = try_to_edge(&EdgeMsg { key: bad, created_datetime: i64::MAX as u64 }).unwrap();
    assert_eq!(r.err().unwrap(), "invalid bytes length: expected 16, found 0");
    let m = EdgePropertiesMsg { edge: EdgeMsg { key: key_msg(), created_datetime: 5 }, props: vec![prop("w", "3")] };
    let ep = to_edge_properties(&m).unwrap();
    assert_eq!((ep.edge.created_datetime, ep.props[0].value.as_str()), (5, "3"));
    let m = EdgePropertiesMsg { edge: EdgeMsg { key: key_msg(), created_datetime: u64::MAX / 2 }, props: vec![] };
    assert!(try_to_edge_properties(&m).is_none());
}
