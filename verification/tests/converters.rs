use mocknet::database_new::indradb::indradb_util::converters::{
    from_bulk_insert_items, from_edge_direction, from_edge_key, from_edge_property_query,
    from_edge_query, from_vertex, from_vertex_property_query, from_vertex_query,
};
use mocknet::database_new::indradb::indradb_util::{
    BulkInsertItem, BulkInsertItemMsg, ClientTransaction, EdgeDirection, EdgeDirectionMsg, EdgeKey,
    EdgePropertyQuery, EdgeQuery, EdgeQueryMsg, PipeEdgeQuery, PipeVertexQuery, RangeVertexQuery,
    SpecificEdgeQuery, SpecificVertexQuery, Type, Uuid, Vertex, VertexPropertyQuery, VertexQuery,
    VertexQueryMsg,
};

fn id(b: u8) -> Uuid {
    Uuid([b; 16])
}

fn t(s: &str) -> Type {
    Type(s.to_string())
}

#[test]
fn vertex_and_key_messages() {
    let m = from_vertex(&Vertex { id: id(1), t: t("dev") });
    assert_eq!(m.id, vec![1u8; 16]);
    assert_eq!(m.t, "dev");
    let k = from_edge_key(&EdgeKey { outbound_id: id(2), t: t("link"), inbound_id: id(3) });
    assert_eq!((k.outbound_id, k.t, k.inbound_id), (vec![2u8; 16], "link".to_string(), vec![3u8; 16]));
    assert!(matches!(from_edge_direction(&EdgeDirection::Inbound), EdgeDirectionMsg::Inbound));
    assert!(matches!(from_edge_direction(&EdgeDirection::Outbound), EdgeDirectionMsg::Outbound));
}

#[test]
fn range_query_leaves_unset_fields_empty() {
    match from_vertex_query(&VertexQuery::Range(RangeVertexQuery { limit: 5, t: None, start_id: None })) {
        VertexQueryMsg::Range { start_id, t, limit } => {
            assert!(start_id.is_empty());
            assert_eq!(t, "");
            assert_eq!(limit, 5);
        }
        _ => panic!("range expected"),
    }
    match from_vertex_query(&VertexQuery::Range(RangeVertexQuery { limit: 1, t: Some(t("x")), start_id: Some(id(9)) })) {
        VertexQueryMsg::Range { start_id, t, limit } => {
            assert_eq!(start_id, vec![9u8; 16]);
            assert_eq!(t, "x");
            assert_eq!(limit, 1);
        }
        _ => panic!("range expected"),
    }
}

#[test]
fn nested_pipe_queries() {
    let inner = VertexQuery::Specific(SpecificVertexQuery { ids: vec![id(1), id(2)] });
    let q = VertexQuery::Pipe(PipeVertexQuery {
        inner: Box::new(EdgeQuery::Pipe(PipeEdgeQuery {
            inner: Box::new(inner),
            direction: EdgeDirection::Outbound,
            t: None,
            high: Some(-1),
            low: Some(1_000),
            limit: 3,
        })),
        direction: EdgeDirection::Inbound,
        limit: 7,
        t: Some(t("dev")),
    });
    match from_vertex_query(&q) {
        VertexQueryMsg::Pipe { inner, direction, limit, t } => {
            assert!(matches!(direction, EdgeDirectionMsg::Inbound));
            assert_eq!((limit, t.as_str()), (7, "dev"));
            match *inner {
                EdgeQueryMsg::Pipe { inner, direction, t, high, low, limit } => {
                    assert!(matches!(direction, EdgeDirectionMsg::Outbound));
                    assert_eq!(t, "");
                    assert_eq!(high, u64::MAX);
                    assert_eq!(low, 1_000);
                    assert_eq!(limit, 3);
                    match *inner {
                        VertexQueryMsg::Specific { ids } => assert_eq!(ids, vec![vec![1u8; 16], vec![2u8; 16]]),
                        _ => panic!("specific expected"),
                    }
                }
                _ => panic!("pipe expected"),
            }
        }
        _ => panic!("pipe expected"),
    }
    match from_edge_query(&EdgeQuery::Pipe(PipeEdgeQuery {
        inner: Box::new(VertexQuery::Range(RangeVertexQuery { limit: 0, t: None, start_id: None })),
        direction: EdgeDirection::Inbound,
        t: Some(t("l")),
        high: None,
        low: None,
        limit: 2,
    })) {
        EdgeQueryMsg::Pipe { high, low, .. } => assert_eq!((high, low), (0, 0)),
        _ => panic!("pipe expected"),
    }
}

#[test]
fn property_queries_and_bulk_items() {
    let vq = VertexPropertyQuery {
        inner: VertexQuery::Specific(SpecificVertexQuery { ids: vec![id(4)] }),
        name: "default".to_string(),
    };
    let m = from_vertex_property_query(&vq);
    assert_eq!(m.name, "default");
    let eq = EdgePropertyQuery {
        inner: EdgeQuery::Specific(SpecificEdgeQuery {
            keys: vec![EdgeKey { outbound_id: id(1), t: t("l"), inbound_id: id(2) }],
        }),
        name: "w".to_string(),
    };
    match from_edge_property_query(&eq).inner {
        EdgeQueryMsg::Specific { keys } => {
            assert_eq!(keys.len(), 1);
            assert_eq!(keys[0].t, "l");
        }
        _ => panic!("specific expected"),
    }
    let items = vec![
        BulkInsertItem::Vertex(Vertex { id: id(1), t: t("t") }),
        BulkInsertItem::VertexProperty(id(1), "default".to_string(), "{\"a\":1}".to_string()),
        BulkInsertItem::Edge(EdgeKey { outbound_id: id(1), t: t("l"), inbound_id: id(2) }),
        BulkInsertItem::EdgeProperty(EdgeKey { outbound_id: id(1), t: t("l"), inbound_id: id(2) }, "n".to_string(), "2".to_string()),
    ];
    let out = from_bulk_insert_items(&items);
    assert_eq!(out.len(), 4);
    assert!(matches!(&out[0], BulkInsertItemMsg::Vertex { vertex } if vertex.t == "t"));
    assert!(matches!(&out[1], BulkInsertItemMsg::VertexProperty { id, name, value } if id == &vec![1u8; 16] && name == "default" && value == "{\"a\":1}"));
    assert!(matches!(&out[2], BulkInsertItemMsg::Edge { key } if key.inbound_id == vec![2u8; 16]));
    assert!(matches!(&out[3], BulkInsertItemMsg::EdgeProperty { name, value, .. } if name == "n" && value == "2"));
    assert_eq!(ClientTransaction::new(7u8).trans, 7);
}
