use std::collections::HashMap;

use mocknet::database::indradb_backend::{core_info_id, init_outcome, EmuNetUser, UserMap};
use mocknet::database::message_queue::{worker_step, Message, MsgQError, WorkerStep};
use mocknet::database::new_indradb::init_needed;
use mocknet::database::new_message_queue::MsgQError as PlainMsgQError;
use mocknet::database::request::init_emu_net::{
    build_network_graph, build_vertexes, partition_failure, place_network, vertex_items, vertex_property_items, EdgeInfo, VertexInfo,
};
use mocknet::database::request::{CreateEmuNet, Init, SetEmuNet};
use mocknet::database::request::set_emu_net::set_emu_net_outcome;
use mocknet::database_new::indradb::indradb_util::{BulkInsertItem, Uuid};

fn vi(id: u64) -> (u64, VertexInfo) {
    (id, VertexInfo { client_id: id, description: format!("dev{}", id) })
}

fn ei(a: u64, b: u64) -> ((u64, u64), EdgeInfo) {
    ((a, b), EdgeInfo { client_id: (a, b), description: String::new() })
}

fn err_of<T>(r: Result<T, String>) -> String {
    match r {
        Ok(_) => panic!("expected an error"),
        Err(m) => m,
    }
}

#[test]
fn request_constructors() {
    let c = CreateEmuNet::new("u".to_string(), "n".to_string(), 8);
    assert_eq!((c.user.as_str(), c.emu_net.as_str(), c.capacity), ("u", "n", 8));
    assert_eq!(Init::new(vec![1, 2]).server_infos, vec![1, 2]);
    assert_eq!(SetEmuNet::new("net").emu_net, "net");
}

#[test]
fn network_graph_checks() {
    assert_eq!(err_of(build_network_graph(None, None, None)), "emunet not exist");
    assert_eq!(err_of(build_network_graph(Some(false), Some(vec![vi(1)]), Some(Vec::new()))), "the emunet has already been initialized");
    assert_eq!(err_of(build_network_graph(Some(true), None, Some(Vec::new()))), "invalid json format for vertexes");
    assert_eq!(err_of(build_network_graph(Some(true), Some(vec![vi(1)]), None)), "invalid json format for edges");
    assert_eq!(
        err_of(build_network_graph(Some(true), Some(vec![vi(1)]), Some(vec![ei(1, 2)]))),
        "can't build the network graph: edge is not connected to a valid vertex"
    );
    let g = build_network_graph(Some(true), Some(vec![vi(1), vi(2)]), Some(vec![ei(2, 1)])).ok().unwrap();
    assert_eq!(g.size(), 2);
    assert_eq!(partition_failure("not enough resource"), "can't partition the network graph: not enough resource");
}

#[test]
fn stored_devices() {
    let infos = vec![vi(1).1, vi(2).1];
    let uuids = vec![Uuid([1; 16]), Uuid([2; 16])];
    let mut assignment = HashMap::new();
    assignment.insert(1u64, Uuid([9; 16]));
    assignment.insert(2u64, Uuid([8; 16]));
    let vs = build_vertexes(infos, &uuids, &assignment);
    assert_eq!(vs.len(), 2);
    assert_eq!(vs[0].client_info.client_id, 1);
    assert_eq!(vs[0].uuid.0, [1; 16]);
    assert_eq!(vs[0].server_uuid.0, [9; 16]);
    assert_eq!(vs[1].server_uuid.0, [8; 16]);
    let items = vertex_items(&vs);
    assert!(matches!(&items[1], BulkInsertItem::Vertex(v) if v.id.0 == [2; 16] && v.t.0 == "t"));
    let props = vertex_property_items(&vs, vec!["{}".to_string(), "[]".to_string()]);
    assert!(matches!(&props[1], BulkInsertItem::VertexProperty(id, name, value) if id.0 == [2; 16] && name == "default" && value == "[]"));
}

#[test]
fn users_and_their_networks() {
    let mut users = UserMap::new();
    assert!(users.register_user("alice".to_string()).is_ok());
    assert_eq!(err_of(users.register_user("alice".to_string())), "user has already registered");
    assert_eq!(err_of(users.check_create_emu_net("bob", "n1", Some(3))), "invalid user name");
    assert_eq!(err_of(users.check_create_emu_net::<u32>("alice", "n1", None)), "invalid capacity");
    assert_eq!(users.check_create_emu_net("alice", "n1", Some(3)).ok(), Some(3));
    users.add_emu_net("alice", "n1".to_string(), Uuid([5; 16]));
    assert_eq!(err_of(users.check_create_emu_net("alice", "n1", Some(3))), "invalid emu-net name");
    assert!(users.check_create_emu_net("alice", "n2", Some(3)).is_ok());
    let mut u = EmuNetUser::new("carol");
    assert!(!u.emu_net_exist("x"));
    u.add_emu_net("x".to_string(), Uuid([0; 16]));
    assert!(u.emu_net_exist("x"));
}

#[test]
fn initialisation_outcomes() {
    assert!(init_outcome(true).is_ok());
    assert_eq!(err_of(init_outcome(false)), "database has already been initialized");
    assert!(init_needed(0, 0));
    assert!(!init_needed(1, 1));
}

#[test]
fn storing_an_emu_net_needs_its_vertex() {
    assert!(set_emu_net_outcome(true).is_ok());
    assert_eq!(err_of(set_emu_net_outcome(false)), "EmuNet not exist");
}

#[test]
fn queue_messages_and_errors() {
    let mut m = Message::new(5u32, "reply-to");
    assert!(!m.is_close_msg());
    assert_eq!(m.try_get_msg(), Some(5));
    assert_eq!(m.try_get_msg(), None);
    assert!(Message::<u32, ()>::close_msg(()).is_close_msg());
    match worker_step(Some(Message::new(1u8, 'r'))) {
        (WorkerStep::Serve(1), Some('r')) => {}
        _ => panic!("serve expected"),
    }
    assert!(matches!(worker_step(Some(Message::<u8, char>::close_msg('r'))), (WorkerStep::Drain, None)));
    assert!(matches!(worker_step::<u8, char>(None), (WorkerStep::Stop, None)));
    assert_eq!(MsgQError::from_error(3u8).get_inner(), Some(3));
    assert_eq!(MsgQError::<u8>::queue_drop().get_inner(), None);
    assert_eq!(MsgQError::<u8>::QueueDrop.message("x"), "message queue is dropped");
    assert_eq!(MsgQError::Inner(1u8).message("boom"), "inner error message: boom");
    assert_eq!(PlainMsgQError::MpscSendError.message(), "message queue closed with mpsc::SendError");
    assert_eq!(PlainMsgQError::OneshotRecvError.message(), "message queue closed with oneshot::RecvError");
}

#[test]
fn placing_a_network_on_servers() {
    let g = build_network_graph(Some(true), Some(vec![vi(1), vi(2), vi(3)]), Some(vec![ei(1, 2)])).ok().unwrap();
    let servers = vec![Uuid([7; 16]), Uuid([8; 16])];
    let uuids = vec![Uuid([1; 16]), Uuid([2; 16]), Uuid([3; 16])];
    let (vs, items) = place_network(g, &vec![vec![1], vec![2]], &servers, &uuids).ok().unwrap();
    assert_eq!(vs.len(), 3);
    assert_eq!(vs[0].server_uuid.0, [7; 16]);
    assert_eq!(vs[1].server_uuid.0, [8; 16]);
    // device 3 is in no cluster: it goes to the first server
    assert_eq!(vs[2].server_uuid.0, [7; 16]);
    assert_eq!(vs[2].uuid.0, [3; 16]);
    assert!(matches!(&items[2], BulkInsertItem::Vertex(v) if v.id.0 == [3; 16] && v.t.0 == "t"));

    let g = build_network_graph(Some(true), Some(vec![vi(1), vi(2)]), Some(vec![])).ok().unwrap();
    let r = place_network(g, &vec![vec![1], vec![2]], &vec![Uuid([7; 16])], &vec![Uuid([1; 16]), Uuid([2; 16])]);
    assert_eq!(err_of(r), "can't partition the network graph: not enough resource");
}

#[test]
fn core_information_vertex_id() {
    assert_eq!(core_info_id().0, [1, 2, 3, 4, 5, 6, 7, 8, 9, 10, 11, 12, 13, 14, 15, 16]);
}
