use mocknet::mock_server::{ipv4_to_string, MockServer};

fn names(ns: &[&str]) -> Vec<String> {
    ns.iter().map(|s| s.to_string()).collect()
}

#[test]
fn ipv4_text_matches_std() {
    assert_eq!(ipv4_to_string(0), "0.0.0.0");
    assert_eq!(ipv4_to_string(167772160), "10.0.0.0");
    assert_eq!(ipv4_to_string(167772161), "10.0.0.1");
    assert_eq!(ipv4_to_string(167772416), "10.0.1.0");
    assert_eq!(ipv4_to_string(3232235777), "192.168.1.1");
    assert_eq!(ipv4_to_string(u32::MAX), "255.255.255.255");
}

#[test]
fn init_then_query_reports_every_pod() {
    let mut m = MockServer::new();
    assert!(m.query(false, Vec::new()).0);
    assert!(m.init(names(&["p1", "p2", "p3"])));
    let (ok, infos) = m.query(true, names(&["p3", "p1", "p2"]));
    assert!(ok);
    let got: Vec<(String, String, String, String)> = infos
        .into_iter()
        .map(|d| (d.pod_name, d.login_ip, d.username, d.password))
        .collect();
    assert_eq!(
        got,
        vec![
            ("p1".to_string(), "10.0.0.0".to_string(), "fuck".to_string(), "fuck".to_string()),
            ("p2".to_string(), "10.0.0.1".to_string(), "fuck".to_string(), "fuck".to_string()),
            ("p3".to_string(), "10.0.0.2".to_string(), "fuck".to_string(), "fuck".to_string()),
        ]
    );
    // an initialised network is not "uninitialised"
    assert!(!m.query(false, Vec::new()).0);
}

#[test]
fn second_init_is_refused() {
    let mut m = MockServer::new();
    assert!(m.init(names(&["p1"])));
    assert!(!m.init(names(&["p2"])));
    let (ok, infos) = m.query(true, names(&["p1"]));
    assert!(ok);
    assert_eq!(infos[0].pod_name, "p1");
}

#[test]
fn query_fails_on_mismatched_names() {
    let mut m = MockServer::new();
    assert!(!m.query(true, names(&["p1"])).0);
    assert!(m.init(names(&["p1", "p2"])));
    assert!(!m.query(true, names(&["p1"])).0);
    assert!(!m.query(true, names(&["p1", "p3"])).0);
    assert!(m.query(true, names(&["p1", "p2", "p2"])).0);
    assert!(m.query(true, names(&["p1", "p2", "p2"])).1.len() == 2);
}

#[test]
fn delete_clears_the_network() {
    let mut m = MockServer::new();
    assert!(!m.delete(names(&["p1"])));
    assert!(m.init(names(&["p1", "p2"])));
    assert!(!m.delete(names(&["p1"])));
    assert!(!m.delete(names(&["p1", "p3"])));
    assert!(m.delete(names(&["p2", "p1"])));
    assert!(m.query(false, Vec::new()).0);
    assert!(!m.delete(names(&["p1", "p2"])));
}

#[test]
fn delete_counts_names_with_repeats() {
    let mut m = MockServer::new();
    assert!(m.init(names(&["p1", "p1"])));
    // two pods, both named p1: the query sees one distinct name for two pods
    assert!(!m.query(true, names(&["p1", "p1"])).0);
    assert!(m.delete(names(&["p1", "p1"])));
}
