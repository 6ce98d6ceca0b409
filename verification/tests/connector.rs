use mocknet::database::client::{Client, ConnectorBackend, ConnectorMessage, GetClientAction};
use mocknet::database::errors::ConnectorError;

fn reply_id(a: Option<GetClientAction>) -> Option<u64> {
    match a {
        Some(GetClientAction::Reply(id)) => Some(id),
        _ => None,
    }
}

#[test]
fn first_connection_is_number_one() {
    let b = ConnectorBackend::new("c1");
    assert_eq!(b.client_id(), 1);
    assert_eq!(b.client(), Some(&"c1"));
    assert!(matches!(b.get_client(), GetClientAction::Reply(1)));
}

#[test]
fn failure_of_current_client_forces_reconnect() {
    let mut b = ConnectorBackend::new("c1");
    assert!(b.handle(ConnectorMessage::ClientFail(1)).is_none());
    assert!(b.client().is_none());
    assert!(matches!(b.handle(ConnectorMessage::GetClient), Some(GetClientAction::Reconnect)));
    assert_eq!(b.reconnected("c2"), 2);
    assert_eq!(reply_id(b.handle(ConnectorMessage::GetClient)), Some(2));
    assert_eq!(b.client(), Some(&"c2"));
}

#[test]
fn stale_failure_report_is_ignored() {
    let mut b = ConnectorBackend::new("c1");
    b.client_failed(1);
    b.reconnected("c2");
    b.client_failed(1);
    assert_eq!(b.client_id(), 2);
    assert_eq!(b.client(), Some(&"c2"));
    // a second report about the current id after it already failed changes nothing more
    b.client_failed(2);
    b.client_failed(2);
    assert_eq!(b.client_id(), 2);
    assert!(b.client().is_none());
}

#[test]
fn client_reports_failure_only_when_given_up() {
    let mut c = Client::new("conn", 5);
    assert!(c.drop_notice().is_none());
    assert_eq!(c.take(), Some("conn"));
    assert!(matches!(c.drop_notice(), Some(ConnectorMessage::ClientFail(5))));
    assert!(matches!(Client::new((), 9).notify_failure(), ConnectorMessage::ClientFail(9)));
}

#[test]
fn connector_error_texts() {
    assert_eq!(ConnectorError::QueueDrop.message(), "queue drop error");
    assert_eq!(ConnectorError::from_failure("refused".to_string()).message(), "refused");
    assert_eq!(
        ConnectorError::from_timeout("deadline has elapsed").message(),
        "connection timeout: deadline has elapsed"
    );
}
