use traffic_monitor::connection::{step, ConnectionEvent, ConnectionState, HandlerAction};
use traffic_monitor::model::{OutboundCommand, StorageOperation};

#[test]
fn upgrade_opens_or_closes() {
    assert!(matches!(step(ConnectionState::Connecting, ConnectionEvent::Upgraded), (ConnectionState::Open, HandlerAction::Continue)));
    assert!(matches!(step(ConnectionState::Connecting, ConnectionEvent::UpgradeFailed), (ConnectionState::Closed, HandlerAction::Continue)));
}

#[test]
fn ping_is_answered_with_same_payload() {
    let (s, a) = step(ConnectionState::Open, ConnectionEvent::Ping(vec![1, 2, 3, 255]));
    assert_eq!(s, ConnectionState::Open);
    assert!(matches!(a, HandlerAction::SendPong(p) if p == vec![1, 2, 3, 255]));
    let (_, a) = step(ConnectionState::Open, ConnectionEvent::Ping(vec![]));
    assert!(matches!(a, HandlerAction::SendPong(p) if p.is_empty()));
}

#[test]
fn text_is_ingested() {
    let (s, a) = step(ConnectionState::Open, ConnectionEvent::Text(String::from("{}")));
    assert_eq!(s, ConnectionState::Open);
    assert!(matches!(a, HandlerAction::Ingest(t) if t == "{}"));
}

#[test]
fn pong_and_binary_are_ignored() {
    assert!(matches!(step(ConnectionState::Open, ConnectionEvent::Pong(vec![9])), (ConnectionState::Open, HandlerAction::Continue)));
    assert!(matches!(step(ConnectionState::Open, ConnectionEvent::Binary(vec![9])), (ConnectionState::Open, HandlerAction::Continue)));
}

#[test]
fn ending_events_tear_down() {
    for ev in [ConnectionEvent::CloseFrame, ConnectionEvent::TransportError, ConnectionEvent::StreamEnded, ConnectionEvent::RelayBroken] {
        assert!(matches!(step(ConnectionState::Open, ev), (ConnectionState::Closing, HandlerAction::Teardown)));
    }
    assert!(matches!(step(ConnectionState::Closing, ConnectionEvent::Released), (ConnectionState::Closed, HandlerAction::Continue)));
    assert!(matches!(step(ConnectionState::Closing, ConnectionEvent::Text(String::from("x"))), (ConnectionState::Closing, HandlerAction::Continue)));
}

#[test]
fn closed_is_terminal() {
    assert!(matches!(step(ConnectionState::Closed, ConnectionEvent::Upgraded), (ConnectionState::Closed, HandlerAction::Continue)));
    assert!(matches!(step(ConnectionState::Closed, ConnectionEvent::Ping(vec![1])), (ConnectionState::Closed, HandlerAction::Continue)));
}

#[test]
fn relayed_command_is_encoded() {
    let c = OutboundCommand { id: String::from("c1"), operation: StorageOperation::Clear, key: None, value: None };
    let (s, a) = step(ConnectionState::Open, ConnectionEvent::Command(c));
    assert_eq!(s, ConnectionState::Open);
    assert!(matches!(a, HandlerAction::SendText(t) if t == "{\"type\":\"asyncstorage-command\",\"id\":\"c1\",\"operation\":\"clear\"}"));
}
