use tokio::sync::broadcast;
use traffic_monitor::bus::issue_command;
use traffic_monitor::model::{OutboundCommand, StorageOperation};

#[test]
fn publishing_without_clients_succeeds() {
    let (tx, rx) = broadcast::channel::<OutboundCommand>(100);
    drop(rx);
    let id = issue_command(&tx, StorageOperation::Clear, None, None);
    assert_eq!(id.len(), 36);
    let mut late = tx.subscribe();
    assert!(late.try_recv().is_err());
}

#[test]
fn subscribed_clients_receive_published_command() {
    let (tx, mut first) = broadcast::channel::<OutboundCommand>(100);
    let mut second = tx.subscribe();
    let id = issue_command(&tx, StorageOperation::SetItem, Some(String::from("k")), Some(String::from("v")));
    for rx in [&mut first, &mut second] {
        let got = rx.try_recv().unwrap();
        assert_eq!(got.id, id);
        assert_eq!(got.operation, StorageOperation::SetItem);
        assert_eq!(got.key.as_deref(), Some("k"));
        assert_eq!(got.value.as_deref(), Some("v"));
    }
    let mut late = tx.subscribe();
    assert!(late.try_recv().is_err());
}
