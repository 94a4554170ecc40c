use crate::command::new_command;
use crate::model::{OutboundCommand, StorageOperation};
use tokio::sync::broadcast::Sender;
use vstd::prelude::*;

verus! {

#[verifier::external_type_specification]
#[verifier::external_body]
#[verifier::reject_recursive_types(T)]
pub struct ExBroadcastSender<T>(Sender<T>);

/// Relies on `tokio::sync::broadcast::Sender::send`: the command is queued for
/// every current subscriber without waiting on any of them. With no
/// subscriber tokio hands the value back in an error; it is dropped here.
#[verifier::external_body]
fn broadcast(bus: &Sender<OutboundCommand>, command: OutboundCommand) {
    let _ = bus.send(command);
}

/// Builds a command with a fresh identifier and publishes it to every
/// connected client. Publishing cannot fail: with no client connected the
/// command is simply dropped. Returns the command's identifier.
pub fn issue_command(
    bus: &Sender<OutboundCommand>,
    operation: StorageOperation,
    key: Option<String>,
    value: Option<String>,
) -> (id: String)
    ensures
        id@.len() == 36,
{
    let command = new_command(operation, key, value);
    let id = command.id.clone();
    broadcast(bus, command);
    id
}

} // verus!
