use crate::command::{command_frame, encode_command, json_string_literal, optional_literal};
use crate::model::OutboundCommand;
use vstd::prelude::*;

verus! {

/// The life of one client connection.
#[derive(Debug, Clone, Copy, PartialEq, Eq, Structural)]
pub enum ConnectionState {
    Connecting,
    Open,
    Closing,
    Closed,
}

/// What the connection's runner observed.
#[derive(Debug)]
pub enum ConnectionEvent {
    /// The protocol upgrade succeeded.
    Upgraded,
    /// The protocol upgrade failed.
    UpgradeFailed,
    /// A text frame arrived from the client.
    Text(String),
    /// A binary frame arrived from the client.
    Binary(Vec<u8>),
    /// A ping frame arrived, with its payload.
    Ping(Vec<u8>),
    /// A pong frame arrived.
    Pong(Vec<u8>),
    /// The client sent a close frame.
    CloseFrame,
    /// Reading from or writing to the client failed.
    TransportError,
    /// The inbound stream ended.
    StreamEnded,
    /// The command bus delivered a command for this client.
    Command(OutboundCommand),
    /// Sending a relayed command to the client failed.
    RelayBroken,
    /// The connection's resources have been released.
    Released,
}

/// What the runner must do next.
#[derive(Debug)]
pub enum HandlerAction {
    /// Nothing; read on.
    Continue,
    /// Decode the text frame and take its event in.
    Ingest(String),
    /// Answer with a pong carrying this payload before reading on.
    SendPong(Vec<u8>),
    /// Send this text frame to the client.
    SendText(String),
    /// Stop relaying, release the connection, then report `Released`.
    Teardown,
}

/// Whether an event ends an open connection.
pub open spec fn ends_connection(event: ConnectionEvent) -> bool {
    match event {
        ConnectionEvent::CloseFrame | ConnectionEvent::TransportError
        | ConnectionEvent::StreamEnded | ConnectionEvent::RelayBroken => true,
        _ => false,
    }
}

/// The next state and action for an event in a state.
pub open spec fn transition(state: ConnectionState, event: ConnectionEvent) -> (
    ConnectionState,
    HandlerAction,
) {
    match state {
        ConnectionState::Connecting => match event {
            ConnectionEvent::Upgraded => (ConnectionState::Open, HandlerAction::Continue),
            ConnectionEvent::UpgradeFailed => (ConnectionState::Closed, HandlerAction::Continue),
            _ => (ConnectionState::Connecting, HandlerAction::Continue),
        },
        ConnectionState::Open => if ends_connection(event) {
            (ConnectionState::Closing, HandlerAction::Teardown)
        } else {
            match event {
                ConnectionEvent::Text(t) => (ConnectionState::Open, HandlerAction::Ingest(t)),
                ConnectionEvent::Ping(p) => (ConnectionState::Open, HandlerAction::SendPong(p)),
                _ => (ConnectionState::Open, HandlerAction::Continue),
            }
        },
        ConnectionState::Closing => match event {
            ConnectionEvent::Released => (ConnectionState::Closed, HandlerAction::Continue),
            _ => (ConnectionState::Closing, HandlerAction::Continue),
        },
        ConnectionState::Closed => (ConnectionState::Closed, HandlerAction::Continue),
    }
}

/// Advances a connection by one event.
///
/// A relayed command in the open state is answered by the frame that encodes
/// it; every other case follows `transition`.
pub fn step(state: ConnectionState, event: ConnectionEvent) -> (r: (ConnectionState, HandlerAction))
    ensures
        match (state, event) {
            (ConnectionState::Open, ConnectionEvent::Command(c)) => r.0 == ConnectionState::Open
                && (r.1 matches HandlerAction::SendText(t) && t@ == command_frame(
                json_string_literal(c.id@),
                c.operation,
                optional_literal(c.key),
                optional_literal(c.value),
            )),
            _ => r == transition(state, event),
        },
{
    match state {
        ConnectionState::Connecting => match event {
            ConnectionEvent::Upgraded => (ConnectionState::Open, HandlerAction::Continue),
            ConnectionEvent::UpgradeFailed => (ConnectionState::Closed, HandlerAction::Continue),
            _ => (ConnectionState::Connecting, HandlerAction::Continue),
        },
        ConnectionState::Open => match event {
            ConnectionEvent::CloseFrame | ConnectionEvent::TransportError
            | ConnectionEvent::StreamEnded | ConnectionEvent::RelayBroken => (
                ConnectionState::Closing,
                HandlerAction::Teardown,
            ),
            ConnectionEvent::Text(t) => (ConnectionState::Open, HandlerAction::Ingest(t)),
            ConnectionEvent::Ping(p) => (ConnectionState::Open, HandlerAction::SendPong(p)),
            ConnectionEvent::Command(c) => (
                ConnectionState::Open,
                HandlerAction::SendText(encode_command(&c)),
            ),
            _ => (ConnectionState::Open, HandlerAction::Continue),
        },
        ConnectionState::Closing => match event {
            ConnectionEvent::Released => (ConnectionState::Closed, HandlerAction::Continue),
            _ => (ConnectionState::Closing, HandlerAction::Continue),
        },
        ConnectionState::Closed => (ConnectionState::Closed, HandlerAction::Continue),
    }
}

/// An open connection answers every ping with a pong of the same payload and
/// stays open, before it takes any further frame.
pub proof fn lemma_ping_answered(payload: Vec<u8>)
    ensures
        transition(ConnectionState::Open, ConnectionEvent::Ping(payload)) == (
            ConnectionState::Open,
            HandlerAction::SendPong(payload),
        ),
{
}

/// A closed connection stays closed and does nothing, whatever happens.
pub proof fn lemma_closed_is_terminal(event: ConnectionEvent)
    ensures
        transition(ConnectionState::Closed, event) == (ConnectionState::Closed, HandlerAction::Continue),
{
}

} // verus!
