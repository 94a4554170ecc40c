use std::collections::HashMap;
use vstd::prelude::*;

verus! {

/// The response half of an observed HTTP exchange.
#[derive(Debug, Clone)]
pub struct NetworkResponse {
    pub status: u16,
    pub status_text: String,
    pub headers: HashMap<String, String>,
    pub body: Option<String>,
}

/// One observed request, with its response once it has arrived.
#[derive(Debug, Clone)]
pub struct NetworkRequest {
    pub id: String,
    pub url: String,
    pub method: String,
    pub headers: HashMap<String, String>,
    pub body: Option<String>,
    pub response: Option<NetworkResponse>,
    pub timestamp: u64,
    pub duration: Option<u64>,
}

/// A message tagged with its kind, as relayed to observers.
#[derive(Debug, Clone)]
pub enum WebSocketMessage {
    NetworkRequest(NetworkRequest),
}

/// The operations a client key/value store reports.
#[derive(Debug, Clone, Copy, PartialEq, Eq, Structural)]
pub enum StorageOperation {
    SetItem,
    RemoveItem,
    Clear,
    BulkReplace,
}

/// One observed key/value-store operation.
#[derive(Debug, Clone)]
pub struct StorageEvent {
    pub id: String,
    pub operation: StorageOperation,
    pub key: Option<String>,
    pub value: Option<String>,
    pub keys: Option<Vec<String>>,
    /// The full snapshot of a bulk replace: each key with its value, or none.
    pub data: Option<Vec<(String, Option<String>)>>,
    pub timestamp: u64,
    pub success: Option<bool>,
    pub error: Option<String>,
    pub command_id: Option<String>,
}

/// A command issued by the operator, broadcast to every connected client.
#[derive(Debug, Clone)]
pub struct OutboundCommand {
    pub id: String,
    pub operation: StorageOperation,
    pub key: Option<String>,
    pub value: Option<String>,
}

} // verus!
