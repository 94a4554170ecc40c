use crate::model::{NetworkRequest, OutboundCommand, StorageEvent, StorageOperation};
use vstd::prelude::*;

verus! {

/// The discriminant of an inbound storage event.
pub const STORAGE_EVENT_KIND: &'static str = "asyncstorage-operation";

/// The wire name of each storage operation.
pub open spec fn operation_name(op: StorageOperation) -> Seq<char> {
    match op {
        StorageOperation::SetItem => "set"@,
        StorageOperation::RemoveItem => "remove"@,
        StorageOperation::Clear => "clear"@,
        StorageOperation::BulkReplace => "bulk-replace"@,
    }
}

/// The operation that a wire name stands for, if it is one of the four.
pub open spec fn operation_named(name: Seq<char>) -> Option<StorageOperation> {
    if name == "set"@ {
        Some(StorageOperation::SetItem)
    } else if name == "remove"@ {
        Some(StorageOperation::RemoveItem)
    } else if name == "clear"@ {
        Some(StorageOperation::Clear)
    } else if name == "bulk-replace"@ {
        Some(StorageOperation::BulkReplace)
    } else {
        None
    }
}

/// Writes the wire name of an operation.
pub fn operation_to_name(op: StorageOperation) -> (r: String)
    ensures
        r@ == operation_name(op),
{
    match op {
        StorageOperation::SetItem => String::from_str("set"),
        StorageOperation::RemoveItem => String::from_str("remove"),
        StorageOperation::Clear => String::from_str("clear"),
        StorageOperation::BulkReplace => String::from_str("bulk-replace"),
    }
}

/// Reads the wire name of an operation; unknown names give `None`.
pub fn parse_operation(name: &String) -> (r: Option<StorageOperation>)
    ensures
        r == operation_named(name@),
{
    if *name == String::from_str("set") {
        Some(StorageOperation::SetItem)
    } else if *name == String::from_str("remove") {
        Some(StorageOperation::RemoveItem)
    } else if *name == String::from_str("clear") {
        Some(StorageOperation::Clear)
    } else if *name == String::from_str("bulk-replace") {
        Some(StorageOperation::BulkReplace)
    } else {
        None
    }
}

/// A storage event as it arrives, before its operation name is checked.
#[derive(Debug, Clone)]
pub struct RawStorageEvent {
    pub id: String,
    pub operation: String,
    pub key: Option<String>,
    pub value: Option<String>,
    pub keys: Option<Vec<String>>,
    pub data: Option<Vec<(String, Option<String>)>>,
    pub timestamp: u64,
    pub success: Option<bool>,
    pub error: Option<String>,
    pub command_id: Option<String>,
}

/// The typed event for a raw one whose operation is known.
pub open spec fn typed_storage_event(raw: RawStorageEvent) -> Option<StorageEvent> {
    match operation_named(raw.operation@) {
        Some(op) => Some(
            StorageEvent {
                id: raw.id,
                operation: op,
                key: raw.key,
                value: raw.value,
                keys: raw.keys,
                data: raw.data,
                timestamp: raw.timestamp,
                success: raw.success,
                error: raw.error,
                command_id: raw.command_id,
            },
        ),
        None => None,
    }
}

/// Checks the operation of a raw storage event; an unknown one gives `None`.
pub fn decode_storage_event(raw: RawStorageEvent) -> (r: Option<StorageEvent>)
    ensures
        r == typed_storage_event(raw),
{
    match parse_operation(&raw.operation) {
        Some(op) => Some(
            StorageEvent {
                id: raw.id,
                operation: op,
                key: raw.key,
                value: raw.value,
                keys: raw.keys,
                data: raw.data,
                timestamp: raw.timestamp,
                success: raw.success,
                error: raw.error,
                command_id: raw.command_id,
            },
        ),
        None => None,
    }
}

/// An inbound text frame, decoded.
#[derive(Debug, Clone)]
pub enum DecodedFrame {
    Traffic(NetworkRequest),
    Storage(StorageEvent),
    Invalid,
}

/// Settles what a frame is from the ways it could be read: a bare request
/// object comes first; failing that, a storage event under its discriminant;
/// anything else is invalid.
pub open spec fn frame_meaning(
    as_request: Option<NetworkRequest>,
    kind: Option<Seq<char>>,
    as_storage: Option<RawStorageEvent>,
) -> DecodedFrame {
    match as_request {
        Some(r) => DecodedFrame::Traffic(r),
        None => match (kind, as_storage) {
            (Some(k), Some(raw)) => if k == STORAGE_EVENT_KIND@ {
                match typed_storage_event(raw) {
                    Some(ev) => DecodedFrame::Storage(ev),
                    None => DecodedFrame::Invalid,
                }
            } else {
                DecodedFrame::Invalid
            },
            _ => DecodedFrame::Invalid,
        },
    }
}

/// Decodes a frame given its reading as a request object, the value of its
/// `type` field, and its reading as a storage event (each `None` where the
/// frame does not read so).
pub fn classify_frame(
    as_request: Option<NetworkRequest>,
    kind: Option<String>,
    as_storage: Option<RawStorageEvent>,
) -> (r: DecodedFrame)
    ensures
        r == frame_meaning(
            as_request,
            match kind {
                Some(k) => Some(k@),
                None => None,
            },
            as_storage,
        ),
{
    match as_request {
        Some(r) => DecodedFrame::Traffic(r),
        None => match (kind, as_storage) {
            (Some(k), Some(raw)) => {
                if k == String::from_str(STORAGE_EVENT_KIND) {
                    match decode_storage_event(raw) {
                        Some(ev) => DecodedFrame::Storage(ev),
                        None => DecodedFrame::Invalid,
                    }
                } else {
                    DecodedFrame::Invalid
                }
            },
            _ => DecodedFrame::Invalid,
        },
    }
}

} // verus!
