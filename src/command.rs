use crate::codec::{operation_name, operation_to_name};
use crate::ingest::new_request_id;
use crate::model::{OutboundCommand, StorageOperation};
use vstd::prelude::*;

verus! {

/// The JSON string literal that serde_json writes for a string: quoted, with
/// its escapes.
pub uninterp spec fn json_string_literal(s: Seq<char>) -> Seq<char>;

/// Relies on `serde_json::to_string` applied to a `str`: the JSON string
/// literal for it. Its serializer writes a `str` into a `Vec` and fails only
/// when the writer does, which a `Vec` never does; the fallback is not taken.
#[verifier::external_body]
fn json_string(s: &str) -> (r: String)
    ensures
        r@ == json_string_literal(s@),
{
    serde_json::to_string(s).unwrap_or_default()
}

/// The `,"name":value` member of an optional field, or nothing.
pub open spec fn optional_member(name: Seq<char>, value_json: Option<Seq<char>>) -> Seq<char> {
    match value_json {
        Some(v) => ","@ + name + v,
        None => Seq::empty(),
    }
}

/// An outbound command frame, from the JSON literals of its id, key and value.
pub open spec fn command_frame(
    id_json: Seq<char>,
    operation: StorageOperation,
    key_json: Option<Seq<char>>,
    value_json: Option<Seq<char>>,
) -> Seq<char> {
    "{\"type\":\"asyncstorage-command\",\"id\":"@ + id_json + ",\"operation\":\""@ + operation_name(
        operation,
    ) + "\""@ + optional_member("\"key\":"@, key_json) + optional_member("\"value\":"@, value_json)
        + "}"@
}

/// The JSON literal of an optional string, where there is one.
pub open spec fn optional_literal(s: Option<String>) -> Option<Seq<char>> {
    match s {
        Some(v) => Some(json_string_literal(v@)),
        None => None,
    }
}

fn append_member(frame: &mut String, name: &str, value_json: &Option<String>)
    ensures
        final(frame)@ == old(frame)@ + optional_member(
            name@,
            match value_json {
                Some(v) => Some(v@),
                None => None,
            },
        ),
{
    match value_json {
        Some(v) => {
            frame.append(",");
            frame.append(name);
            frame.append(v.as_str());
        },
        None => {
            assert(frame@ + Seq::<char>::empty() =~= frame@);
        },
    }
}

/// Lays out a command frame around already encoded JSON literals; absent
/// fields are left out.
pub fn frame_command(
    id_json: &String,
    operation: StorageOperation,
    key_json: &Option<String>,
    value_json: &Option<String>,
) -> (r: String)
    ensures
        r@ == command_frame(
            id_json@,
            operation,
            match key_json {
                Some(k) => Some(k@),
                None => None,
            },
            match value_json {
                Some(v) => Some(v@),
                None => None,
            },
        ),
{
    let mut frame = String::from_str("{\"type\":\"asyncstorage-command\",\"id\":");
    frame.append(id_json.as_str());
    frame.append(",\"operation\":\"");
    let name = operation_to_name(operation);
    frame.append(name.as_str());
    frame.append("\"");
    append_member(&mut frame, "\"key\":", key_json);
    append_member(&mut frame, "\"value\":", value_json);
    frame.append("}");
    frame
}

fn optional_json(s: &Option<String>) -> (r: Option<String>)
    ensures
        match r {
            Some(v) => optional_literal(*s) == Some(v@),
            None => optional_literal(*s) == None::<Seq<char>>,
        },
{
    match s {
        Some(v) => Some(json_string(v.as_str())),
        None => None,
    }
}

/// Encodes a command as the single text frame sent to clients.
pub fn encode_command(command: &OutboundCommand) -> (r: String)
    ensures
        r@ == command_frame(
            json_string_literal(command.id@),
            command.operation,
            optional_literal(command.key),
            optional_literal(command.value),
        ),
{
    let id_json = json_string(command.id.as_str());
    let key_json = optional_json(&command.key);
    let value_json = optional_json(&command.value);
    frame_command(&id_json, command.operation, &key_json, &value_json)
}

/// Builds a command with a freshly generated identifier.
pub fn new_command(operation: StorageOperation, key: Option<String>, value: Option<String>) -> (r:
    OutboundCommand)
    ensures
        r.id@.len() == 36,
        r.operation == operation,
        r.key == key,
        r.value == value,
{
    OutboundCommand { id: new_request_id(), operation, key, value }
}

} // verus!
