use crate::dedup::{admit_outcome, DedupCache};
use crate::log::EventLog;
use crate::model::{NetworkRequest, StorageEvent};
use crate::projection::{apply_storage_event, KeyValueProjection};
use crate::signature::{create_request_signature, request_signature};
use vstd::prelude::*;

verus! {

/// `request` with its identifier replaced by `id`.
pub open spec fn with_id(request: NetworkRequest, id: String) -> NetworkRequest {
    NetworkRequest { id: id, ..request }
}

/// Relies on `uuid::Uuid::new_v4` and the `Display` impl of `Uuid`: a random
/// version-4 UUID written in hyphenated form, 36 characters.
#[verifier::external_body]
pub(crate) fn new_request_id() -> (r: String)
    ensures
        r@.len() == 36,
{
    uuid::Uuid::new_v4().to_string()
}

/// Gives a request without an identifier a freshly generated one; a request
/// that has one keeps it.
pub fn assign_id(request: &mut NetworkRequest)
    ensures
        *final(request) == with_id(*old(request), final(request).id),
        final(request).id@.len() > 0,
        old(request).id@.len() > 0 ==> final(request).id == old(request).id,
{
    if request.id.as_str().is_empty() {
        request.id = new_request_id();
    }
}

/// Takes in one decoded request arriving at `now`: it receives an identifier
/// if it has none, and is recorded if and only if the dedup cache admits its
/// signature. Returns whether it was recorded.
pub fn ingest_traffic(
    cache: &mut DedupCache,
    log: &mut EventLog<NetworkRequest>,
    request: NetworkRequest,
    now: u64,
) -> (stored: bool)
    ensures
        (stored, final(cache)@) == admit_outcome(old(cache)@, request_signature(request), now),
        !stored ==> final(log)@ == old(log)@,
        stored ==> final(log)@ == old(log)@.push(with_id(request, final(log)@.last().id)),
        stored ==> final(log)@.last().id@.len() > 0,
        stored && request.id@.len() > 0 ==> final(log)@.last().id == request.id,
{
    let mut request = request;
    let ghost received = request;
    assign_id(&mut request);
    assert(request_signature(request) == request_signature(received));
    let signature = create_request_signature(&request);
    let admitted = cache.check_and_record(signature, now);
    if admitted {
        log.append(request);
        assert(log@.last() == request);
    }
    admitted
}

/// Takes in one storage event: it is recorded in the history exactly once,
/// and applied to the projection where its fields suffice.
pub fn ingest_storage(
    projection: &mut KeyValueProjection,
    log: &mut EventLog<StorageEvent>,
    event: StorageEvent,
)
    ensures
        final(projection)@ == apply_storage_event(old(projection)@, event),
        final(log)@ == old(log)@.push(event),
{
    projection.apply(&event);
    log.append(event);
}

} // verus!
