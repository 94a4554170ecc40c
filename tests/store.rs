use std::collections::HashMap;
use traffic_monitor::dedup::DedupCache;
use traffic_monitor::ingest::{assign_id, ingest_storage, ingest_traffic};
use traffic_monitor::log::EventLog;
use traffic_monitor::model::{NetworkRequest, StorageEvent, StorageOperation};
use traffic_monitor::projection::KeyValueProjection;

fn request(id: &str, url: &str) -> NetworkRequest {
    NetworkRequest {
        id: id.to_string(),
        url: url.to_string(),
        method: String::from("GET"),
        headers: HashMap::new(),
        body: None,
        response: None,
        timestamp: 5,
        duration: Some(12),
    }
}

fn storage(op: StorageOperation, key: Option<&str>, value: Option<&str>) -> StorageEvent {
    StorageEvent {
        id: String::from("s1"),
        operation: op,
        key: key.map(|k| k.to_string()),
        value: value.map(|v| v.to_string()),
        keys: None,
        data: None,
        timestamp: 7,
        success: Some(true),
        error: None,
        command_id: None,
    }
}

fn s(v: &str) -> String {
    v.to_string()
}

#[test]
fn identical_requests_in_a_burst_are_stored_once() {
    let mut cache = DedupCache::new();
    let mut log = EventLog::new();
    assert!(ingest_traffic(&mut cache, &mut log, request("a", "https://x/1"), 100));
    assert!(!ingest_traffic(&mut cache, &mut log, request("b", "https://x/1"), 101));
    assert_eq!(log.len(), 1);
    assert_eq!(log.records()[0].id, "a");
}

#[test]
fn identical_requests_spaced_apart_are_both_stored() {
    let mut cache = DedupCache::new();
    let mut log = EventLog::new();
    assert!(ingest_traffic(&mut cache, &mut log, request("a", "https://x/1"), 100));
    assert!(ingest_traffic(&mut cache, &mut log, request("b", "https://x/1"), 102));
    assert_eq!(log.len(), 2);
    assert_eq!(log.records()[1].id, "b");
}

#[test]
fn request_without_id_gets_a_generated_one() {
    let mut cache = DedupCache::new();
    let mut log = EventLog::new();
    assert!(ingest_traffic(&mut cache, &mut log, request("", "https://x/2"), 100));
    assert_eq!(log.records()[0].id.len(), 36);
    assert_eq!(log.records()[0].url, "https://x/2");
    assert_eq!(log.records()[0].duration, Some(12));
}

#[test]
fn assign_id_keeps_an_existing_id() {
    let mut r = request("mine", "u");
    assign_id(&mut r);
    assert_eq!(r.id, "mine");
    let mut r = request("", "u");
    assign_id(&mut r);
    assert_eq!(r.id.len(), 36);
    assert_eq!(r.id.matches('-').count(), 4);
}

#[test]
fn many_submissions_give_as_many_entries() {
    let mut cache = DedupCache::new();
    let mut log = EventLog::new();
    for i in 0..25u64 {
        let url = format!("https://x/{}", i);
        assert!(ingest_traffic(&mut cache, &mut log, request("", &url), 100));
    }
    assert_eq!(log.len(), 25);
    for i in 0..25usize {
        assert_eq!(log.records()[i].url, format!("https://x/{}", i));
    }
}

#[test]
fn clearing_traffic_history_empties_it() {
    let mut cache = DedupCache::new();
    let mut log = EventLog::new();
    ingest_traffic(&mut cache, &mut log, request("a", "u"), 100);
    log.clear();
    assert!(log.records().is_empty());
    assert_eq!(log.len(), 0);
}

#[test]
fn storage_event_is_recorded_even_when_incomplete() {
    let mut p = KeyValueProjection::new();
    let mut log = EventLog::new();
    ingest_storage(&mut p, &mut log, storage(StorageOperation::SetItem, Some("a"), None));
    assert_eq!(log.len(), 1);
    assert_eq!(p.len(), 0);
    ingest_storage(&mut p, &mut log, storage(StorageOperation::RemoveItem, None, None));
    assert_eq!(log.len(), 2);
}

#[test]
fn set_then_remove_then_clear() {
    let mut p = KeyValueProjection::new();
    let mut log = EventLog::new();
    p.set(s("z"), s("9"));
    ingest_storage(&mut p, &mut log, storage(StorageOperation::SetItem, Some("a"), Some("1")));
    assert_eq!(p.get(&s("a")), Some(Some(s("1"))));
    ingest_storage(&mut p, &mut log, storage(StorageOperation::RemoveItem, Some("a"), None));
    assert_eq!(p.get(&s("a")), None);
    assert_eq!(p.get(&s("z")), Some(Some(s("9"))));
    ingest_storage(&mut p, &mut log, storage(StorageOperation::Clear, None, None));
    assert_eq!(p.len(), 0);
    assert!(p.snapshot().is_empty());
    assert_eq!(log.len(), 3);
}

#[test]
fn removing_an_absent_key_is_harmless() {
    let mut p = KeyValueProjection::new();
    p.set(s("a"), s("1"));
    p.remove(&s("b"));
    assert_eq!(p.len(), 1);
}

#[test]
fn set_overwrites_existing_value() {
    let mut p = KeyValueProjection::new();
    p.set(s("a"), s("1"));
    p.set(s("a"), s("2"));
    assert_eq!(p.len(), 1);
    assert_eq!(p.get(&s("a")), Some(Some(s("2"))));
}

#[test]
fn bulk_replace_keeps_exactly_the_snapshot() {
    let mut p = KeyValueProjection::new();
    let mut log = EventLog::new();
    p.set(s("old"), s("x"));
    let mut ev = storage(StorageOperation::BulkReplace, None, None);
    ev.data = Some(vec![(s("a"), Some(s("1"))), (s("b"), None)]);
    ingest_storage(&mut p, &mut log, ev);
    assert_eq!(p.len(), 2);
    assert_eq!(p.get(&s("a")), Some(Some(s("1"))));
    assert_eq!(p.get(&s("b")), Some(None));
    assert_eq!(p.get(&s("old")), None);
    let mut snap = p.snapshot();
    snap.sort();
    assert_eq!(snap, vec![(s("a"), Some(s("1"))), (s("b"), None)]);
}

#[test]
fn bulk_replace_without_snapshot_changes_nothing() {
    let mut p = KeyValueProjection::new();
    let mut log = EventLog::new();
    p.set(s("old"), s("x"));
    ingest_storage(&mut p, &mut log, storage(StorageOperation::BulkReplace, None, None));
    assert_eq!(p.get(&s("old")), Some(Some(s("x"))));
    assert_eq!(log.len(), 1);
}

#[test]
fn bulk_replace_later_pair_wins() {
    let mut p = KeyValueProjection::new();
    p.replace_all(&vec![(s("a"), Some(s("1"))), (s("a"), Some(s("2")))]);
    assert_eq!(p.len(), 1);
    assert_eq!(p.get(&s("a")), Some(Some(s("2"))));
}

#[test]
fn clearing_storage_history_empties_it() {
    let mut p = KeyValueProjection::new();
    let mut log = EventLog::new();
    ingest_storage(&mut p, &mut log, storage(StorageOperation::Clear, None, None));
    log.clear();
    assert!(log.records().is_empty());
    p.set(s("a"), s("1"));
    p.clear();
    assert!(p.snapshot().is_empty());
}
