use crate::model::{StorageEvent, StorageOperation};
use crate::table::StrTable;
use vstd::prelude::*;

verus! {

/// The last known state of a client's key/value store, as characters: each
/// key maps to its value, or to none where a snapshot said so.
pub type ProjectionView = Map<Seq<char>, Option<Seq<char>>>;

/// The map that a snapshot of key/value pairs describes; a later pair for the
/// same key wins.
pub open spec fn snapshot_map(pairs: Seq<(String, Option<String>)>) -> ProjectionView
    decreases pairs.len(),
{
    if pairs.len() == 0 {
        Map::empty()
    } else {
        let last = pairs.last();
        snapshot_map(pairs.drop_last()).insert(last.0@, last.1.deep_view())
    }
}

/// What one storage event does to the projection. An event that lacks a field
/// its operation needs leaves the projection as it was.
pub open spec fn apply_storage_event(m: ProjectionView, ev: StorageEvent) -> ProjectionView {
    match ev.operation {
        StorageOperation::SetItem => match (ev.key, ev.value) {
            (Some(k), Some(v)) => m.insert(k@, Some(v@)),
            _ => m,
        },
        StorageOperation::RemoveItem => match ev.key {
            Some(k) => m.remove(k@),
            None => m,
        },
        StorageOperation::Clear => Map::empty(),
        StorageOperation::BulkReplace => match ev.data {
            Some(pairs) => snapshot_map(pairs@),
            None => m,
        },
    }
}

/// The materialised key/value state of a client's store.
pub struct KeyValueProjection {
    table: StrTable<Option<String>>,
}

impl KeyValueProjection {
    pub closed spec fn view(&self) -> ProjectionView {
        self.table@
    }

    #[verifier::type_invariant]
    closed spec fn wf(&self) -> bool {
        self.table.wf()
    }

    pub fn new() -> (p: Self)
        ensures
            p@ == ProjectionView::empty(),
    {
        KeyValueProjection { table: StrTable::new() }
    }

    /// Stores `value` under `key`, replacing what was there.
    pub fn set(&mut self, key: String, value: String)
        ensures
            final(self)@ == old(self)@.insert(key@, Some(value@)),
    {
        proof { use_type_invariant(&*self); }
        let mut table = StrTable::new();
        std::mem::swap(&mut table, &mut self.table);
        table.insert(key, Some(value));
        self.table = table;
    }

    /// Deletes `key`; nothing happens where it is absent.
    pub fn remove(&mut self, key: &String)
        ensures
            final(self)@ == old(self)@.remove(key@),
    {
        proof { use_type_invariant(&*self); }
        let mut table = StrTable::new();
        std::mem::swap(&mut table, &mut self.table);
        table.remove(key);
        self.table = table;
    }

    /// Empties the projection.
    pub fn clear(&mut self)
        ensures
            final(self)@ == ProjectionView::empty(),
    {
        self.table = StrTable::new();
    }

    /// Replaces the whole projection by the snapshot.
    pub fn replace_all(&mut self, snapshot: &Vec<(String, Option<String>)>)
        ensures
            final(self)@ == snapshot_map(snapshot@),
    {
        let mut table = StrTable::new();
        let mut i: usize = 0;
        while i < snapshot.len()
            invariant
                table.wf(),
                i <= snapshot@.len(),
                table@ == snapshot_map(snapshot@.subrange(0, i as int)),
            decreases snapshot@.len() - i,
        {
            let key = snapshot[i].0.clone();
            let value = match &snapshot[i].1 {
                Some(v) => Some(v.clone()),
                None => None,
            };
            table.insert(key, value);
            assert(snapshot@.subrange(0, i + 1).drop_last() =~= snapshot@.subrange(0, i as int));
            i += 1;
        }
        assert(snapshot@.subrange(0, i as int) =~= snapshot@);
        self.table = table;
    }

    /// Applies one storage event.
    pub fn apply(&mut self, ev: &StorageEvent)
        ensures
            final(self)@ == apply_storage_event(old(self)@, *ev),
    {
        match ev.operation {
            StorageOperation::SetItem => match (&ev.key, &ev.value) {
                (Some(k), Some(v)) => self.set(k.clone(), v.clone()),
                _ => {},
            },
            StorageOperation::RemoveItem => match &ev.key {
                Some(k) => self.remove(k),
                None => {},
            },
            StorageOperation::Clear => self.clear(),
            StorageOperation::BulkReplace => match &ev.data {
                Some(pairs) => self.replace_all(pairs),
                None => {},
            },
        }
    }

    /// The value recorded for `key`: `None` where the key is absent,
    /// `Some(None)` where it is present without a value.
    pub fn get(&self, key: &String) -> (r: Option<Option<String>>)
        ensures
            match r {
                Some(v) => self@.contains_key(key@) && self@[key@] == v.deep_view(),
                None => !self@.contains_key(key@),
            },
    {
        proof { use_type_invariant(&*self); }
        match self.table.get(key) {
            Some(v) => Some(
                match v {
                    Some(s) => Some(s.clone()),
                    None => None,
                },
            ),
            None => None,
        }
    }

    pub fn len(&self) -> (n: usize)
        ensures
            n == self@.len(),
    {
        proof { use_type_invariant(&*self); }
        self.table.len()
    }

    /// A copy of every key with its value, each key once.
    pub fn snapshot(&self) -> (r: Vec<(String, Option<String>)>)
        ensures
            r@.len() == self@.len(),
            forall|i: int, j: int| 0 <= i < j < r@.len() ==> #[trigger] r@[i].0@ != #[trigger] r@[j].0@,
            forall|i: int|
                #![trigger r@[i]]
                0 <= i < r@.len() ==> self@.contains_key(r@[i].0@) && self@[r@[i].0@] == r@[i].1.deep_view(),
    {
        proof { use_type_invariant(&*self); }
        self.table.to_pairs()
    }
}

/// Setting a key and then removing it leaves the key absent; a clear after
/// that leaves the projection empty, whatever it held before.
pub proof fn lemma_set_remove_clear(
    before: ProjectionView,
    set: StorageEvent,
    remove: StorageEvent,
    clear: StorageEvent,
)
    requires
        set.operation == StorageOperation::SetItem,
        set.key is Some,
        set.value is Some,
        remove.operation == StorageOperation::RemoveItem,
        remove.key is Some,
        remove.key->0@ == set.key->0@,
        clear.operation == StorageOperation::Clear,
    ensures
        !apply_storage_event(apply_storage_event(before, set), remove).contains_key(set.key->0@),
        apply_storage_event(apply_storage_event(apply_storage_event(before, set), remove), clear)
            == ProjectionView::empty(),
{
}

/// A bulk replace with a snapshot leaves exactly the snapshot: whatever the
/// projection held before is discarded.
pub proof fn lemma_bulk_replace_discards_prior(
    first: ProjectionView,
    second: ProjectionView,
    replace: StorageEvent,
)
    requires
        replace.operation == StorageOperation::BulkReplace,
        replace.data is Some,
    ensures
        apply_storage_event(first, replace) == snapshot_map(replace.data->0@),
        apply_storage_event(first, replace) == apply_storage_event(second, replace),
{
}

} // verus!
