use crate::dedup::{elapsed, recent_entries};
use vstd::prelude::*;

verus! {

/// A small association table keyed by strings, with unique keys.
///
/// Its abstract value is a map from the key's characters to the deep view
/// of the stored value.
pub struct StrTable<V: DeepView> {
    entries: Vec<(String, V)>,
    model: Ghost<Map<Seq<char>, V::V>>,
}

impl<V: DeepView> StrTable<V> {
    pub closed spec fn view(&self) -> Map<Seq<char>, V::V> {
        self.model@
    }

    pub closed spec fn wf(&self) -> bool {
        &&& forall|i: int, j: int|
            0 <= i < j < self.entries@.len() ==> #[trigger] self.entries@[i].0@
                != #[trigger] self.entries@[j].0@
        &&& forall|i: int|
            #![trigger self.entries@[i]]
            0 <= i < self.entries@.len() ==> self.model@.contains_key(self.entries@[i].0@)
                && self.model@[self.entries@[i].0@] == self.entries@[i].1.deep_view()
        &&& forall|k: Seq<char>|
            #[trigger] self.model@.contains_key(k) ==> exists|i: int|
                0 <= i < self.entries@.len() && #[trigger] self.entries@[i].0@ == k
    }

    pub fn new() -> (t: Self)
        ensures
            t.wf(),
            t@ == Map::<Seq<char>, V::V>::empty(),
    {
        StrTable { entries: Vec::new(), model: Ghost(Map::empty()) }
    }

    pub fn len(&self) -> (n: usize)
        requires
            self.wf(),
        ensures
            n == self@.len(),
    {
        proof { self.lemma_len(); }
        self.entries.len()
    }

    proof fn lemma_len(&self)
        requires
            self.wf(),
        ensures
            self@.len() == self.entries@.len(),
            self@.dom().finite(),
    {
        let keys = self.entries@.map_values(|e: (String, V)| e.0@);
        assert forall|i: int, j: int| 0 <= i < j < keys.len() implies keys[i] != keys[j] by {
            assert(self.entries@[i].0@ != self.entries@[j].0@);
        }
        keys.unique_seq_to_set();
        assert(self.model@.dom() =~= keys.to_set()) by {
            assert forall|k: Seq<char>| self.model@.dom().contains(k) implies keys.to_set().contains(k) by {
                let i = choose|i: int| 0 <= i < self.entries@.len() && #[trigger] self.entries@[i].0@ == k;
                assert(keys[i] == k);
            }
            assert forall|k: Seq<char>| keys.to_set().contains(k) implies self.model@.dom().contains(k) by {
                let i = choose|i: int| 0 <= i < keys.len() && keys[i] == k;
                assert(self.entries@[i].0@ == k);
            }
        }
    }

    fn find(&self, key: &String) -> (r: Option<usize>)
        requires
            self.wf(),
        ensures
            match r {
                Some(i) => i < self.entries@.len() && self.entries@[i as int].0@ == key@,
                None => !self@.contains_key(key@),
            },
    {
        let mut i: usize = 0;
        while i < self.entries.len()
            invariant
                self.wf(),
                i <= self.entries@.len(),
                forall|j: int| 0 <= j < i ==> #[trigger] self.entries@[j].0@ != key@,
            decreases self.entries@.len() - i,
        {
            if self.entries[i].0 == *key {
                return Some(i);
            }
            i += 1;
        }
        None
    }

    pub fn get(&self, key: &String) -> (r: Option<&V>)
        requires
            self.wf(),
        ensures
            match r {
                Some(v) => self@.contains_key(key@) && self@[key@] == v.deep_view(),
                None => !self@.contains_key(key@),
            },
    {
        match self.find(key) {
            Some(i) => {
                assert(self.entries@[i as int].0@ == key@);
                Some(&self.entries[i].1)
            },
            None => None,
        }
    }

    pub fn insert(&mut self, key: String, value: V)
        requires
            old(self).wf(),
        ensures
            final(self).wf(),
            final(self)@ == old(self)@.insert(key@, value.deep_view()),
    {
        let ghost k = key@;
        let ghost dv = value.deep_view();
        match self.find(&key) {
            Some(i) => {
                self.entries.set(i, (key, value));
                self.model = Ghost(self.model@.insert(k, dv));
                assert forall|k2: Seq<char>| #[trigger] self.model@.contains_key(k2) implies exists|j: int|
                    0 <= j < self.entries@.len() && #[trigger] self.entries@[j].0@ == k2 by {
                    if k2 != k {
                        let j = choose|j: int| 0 <= j < old(self).entries@.len() && #[trigger] old(self).entries@[j].0@ == k2;
                        assert(self.entries@[j].0@ == k2);
                    } else {
                        assert(self.entries@[i as int].0@ == k2);
                    }
                }
            },
            None => {
                self.entries.push((key, value));
                self.model = Ghost(self.model@.insert(k, dv));
                let ghost n = self.entries@.len() - 1;
                assert(self.entries@[n].0@ == k);
                assert forall|k2: Seq<char>| #[trigger] self.model@.contains_key(k2) implies exists|j: int|
                    0 <= j < self.entries@.len() && #[trigger] self.entries@[j].0@ == k2 by {
                    if k2 != k {
                        let j = choose|j: int| 0 <= j < old(self).entries@.len() && #[trigger] old(self).entries@[j].0@ == k2;
                        assert(self.entries@[j].0@ == k2);
                    }
                }
                assert forall|a: int, b: int|
                    0 <= a < b < self.entries@.len() implies #[trigger] self.entries@[a].0@
                        != #[trigger] self.entries@[b].0@ by {
                    if b == n {
                        assert(old(self).model@.contains_key(old(self).entries@[a].0@));
                    }
                }
            },
        }
    }

    pub fn remove(&mut self, key: &String)
        requires
            old(self).wf(),
        ensures
            final(self).wf(),
            final(self)@ == old(self)@.remove(key@),
    {
        match self.find(key) {
            Some(i) => {
                self.remove_at(i);
            },
            None => {
                assert(self.model@.remove(key@) =~= self.model@);
            },
        }
    }

    fn remove_at(&mut self, i: usize)
        requires
            old(self).wf(),
            i < old(self).entries@.len(),
        ensures
            final(self).wf(),
            final(self)@ == old(self)@.remove(old(self).entries@[i as int].0@),
            final(self).entries@ == old(self).entries@.remove(i as int),
    {
        let ghost k = self.entries@[i as int].0@;
        self.entries.remove(i);
        self.model = Ghost(self.model@.remove(k));
        assert forall|j: int| #![trigger self.entries@[j]] 0 <= j < self.entries@.len() implies
            self.model@.contains_key(self.entries@[j].0@)
                && self.model@[self.entries@[j].0@] == self.entries@[j].1.deep_view() by {
            if j < i {
                assert(old(self).entries@[j] == self.entries@[j]);
            } else {
                assert(old(self).entries@[j + 1] == self.entries@[j]);
            }
        }
        assert forall|k2: Seq<char>| #[trigger] self.model@.contains_key(k2) implies exists|j: int|
            0 <= j < self.entries@.len() && #[trigger] self.entries@[j].0@ == k2 by {
            let j = choose|j: int| 0 <= j < old(self).entries@.len() && #[trigger] old(self).entries@[j].0@ == k2;
            if j < i {
                assert(self.entries@[j].0@ == k2);
            } else {
                assert(j != i);
                assert(self.entries@[j - 1].0@ == k2);
            }
        }
        assert forall|a: int, b: int|
            0 <= a < b < self.entries@.len() implies #[trigger] self.entries@[a].0@
                != #[trigger] self.entries@[b].0@ by {
            let a0 = if a < i { a } else { a + 1 };
            let b0 = if b < i { b } else { b + 1 };
            assert(self.entries@[a] == old(self).entries@[a0]);
            assert(self.entries@[b] == old(self).entries@[b0]);
        }
    }

    pub fn clear(&mut self)
        ensures
            final(self).wf(),
            final(self)@ == Map::<Seq<char>, V::V>::empty(),
    {
        self.entries.clear();
        self.model = Ghost(Map::empty());
    }
}

impl StrTable<u64> {
    /// Drops every entry whose time stamp is `window` seconds or more before `now`.
    pub fn retain_recent(&mut self, now: u64, window: u64)
        requires
            old(self).wf(),
        ensures
            final(self).wf(),
            final(self)@ == recent_entries(old(self)@, now, window),
    {
        let mut kept: StrTable<u64> = StrTable::new();
        let mut j: usize = 0;
        while j < self.entries.len()
            invariant
                self.wf(),
                kept.wf(),
                j <= self.entries@.len(),
                forall|k: Seq<char>| #[trigger] kept@.contains_key(k) ==> self@.contains_key(k)
                    && kept@[k] == self@[k] && elapsed(now, self@[k]) < window,
                forall|p: int| #![trigger self.entries@[p]] 0 <= p < j && elapsed(now, self.entries@[p].1) < window
                    ==> kept@.contains_key(self.entries@[p].0@),
            decreases self.entries@.len() - j,
        {
            let stamp = self.entries[j].1;
            let elapsed_secs = if now >= stamp { now - stamp } else { 0 };
            if elapsed_secs < window {
                let key = self.entries[j].0.clone();
                kept.insert(key, stamp);
            }
            assert(self.entries@[j as int].1 == stamp);
            j += 1;
        }
        proof {
            let target = recent_entries(self@, now, window);
            assert forall|k: Seq<char>| #[trigger] target.contains_key(k) implies kept@.contains_key(k) by {
                let p = choose|p: int| 0 <= p < self.entries@.len() && #[trigger] self.entries@[p].0@ == k;
                assert(self.entries@[p].1 == self@[k]);
            }
            assert(kept@ =~= target);
        }
        *self = kept;
    }
}

impl StrTable<Option<String>> {
    /// A copy of every entry, in no particular order.
    pub fn to_pairs(&self) -> (r: Vec<(String, Option<String>)>)
        requires
            self.wf(),
        ensures
            r@.len() == self@.len(),
            forall|i: int, j: int| 0 <= i < j < r@.len() ==> #[trigger] r@[i].0@ != #[trigger] r@[j].0@,
            forall|i: int|
                #![trigger r@[i]]
                0 <= i < r@.len() ==> self@.contains_key(r@[i].0@) && self@[r@[i].0@] == r@[i].1.deep_view(),
    {
        proof { self.lemma_len(); }
        let mut r: Vec<(String, Option<String>)> = Vec::new();
        let mut j: usize = 0;
        while j < self.entries.len()
            invariant
                self.wf(),
                j <= self.entries@.len(),
                r@.len() == j,
                forall|i: int| #![trigger r@[i]] 0 <= i < j ==> r@[i].0@ == self.entries@[i].0@
                    && r@[i].1.deep_view() == self.entries@[i].1.deep_view(),
            decreases self.entries@.len() - j,
        {
            let key = self.entries[j].0.clone();
            let value = match &self.entries[j].1 {
                Some(v) => Some(v.clone()),
                None => None,
            };
            r.push((key, value));
            j += 1;
        }
        assert forall|a: int, b: int| 0 <= a < b < r@.len() implies #[trigger] r@[a].0@ != #[trigger] r@[b].0@ by {
            assert(r@[a].0@ == self.entries@[a].0@);
            assert(r@[b].0@ == self.entries@[b].0@);
        }
        assert forall|i: int| #![trigger r@[i]] 0 <= i < r@.len() implies
            self@.contains_key(r@[i].0@) && self@[r@[i].0@] == r@[i].1.deep_view() by {
            assert(self.entries@[i].0@ == r@[i].0@);
        }
        r
    }
}

} // verus!
