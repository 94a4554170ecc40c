use crate::table::StrTable;
use vstd::prelude::*;

verus! {

/// Time in seconds from `then` to `now`; zero when `then` lies ahead of `now`.
pub open spec fn elapsed(now: u64, then: u64) -> u64 {
    if now >= then {
        (now - then) as u64
    } else {
        0
    }
}

/// The entries of `m` last seen less than `window` seconds before `now`.
pub open spec fn recent_entries(m: Map<Seq<char>, u64>, now: u64, window: u64) -> Map<Seq<char>, u64> {
    Map::new(|k: Seq<char>| m.contains_key(k) && elapsed(now, m[k]) < window, |k: Seq<char>| m[k])
}

/// A repeat of a signature seen less than this many seconds ago is dropped.
pub const SUPPRESSION_WINDOW_SECS: u64 = 2;

/// Signatures last seen this many seconds ago or earlier are forgotten.
pub const RETENTION_WINDOW_SECS: u64 = 300;

/// What the cache decides for `signature` at time `now`, and the cache after:
/// stale entries are evicted first; a signature still present and seen less
/// than two seconds ago is refused and leaves its time stamp alone; any other
/// is admitted and stamped with `now`.
pub open spec fn admit_outcome(cache: Map<Seq<char>, u64>, signature: Seq<char>, now: u64) -> (
    bool,
    Map<Seq<char>, u64>,
) {
    let live = recent_entries(cache, now, RETENTION_WINDOW_SECS);
    if live.contains_key(signature) && elapsed(now, live[signature]) < SUPPRESSION_WINDOW_SECS {
        (false, live)
    } else {
        (true, live.insert(signature, now))
    }
}

/// Time-windowed memory of recently admitted request signatures. It only
/// suppresses bursts of identical events; it does not make delivery
/// exactly-once.
pub struct DedupCache {
    seen: StrTable<u64>,
}

impl DedupCache {
    /// Each remembered signature with the time it was last admitted.
    pub closed spec fn view(&self) -> Map<Seq<char>, u64> {
        self.seen@
    }

    #[verifier::type_invariant]
    closed spec fn wf(&self) -> bool {
        self.seen.wf()
    }

    pub fn new() -> (c: Self)
        ensures
            c@ == Map::<Seq<char>, u64>::empty(),
    {
        DedupCache { seen: StrTable::new() }
    }

    pub fn len(&self) -> (n: usize)
        ensures
            n == self@.len(),
    {
        proof { use_type_invariant(&*self); }
        self.seen.len()
    }

    /// Decides whether an event with this signature, arriving at `now`
    /// (seconds since the epoch), is new enough to keep.
    pub fn check_and_record(&mut self, signature: String, now: u64) -> (admitted: bool)
        ensures
            (admitted, final(self)@) == admit_outcome(old(self)@, signature@, now),
    {
        proof { use_type_invariant(&*self); }
        let mut seen = StrTable::new();
        std::mem::swap(&mut seen, &mut self.seen);
        seen.retain_recent(now, RETENTION_WINDOW_SECS);
        let duplicate = match seen.get(&signature) {
            Some(last_seen) => {
                let last = *last_seen;
                let since = if now >= last { now - last } else { 0 };
                since < SUPPRESSION_WINDOW_SECS
            },
            None => false,
        };
        if !duplicate {
            seen.insert(signature, now);
        }
        self.seen = seen;
        !duplicate
    }
}

/// A signature admitted at `first` is refused when it comes again less than
/// two seconds later.
pub proof fn lemma_burst_is_suppressed(
    cache: Map<Seq<char>, u64>,
    signature: Seq<char>,
    first: u64,
    second: u64,
)
    requires
        admit_outcome(cache, signature, first).0,
        elapsed(second, first) < SUPPRESSION_WINDOW_SECS,
    ensures
        !admit_outcome(admit_outcome(cache, signature, first).1, signature, second).0,
{
    let after = admit_outcome(cache, signature, first).1;
    assert(after.contains_key(signature) && after[signature] == first);
    assert(recent_entries(after, second, RETENTION_WINDOW_SECS).contains_key(signature));
}

/// A signature that comes again two seconds or more after an earlier arrival
/// is admitted the second time, provided the cache did not hold a time stamp
/// for it later than that earlier arrival.
pub proof fn lemma_spaced_repeat_is_admitted(
    cache: Map<Seq<char>, u64>,
    signature: Seq<char>,
    first: u64,
    second: u64,
)
    requires
        cache.contains_key(signature) ==> cache[signature] <= first,
        second >= first + SUPPRESSION_WINDOW_SECS,
    ensures
        admit_outcome(admit_outcome(cache, signature, first).1, signature, second).0,
{
    let mid = admit_outcome(cache, signature, first);
    if mid.0 {
        assert(mid.1[signature] == first);
    } else {
        let live = recent_entries(cache, first, RETENTION_WINDOW_SECS);
        assert(mid.1 == live);
        assert(live.contains_key(signature) ==> live[signature] <= first);
    }
}

} // verus!
