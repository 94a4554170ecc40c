use vstd::prelude::*;

verus! {

/// An append-only history of accepted events, in arrival order.
pub struct EventLog<T> {
    entries: Vec<T>,
}

/// The history after appending each of `events` in turn.
pub open spec fn append_each<T>(history: Seq<T>, events: Seq<T>) -> Seq<T>
    decreases events.len(),
{
    if events.len() == 0 {
        history
    } else {
        append_each(history.push(events[0]), events.drop_first())
    }
}

impl<T> EventLog<T> {
    pub closed spec fn view(&self) -> Seq<T> {
        self.entries@
    }

    pub fn new() -> (log: Self)
        ensures
            log@ == Seq::<T>::empty(),
    {
        EventLog { entries: Vec::new() }
    }

    /// Adds one event at the end.
    pub fn append(&mut self, event: T)
        ensures
            final(self)@ == old(self)@.push(event),
    {
        self.entries.push(event);
    }

    /// Every recorded event, oldest first.
    pub fn records(&self) -> (r: &Vec<T>)
        ensures
            r@ == self@,
    {
        &self.entries
    }

    pub fn len(&self) -> (n: usize)
        ensures
            n == self@.len(),
    {
        self.entries.len()
    }

    /// Forgets every recorded event.
    pub fn clear(&mut self)
        ensures
            final(self)@ == Seq::<T>::empty(),
    {
        self.entries.clear();
    }
}

/// Appending events one by one loses none, duplicates none, and keeps their
/// order: the history grows by exactly those events.
pub proof fn lemma_appends_lose_nothing<T>(history: Seq<T>, events: Seq<T>)
    ensures
        append_each(history, events) == history + events,
        append_each(history, events).len() == history.len() + events.len(),
    decreases events.len(),
{
    if events.len() > 0 {
        lemma_appends_lose_nothing(history.push(events[0]), events.drop_first());
        assert(history.push(events[0]) + events.drop_first() =~= history + events);
    } else {
        assert(history + events =~= history);
    }
}

} // verus!
