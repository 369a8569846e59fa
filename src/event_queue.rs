//! An append-only buffer of events that is drained, whole and in order, once per frame.
use vstd::prelude::*;

verus! {

/// An ordered buffer: events are appended one by one and taken out all at once.
pub struct EventQueue<T> {
    items: Vec<T>,
}

impl<T> View for EventQueue<T> {
    type V = Seq<T>;

    /// The queued events, oldest first.
    closed spec fn view(&self) -> Seq<T> {
        self.items@
    }
}

impl<T> EventQueue<T> {
    pub fn new() -> (r: Self)
        ensures
            r@ == Seq::<T>::empty(),
    {
        EventQueue { items: Vec::new() }
    }

    /// Appends `event` after every event already queued.
    pub fn push(&mut self, event: T)
        ensures
            final(self)@ == old(self)@.push(event),
    {
        self.items.push(event);
    }

    /// Takes out every queued event, oldest first, and leaves the queue empty.
    pub fn drain(&mut self) -> (r: Vec<T>)
        ensures
            r@ == old(self)@,
            final(self)@ == Seq::<T>::empty(),
    {
        let mut taken: Vec<T> = Vec::new();
        std::mem::swap(&mut taken, &mut self.items);
        taken
    }

    /// Drops every queued event.
    pub fn clear(&mut self)
        ensures
            final(self)@ == Seq::<T>::empty(),
    {
        self.items.clear();
    }

    pub fn len(&self) -> (r: usize)
        ensures
            r == self@.len(),
    {
        self.items.len()
    }

    pub fn is_empty(&self) -> (r: bool)
        ensures
            r == (self@.len() == 0),
    {
        self.items.len() == 0
    }
}

/// The contents of a queue that held `start` after `events` were pushed one by one.
pub open spec fn after_pushes<T>(start: Seq<T>, events: Seq<T>) -> Seq<T>
    decreases events.len(),
{
    if events.len() == 0 {
        start
    } else {
        after_pushes(start, events.drop_last()).push(events.last())
    }
}

/// What two producers push, merged in arrival order: at step `i` the first producer
/// pushes its next event when `turns[i]` holds, and the second one otherwise.
pub open spec fn interleave<T>(first: Seq<T>, second: Seq<T>, turns: Seq<bool>) -> Seq<T>
    decreases turns.len(),
{
    if turns.len() == 0 {
        Seq::empty()
    } else if turns.last() {
        interleave(first.drop_last(), second, turns.drop_last()).push(first.last())
    } else {
        interleave(first, second.drop_last(), turns.drop_last()).push(second.last())
    }
}

/// The events of `merged` that arrived on the turns of producer `who`.
pub open spec fn from_producer<T>(merged: Seq<T>, turns: Seq<bool>, who: bool) -> Seq<T>
    decreases turns.len(),
{
    if turns.len() == 0 || merged.len() == 0 {
        Seq::empty()
    } else if turns.last() == who {
        from_producer(merged.drop_last(), turns.drop_last(), who).push(merged.last())
    } else {
        from_producer(merged.drop_last(), turns.drop_last(), who)
    }
}

/// How many turns belong to producer `who`.
pub open spec fn turns_of(turns: Seq<bool>, who: bool) -> nat
    decreases turns.len(),
{
    if turns.len() == 0 {
        0
    } else {
        turns_of(turns.drop_last(), who) + if turns.last() == who { 1nat } else { 0nat }
    }
}

proof fn lemma_after_pushes_appends<T>(start: Seq<T>, events: Seq<T>)
    ensures
        after_pushes(start, events) == start + events,
    decreases events.len(),
{
    if events.len() > 0 {
        lemma_after_pushes_appends(start, events.drop_last());
        assert(start + events =~= (start + events.drop_last()).push(events.last()));
    } else {
        assert(start + events =~= start);
    }
}

/// A drain of a queue that was empty and then received `events`, one push at a time,
/// returns exactly `events` in push order. (The drain leaves the queue empty, so a
/// second drain right after it returns nothing.) Pushes onto a queue that held
/// `start` keep `start` ahead of them.
pub proof fn lemma_drain_returns_pushes<T>(start: Seq<T>, events: Seq<T>)
    ensures
        after_pushes(Seq::<T>::empty(), events) == events,
        after_pushes(start, events) == start + events,
{
    lemma_after_pushes_appends(start, events);
    lemma_after_pushes_appends(Seq::<T>::empty(), events);
    assert(Seq::<T>::empty() + events =~= events);
}

/// Two producers push `first` and `second`, their pushes interleaved in any order
/// `turns`; one drain then returns every event once, and each producer's events
/// come out in the order that producer pushed them.
pub proof fn lemma_interleaved_pushes_drain<T>(first: Seq<T>, second: Seq<T>, turns: Seq<bool>)
    requires
        turns_of(turns, true) == first.len(),
        turns_of(turns, false) == second.len(),
    ensures
        ({
            let drained = after_pushes(Seq::<T>::empty(), interleave(first, second, turns));
            &&& drained.len() == first.len() + second.len()
            &&& from_producer(drained, turns, true) == first
            &&& from_producer(drained, turns, false) == second
        }),
{
    let merged = interleave(first, second, turns);
    lemma_drain_returns_pushes(Seq::<T>::empty(), merged);
    lemma_interleave_split(first, second, turns);
}

proof fn lemma_turns_total(turns: Seq<bool>)
    ensures
        turns_of(turns, true) + turns_of(turns, false) == turns.len(),
    decreases turns.len(),
{
    if turns.len() > 0 {
        lemma_turns_total(turns.drop_last());
    }
}

proof fn lemma_interleave_split<T>(first: Seq<T>, second: Seq<T>, turns: Seq<bool>)
    requires
        turns_of(turns, true) == first.len(),
        turns_of(turns, false) == second.len(),
    ensures
        interleave(first, second, turns).len() == turns.len(),
        turns.len() == first.len() + second.len(),
        from_producer(interleave(first, second, turns), turns, true) == first,
        from_producer(interleave(first, second, turns), turns, false) == second,
    decreases turns.len(),
{
    lemma_turns_total(turns);
    if turns.len() == 0 {
        assert(first =~= Seq::<T>::empty());
        assert(second =~= Seq::<T>::empty());
    } else {
        let rest = turns.drop_last();
        if turns.last() {
            lemma_interleave_split(first.drop_last(), second, rest);
            let m = interleave(first, second, turns);
            assert(m.drop_last() =~= interleave(first.drop_last(), second, rest));
            assert(first.drop_last().push(first.last()) =~= first);
        } else {
            lemma_interleave_split(first, second.drop_last(), rest);
            let m = interleave(first, second, turns);
            assert(m.drop_last() =~= interleave(first, second.drop_last(), rest));
            assert(second.drop_last().push(second.last()) =~= second);
        }
    }
}

} // verus!
