//! Child counter views and the observer panel fed by their events.

use vstd::prelude::*;

verus! {

/// The event a child counter emits on every change: the value it now holds
/// and the step that produced it. An immutable payload with no identity of
/// its own.
#[derive(Clone, Copy, Debug, PartialEq, Eq, Structural)]
pub struct CounterChangedEvent {
    pub new_value: i32,
    pub delta: i32,
}

/// A child counter: its display name, its count, and the background colour
/// its parent picked for it, as a packed `0xRRGGBBAA` value.
pub struct ChildCounter {
    pub name: String,
    pub count: i32,
    pub color: u32,
}

/// Which sibling an event or a log entry came from.
#[derive(Clone, Copy, Debug, PartialEq, Eq, Structural)]
pub enum CounterTag {
    A,
    B,
}

/// The most recent change the observer panel saw.
#[derive(Clone, Copy, Debug, PartialEq, Eq, Structural)]
pub enum ChangeNote {
    /// Nothing happened yet.
    Waiting,
    /// A counter reported a step.
    Stepped { source: CounterTag, delta: i32 },
    /// Everything was reset.
    Cleared,
}

/// The observer panel: a running total of all deltas, and a note about the
/// last change.
pub struct TotalDisplay {
    pub total: i32,
    pub last_change: ChangeNote,
}

impl ChildCounter {
    /// A new counter; the parent passes the initial state down through the
    /// constructor.
    pub fn new(name: String, initial_count: i32, color: u32) -> (c: Self)
        ensures
            c.name == name,
            c.count == initial_count,
            c.color == color,
    {
        ChildCounter { name, count: initial_count, color }
    }

    /// Steps the count up by one and reports the change as an event for
    /// whoever subscribed.
    pub fn increment(&mut self) -> (ev: CounterChangedEvent)
        requires
            old(self).count < i32::MAX,
        ensures
            final(self).count == old(self).count + 1,
            final(self).name == old(self).name,
            final(self).color == old(self).color,
            ev == (CounterChangedEvent { new_value: final(self).count, delta: 1i32 }),
    {
        self.count = self.count + 1;
        CounterChangedEvent { new_value: self.count, delta: 1 }
    }

    /// Steps the count down by one and reports the change.
    pub fn decrement(&mut self) -> (ev: CounterChangedEvent)
        requires
            old(self).count > i32::MIN,
        ensures
            final(self).count == old(self).count - 1,
            final(self).name == old(self).name,
            final(self).color == old(self).color,
            ev == (CounterChangedEvent { new_value: final(self).count, delta: -1i32 }),
    {
        self.count = self.count - 1;
        CounterChangedEvent { new_value: self.count, delta: -1 }
    }
}

impl TotalDisplay {
    /// A fresh panel: no changes seen, total zero.
    pub fn new() -> (d: Self)
        ensures
            d.total == 0,
            d.last_change == ChangeNote::Waiting,
    {
        TotalDisplay { total: 0, last_change: ChangeNote::Waiting }
    }

    /// Folds one counter event into the panel: the delta joins the total
    /// and the note records where it came from.
    pub fn apply(&mut self, source: CounterTag, ev: CounterChangedEvent)
        requires
            i32::MIN <= old(self).total + ev.delta <= i32::MAX,
        ensures
            final(self).total == old(self).total + ev.delta,
            final(self).last_change == (ChangeNote::Stepped { source, delta: ev.delta }),
    {
        self.total = self.total + ev.delta;
        self.last_change = ChangeNote::Stepped { source, delta: ev.delta };
    }

    /// Puts the panel back to zero and notes the reset.
    pub fn reset(&mut self)
        ensures
            final(self).total == 0,
            final(self).last_change == ChangeNote::Cleared,
    {
        self.total = 0;
        self.last_change = ChangeNote::Cleared;
    }
}

} // verus!
