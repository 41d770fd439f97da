//! A bounded, append-only history.
//!
//! Several views keep a short log of recent happenings (events received,
//! actions handled, focus changes, keys pressed) that is capped at a fixed
//! number of entries: appending beyond the cap drops the oldest entry.

use vstd::prelude::*;

verus! {

/// A log that keeps at most `cap` entries, newest last.
pub struct BoundedLog<T> {
    entries: Vec<T>,
    cap: usize,
}

impl<T> View for BoundedLog<T> {
    type V = Seq<T>;

    closed spec fn view(&self) -> Seq<T> {
        self.entries@
    }
}

impl<T> BoundedLog<T> {
    /// The fixed capacity of this log.
    pub closed spec fn spec_cap(&self) -> int {
        self.cap as int
    }

    /// The log never holds more than its capacity.
    pub open spec fn wf(&self) -> bool {
        self@.len() <= self.spec_cap()
    }

    /// What one append does: the entry goes to the end, and when the log
    /// was full the oldest entry leaves.
    pub open spec fn push_model(log: Seq<T>, cap: int, entry: T) -> Seq<T> {
        if log.len() < cap {
            log.push(entry)
        } else {
            log.push(entry).drop_first()
        }
    }

    /// An empty log with the given capacity.
    pub fn new(cap: usize) -> (log: Self)
        ensures
            log@ == Seq::<T>::empty(),
            log.spec_cap() == cap,
            log.wf(),
    {
        BoundedLog { entries: Vec::new(), cap }
    }

    /// The capacity.
    pub fn cap(&self) -> (c: usize)
        ensures
            c == self.spec_cap(),
    {
        self.cap
    }

    /// Number of entries currently held.
    pub fn len(&self) -> (n: usize)
        ensures
            n == self@.len(),
    {
        self.entries.len()
    }

    /// Appends an entry, dropping the oldest one when the log is full.
    pub fn push(&mut self, entry: T)
        requires
            old(self).wf(),
        ensures
            final(self)@ == Self::push_model(old(self)@, old(self).spec_cap(), entry),
            final(self).spec_cap() == old(self).spec_cap(),
            final(self).wf(),
    {
        self.entries.push(entry);
        if self.entries.len() > self.cap {
            self.entries.remove(0);
        }
    }

    /// Drops every entry.
    pub fn clear(&mut self)
        ensures
            final(self)@ == Seq::<T>::empty(),
            final(self).spec_cap() == old(self).spec_cap(),
            final(self).wf(),
    {
        self.entries.clear();
    }

    /// The entries, oldest first.
    pub fn entries(&self) -> (r: &Vec<T>)
        ensures
            r@ == self@,
    {
        &self.entries
    }
}

} // verus!
