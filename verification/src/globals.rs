//! Process-wide state, one value per type.
//!
//! A [`GlobalCell`] is the slot a single global type occupies: empty until
//! the first explicit `set`, overwritten by each later `set`, and read
//! either gracefully (`try_get`, which reports absence) or assertively
//! (`get`, whose caller must have established that the value was set).

use vstd::prelude::*;

use crate::channel::{emit_step, Channel};

verus! {

/// The source under which observers of a global type subscribe on its
/// observation channel: globals have no store slot, so one fixed source
/// stands for the single value of the type.
pub const GLOBAL_SOURCE: usize = 0;

/// What a fresh cell holds: nothing, until the first explicit set.
pub open spec fn fresh_model<T>() -> Option<T> {
    None
}

/// What `set` leaves in a cell, whatever it held: the new value.
pub open spec fn set_model<T>(cell: Option<T>, value: T) -> Option<T> {
    Some(value)
}

/// The slot of one global type.
pub struct GlobalCell<T> {
    value: Option<T>,
}

impl<T> View for GlobalCell<T> {
    type V = Option<T>;

    closed spec fn view(&self) -> Option<T> {
        self.value
    }
}

impl<T> GlobalCell<T> {
    /// A cell with nothing set yet.
    pub fn new() -> (c: Self)
        ensures
            c@ == fresh_model::<T>(),
            c@ is None,
    {
        GlobalCell { value: None }
    }

    /// Inserts or replaces the global value.
    pub fn set(&mut self, value: T)
        ensures
            final(self)@ == set_model(old(self)@, value),
            final(self)@ == Some(value),
    {
        self.value = Some(value);
    }

    /// Whether a value was set.
    pub fn is_set(&self) -> (b: bool)
        ensures
            b == (self@ is Some),
    {
        self.value.is_some()
    }

    /// The current value, or absence when nothing was set yet.
    pub fn try_get(&self) -> (r: Option<&T>)
        ensures
            match r {
                Some(t) => self@ == Some(*t),
                None => self@ is None,
            },
    {
        match &self.value {
            Some(t) => Some(t),
            None => None,
        }
    }

    /// The current value. The caller asserts presence: reading an unset
    /// global this way is a programmer error, so the unset case is ruled
    /// out here rather than handled.
    pub fn get(&self) -> (r: &T)
        requires
            self@ is Some,
        ensures
            self@ == Some(*r),
    {
        match &self.value {
            Some(t) => t,
            None => vstd::pervasive::unreached(),
        }
    }
}

/// Sets the global and raises the change notification for its observers:
/// every view that subscribed to the type's observation channel hears the
/// new value.
pub fn set_and_notify<T: Copy>(cell: &mut GlobalCell<T>, watchers: &mut Channel<T>, value: T)
    ensures
        final(cell)@ == set_model(old(cell)@, value),
        final(cell)@ == Some(value),
        final(watchers)@ == emit_step(old(watchers)@, GLOBAL_SOURCE as int, value),
{
    cell.set(value);
    watchers.emit(GLOBAL_SOURCE, value);
}

/// A set followed by a get returns the value just set, whatever the cell
/// held before; and a fresh cell, before any set, reports absence rather
/// than a value.
pub proof fn lemma_set_then_get<T>(cell: Option<T>, value: T)
    ensures
        set_model(cell, value) == Some(value),
        fresh_model::<T>() is None,
{
}

} // verus!
