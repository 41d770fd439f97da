//! A store of shared state slots with stable indices.
//!
//! Every view's state lives in one slot of a `Store`. Holders address a slot
//! through reference-counted [`Handle`]s: `insert` creates a slot with one
//! reference, `retain` hands out a further reference to the same slot, and
//! `release` gives one back, dropping the slot's value when the last
//! reference goes. A [`WeakHandle`] names a slot without keeping it alive;
//! it can be upgraded only while the slot still holds a value.

use vstd::prelude::*;

verus! {

/// One state slot: a reference count and the stored value, if the slot is
/// still alive. A slot whose value was dropped is never reused, so indices
/// stay stable.
pub struct Slot<T> {
    /// Number of strong handles that address this slot.
    pub refs: usize,
    /// The stored state; `None` once the last strong handle was released.
    pub value: Option<T>,
}

/// A strong, owning reference to one slot of a store. It cannot be copied;
/// a further holder is made with [`Store::retain`], and a holder gives its
/// reference back with [`Store::release`].
pub struct Handle {
    id: usize,
}

/// A non-owning reference to a slot. It does not keep the slot's value
/// alive; [`Store::upgrade`] yields a strong handle only while the value is
/// still there.
#[derive(Clone, Copy)]
pub struct WeakHandle {
    id: usize,
}

/// The store itself: a growing sequence of slots.
pub struct Store<T> {
    slots: Vec<Slot<T>>,
}

impl View for Handle {
    type V = int;

    closed spec fn view(&self) -> int {
        self.id as int
    }
}

impl View for WeakHandle {
    type V = int;

    closed spec fn view(&self) -> int {
        self.id as int
    }
}

impl<T> View for Store<T> {
    type V = Seq<Slot<T>>;

    closed spec fn view(&self) -> Seq<Slot<T>> {
        self.slots@
    }
}

impl Handle {
    /// The slot index this handle addresses.
    pub fn index(&self) -> (i: usize)
        ensures
            i == self@,
    {
        self.id
    }
}

impl WeakHandle {
    /// The slot index this weak handle addresses.
    pub fn index(&self) -> (i: usize)
        ensures
            i == self@,
    {
        self.id
    }
}

impl<T> Store<T> {
    /// A slot's value is present exactly while strong handles remain.
    pub open spec fn wf(&self) -> bool {
        forall|i: int|
            0 <= i < self@.len() ==> (#[trigger] self@[i].value is Some <==> self@[i].refs >= 1)
    }

    /// A strong handle is valid when it addresses a live slot.
    pub open spec fn valid(&self, h: &Handle) -> bool {
        &&& 0 <= h@ < self@.len()
        &&& self@[h@].value is Some
    }

    /// The value a valid handle addresses.
    pub open spec fn value_of(&self, h: &Handle) -> T
        recommends
            self.valid(h),
    {
        self@[h@].value->0
    }

    /// Whether the slot a weak handle addresses still holds a value.
    pub open spec fn live_at(&self, id: int) -> bool {
        &&& 0 <= id < self@.len()
        &&& self@[id].value is Some
    }

    /// An empty store.
    pub fn new() -> (s: Self)
        ensures
            s@ == Seq::<Slot<T>>::empty(),
            s.wf(),
    {
        Store { slots: Vec::new() }
    }

    /// Number of slots ever created (live or not).
    pub fn len(&self) -> (n: usize)
        ensures
            n == self@.len(),
    {
        self.slots.len()
    }

    /// Creates a new slot holding `value` and returns its first handle.
    pub fn insert(&mut self, value: T) -> (h: Handle)
        requires
            old(self).wf(),
        ensures
            final(self).wf(),
            h@ == old(self)@.len(),
            final(self)@ == old(self)@.push(Slot { refs: 1usize, value: Some(value) }),
            final(self).valid(&h),
    {
        let id = self.slots.len();
        self.slots.push(Slot { refs: 1, value: Some(value) });
        Handle { id }
    }

    /// Hands out a further strong handle to the same slot.
    pub fn retain(&mut self, h: &Handle) -> (h2: Handle)
        requires
            old(self).wf(),
            old(self).valid(h),
            old(self)@[h@].refs < usize::MAX,
        ensures
            final(self).wf(),
            h2@ == h@,
            final(self)@ == old(self)@.update(
                h@,
                Slot { refs: (old(self)@[h@].refs + 1) as usize, value: old(self)@[h@].value },
            ),
            final(self).valid(h),
            final(self).valid(&h2),
    {
        let id = h.id;
        let refs = self.slots[id].refs;
        self.slots[id].refs = refs + 1;
        Handle { id }
    }

    /// Gives one strong reference back. When it was the last one, the
    /// slot's value is dropped and weak handles to it can no longer be
    /// upgraded.
    pub fn release(&mut self, h: Handle)
        requires
            old(self).wf(),
            old(self).valid(&h),
        ensures
            final(self).wf(),
            old(self)@[h@].refs == 1 ==> final(self)@ == old(self)@.update(
                h@,
                Slot { refs: 0usize, value: None },
            ),
            old(self)@[h@].refs > 1 ==> final(self)@ == old(self)@.update(
                h@,
                Slot {
                    refs: (old(self)@[h@].refs - 1) as usize,
                    value: old(self)@[h@].value,
                },
            ),
    {
        let id = h.id;
        let refs = self.slots[id].refs;
        if refs == 1 {
            self.slots[id].refs = 0;
            self.slots[id].value = None;
        } else {
            self.slots[id].refs = refs - 1;
        }
    }

    /// Reads the state a handle addresses.
    pub fn read(&self, h: &Handle) -> (r: &T)
        requires
            self.wf(),
            self.valid(h),
        ensures
            *r == self.value_of(h),
    {
        match &self.slots[h.id].value {
            Some(t) => t,
            None => vstd::pervasive::unreached(),
        }
    }

    /// Mutable access to the state a handle addresses; the slot afterwards
    /// holds whatever the caller left behind the returned reference.
    pub fn get_mut(&mut self, h: &Handle) -> (r: &mut T)
        requires
            old(self).wf(),
            old(self).valid(h),
        ensures
            *r == old(self).value_of(h),
            final(self)@ == old(self)@.update(
                h@,
                Slot { refs: old(self)@[h@].refs, value: Some(*final(r)) },
            ),
            final(self).wf(),
            final(self).valid(h),
    {
        match &mut self.slots[h.id].value {
            Some(t) => t,
            None => vstd::pervasive::unreached(),
        }
    }

    /// Replaces the state a handle addresses, returning the previous value.
    pub fn replace(&mut self, h: &Handle, value: T) -> (prev: T)
        requires
            old(self).wf(),
            old(self).valid(h),
        ensures
            final(self).wf(),
            prev == old(self).value_of(h),
            final(self)@ == old(self)@.update(
                h@,
                Slot { refs: old(self)@[h@].refs, value: Some(value) },
            ),
            final(self).valid(h),
    {
        let mut v = value;
        core::mem::swap(self.get_mut(h), &mut v);
        v
    }

    /// A weak handle to the same slot; it does not count as a reference.
    pub fn downgrade(&self, h: &Handle) -> (w: WeakHandle)
        ensures
            w@ == h@,
    {
        WeakHandle { id: h.id }
    }

    /// Whether the slot a weak handle addresses still holds a value.
    pub fn is_live(&self, w: &WeakHandle) -> (b: bool)
        ensures
            b == self.live_at(w@),
    {
        if w.id < self.slots.len() {
            self.slots[w.id].value.is_some()
        } else {
            false
        }
    }

    /// Mutable access through a weak handle, for a caller that has just
    /// checked the slot is still live; the re-marshalled update path of a
    /// background task reaches its view this way.
    pub fn get_weak_mut(&mut self, w: &WeakHandle) -> (r: &mut T)
        requires
            old(self).wf(),
            old(self).live_at(w@),
        ensures
            *r == old(self)@[w@].value->0,
            final(self)@ == old(self)@.update(
                w@,
                Slot { refs: old(self)@[w@].refs, value: Some(*final(r)) },
            ),
            final(self).wf(),
    {
        match &mut self.slots[w.id].value {
            Some(t) => t,
            None => vstd::pervasive::unreached(),
        }
    }

    /// Attempts to turn a weak handle back into a strong one. Succeeds
    /// exactly while the slot still holds a value; the new handle counts as
    /// one more reference.
    pub fn upgrade(&mut self, w: &WeakHandle) -> (r: Option<Handle>)
        requires
            old(self).wf(),
            old(self).live_at(w@) ==> old(self)@[w@].refs < usize::MAX,
        ensures
            final(self).wf(),
            old(self).live_at(w@) ==> (
                r is Some
                && r->0@ == w@
                && final(self)@ == old(self)@.update(
                    w@,
                    Slot {
                        refs: (old(self)@[w@].refs + 1) as usize,
                        value: old(self)@[w@].value,
                    },
                )
            ),
            !old(self).live_at(w@) ==> (r is None && final(self)@ == old(self)@),
    {
        if w.id < self.slots.len() && self.slots[w.id].value.is_some() {
            let refs = self.slots[w.id].refs;
            self.slots[w.id].refs = refs + 1;
            Some(Handle { id: w.id })
        } else {
            None
        }
    }
}

/// Two holders of handles to the same slot observe the same state: the
/// store keeps one value per slot, so equal indices mean shared state, not
/// copies.
pub proof fn lemma_shared_handles_alias<T>(s: Store<T>, h1: Handle, h2: Handle)
    requires
        s.valid(&h1),
        h1@ == h2@,
    ensures
        s.valid(&h2),
        s.value_of(&h1) == s.value_of(&h2),
{
}

/// A mutation made through one handle is observed through every other
/// handle of the same slot: after the store changed from `before` to
/// `after` by writing `v` through `h1` (as [`Store::get_mut`] and
/// [`Store::replace`] leave it), reading through `h2` yields `v`.
pub proof fn lemma_shared_handles_see_mutation<T>(
    before: Store<T>,
    after: Store<T>,
    h1: Handle,
    h2: Handle,
    v: T,
)
    requires
        before.valid(&h1),
        h1@ == h2@,
        after@ == before@.update(h1@, Slot { refs: before@[h1@].refs, value: Some(v) }),
    ensures
        after.valid(&h2),
        after.value_of(&h2) == v,
        after.value_of(&h1) == after.value_of(&h2),
{
}

} // verus!
