//! The coordinating parent view.
//!
//! The coordinator owns handles to two child counters, keeps an observer
//! panel, subscribes to each child's change events and holds the
//! subscriptions for its whole lifetime. Every change a child reports runs
//! the coordinator's handler synchronously: the handler counts the change,
//! logs it, and forwards the delta into the observer panel. Sibling
//! communication always goes through the coordinator, never between the
//! children directly.

use vstd::prelude::*;

use crate::channel::{emit_step, Channel, Subscription};
use crate::counter::{ChangeNote, ChildCounter, CounterChangedEvent, CounterTag};
use crate::history::BoundedLog;
use crate::store::{Handle, Slot, Store};

verus! {

/// Background colour the parent hands to counter A, packed `0xRRGGBBAA`.
pub const COLOR_A: u32 = 0xBFDBFEFF;

/// Background colour the parent hands to counter B, packed `0xRRGGBBAA`.
pub const COLOR_B: u32 = 0xBBF7D0FF;

/// Counter A starts at this value.
pub const START_A: i32 = 0;

/// Counter B starts at this value.
pub const START_B: i32 = 10;

/// The coordinator's event log keeps this many entries.
pub const LOG_CAP: usize = 5;

/// One entry of the coordinator's event log.
#[derive(Clone, Copy, Debug, PartialEq, Eq, Structural)]
pub enum RelayNote {
    /// A child reported a change.
    Changed { source: CounterTag, new_value: i32, delta: i32 },
    /// Counter B was synchronised from counter A.
    Synced { value: i32 },
}

/// The parent view that wires the children together.
pub struct StateManagementApp {
    /// Strong handle to child counter A.
    pub counter_a: Handle,
    /// Strong handle to child counter B.
    pub counter_b: Handle,
    /// Subscription on counter A's change events; retained so that delivery
    /// continues for the coordinator's whole lifetime.
    pub sub_a: Subscription,
    /// Subscription on counter B's change events.
    pub sub_b: Subscription,
    /// Observation link on counter A's redraw signal.
    pub obs_a: Subscription,
    /// The observer panel the handlers forward into.
    pub total_display: crate::counter::TotalDisplay,
    /// How many change events the handlers have seen.
    pub total_changes: u64,
    /// The most recent relayed changes.
    pub event_log: BoundedLog<RelayNote>,
}

impl StateManagementApp {
    /// The store slot of the given child.
    pub closed spec fn counter_id(&self, which: CounterTag) -> int {
        match which {
            CounterTag::A => self.counter_a@,
            CounterTag::B => self.counter_b@,
        }
    }

    /// The channel position of the subscription on the given child.
    pub closed spec fn sub_id(&self, which: CounterTag) -> int {
        match which {
            CounterTag::A => self.sub_a@,
            CounterTag::B => self.sub_b@,
        }
    }

    /// The channel position of the observation link on counter A.
    pub closed spec fn obs_id(&self) -> int {
        self.obs_a@
    }

    /// The count the given child currently holds.
    pub open spec fn count_at(&self, store: Store<ChildCounter>, which: CounterTag) -> int {
        store@[self.counter_id(which)].value->0.count as int
    }

    /// Both children are live slots of the store: what callers need in
    /// order to read the counters back.
    pub open spec fn counters_live(&self, store: Store<ChildCounter>) -> bool {
        &&& 0 <= self.counter_id(CounterTag::A) < store@.len()
        &&& store@[self.counter_id(CounterTag::A)].value is Some
        &&& 0 <= self.counter_id(CounterTag::B) < store@.len()
        &&& store@[self.counter_id(CounterTag::B)].value is Some
    }

    /// The coordinator's handles and subscriptions are identical in both
    /// states: no method rewires the coordinator after construction.
    pub open spec fn same_wiring(a: Self, b: Self) -> bool {
        &&& a.counter_id(CounterTag::A) == b.counter_id(CounterTag::A)
        &&& a.counter_id(CounterTag::B) == b.counter_id(CounterTag::B)
        &&& a.sub_id(CounterTag::A) == b.sub_id(CounterTag::A)
        &&& a.sub_id(CounterTag::B) == b.sub_id(CounterTag::B)
        &&& a.obs_id() == b.obs_id()
    }

    /// Well-formedness: the two children are distinct live slots, the
    /// subscriptions are live bindings on exactly those children, the
    /// observation link watches counter A, and the log respects its cap.
    pub closed spec fn wf(
        &self,
        store: Store<ChildCounter>,
        events: Channel<CounterChangedEvent>,
        observations: Channel<i32>,
    ) -> bool {
        &&& self.counter_a@ != self.counter_b@
        &&& store.valid(&self.counter_a)
        &&& store.valid(&self.counter_b)
        &&& store.wf()
        &&& events.valid(&self.sub_a)
        &&& events.valid(&self.sub_b)
        &&& self.sub_a@ != self.sub_b@
        &&& events@[self.sub_a@].source == self.counter_a@
        &&& events@[self.sub_b@].source == self.counter_b@
        &&& events@[self.sub_a@].alive
        &&& events@[self.sub_b@].alive
        &&& observations.valid(&self.obs_a)
        &&& observations@[self.obs_a@].source == self.counter_a@
        &&& observations@[self.obs_a@].alive
        &&& self.event_log.wf()
        &&& self.event_log.spec_cap() == LOG_CAP as int
    }

    /// Builds the whole arrangement: creates both children in the store
    /// (passing their initial state down), creates the observer panel, and
    /// registers the subscriptions and the observation link, which are then
    /// retained for the coordinator's entire lifetime.
    pub fn new(
        store: &mut Store<ChildCounter>,
        events: &mut Channel<CounterChangedEvent>,
        observations: &mut Channel<i32>,
        name_a: String,
        name_b: String,
    ) -> (app: Self)
        requires
            old(store).wf(),
        ensures
            app.wf(*final(store), *final(events), *final(observations)),
            app.counters_live(*final(store)),
            final(store).wf(),
            final(store)@ == old(store)@
                .push(Slot { refs: 1usize, value: Some(ChildCounter { name: name_a, count: START_A, color: COLOR_A }) })
                .push(Slot { refs: 1usize, value: Some(ChildCounter { name: name_b, count: START_B, color: COLOR_B }) }),
            app.counter_id(CounterTag::A) == old(store)@.len(),
            app.counter_id(CounterTag::B) == old(store)@.len() + 1,
            app.count_at(*final(store), CounterTag::A) == START_A as int,
            app.count_at(*final(store), CounterTag::B) == START_B as int,
            final(events)@ == old(events)@
                .push(crate::channel::SubView { source: old(store)@.len() as int, alive: true, log: Seq::<CounterChangedEvent>::empty() })
                .push(crate::channel::SubView { source: old(store)@.len() + 1 as int, alive: true, log: Seq::<CounterChangedEvent>::empty() }),
            final(observations)@ == old(observations)@
                .push(crate::channel::SubView { source: old(store)@.len() as int, alive: true, log: Seq::<i32>::empty() }),
            app.total_display.total == 0,
            app.total_display.last_change == ChangeNote::Waiting,
            app.total_changes == 0,
            app.event_log@ == Seq::<RelayNote>::empty(),
    {
        let counter_a = store.insert(ChildCounter::new(name_a, START_A, COLOR_A));
        let counter_b = store.insert(ChildCounter::new(name_b, START_B, COLOR_B));
        let sub_a = events.subscribe(counter_a.index());
        let sub_b = events.subscribe(counter_b.index());
        let obs_a = observations.subscribe(counter_a.index());
        StateManagementApp {
            counter_a,
            counter_b,
            sub_a,
            sub_b,
            obs_a,
            total_display: crate::counter::TotalDisplay::new(),
            total_changes: 0,
            event_log: BoundedLog::new(LOG_CAP),
        }
    }

    /// The subscription handler: one child reported a change. The
    /// coordinator counts it, logs it, and forwards the delta into the
    /// observer panel.
    pub fn on_counter_changed(&mut self, source: CounterTag, ev: CounterChangedEvent)
        requires
            old(self).total_changes < u64::MAX,
            i32::MIN <= old(self).total_display.total + ev.delta <= i32::MAX,
            old(self).event_log.wf(),
        ensures
            Self::same_wiring(*old(self), *final(self)),
            final(self).total_changes == old(self).total_changes + 1,
            final(self).event_log@ == BoundedLog::<RelayNote>::push_model(
                old(self).event_log@,
                old(self).event_log.spec_cap(),
                RelayNote::Changed { source, new_value: ev.new_value, delta: ev.delta },
            ),
            final(self).event_log.spec_cap() == old(self).event_log.spec_cap(),
            final(self).event_log.wf(),
            final(self).total_display.total == old(self).total_display.total + ev.delta,
            final(self).total_display.last_change == (ChangeNote::Stepped { source, delta: ev.delta }),
    {
        self.total_changes = self.total_changes + 1;
        self.event_log.push(RelayNote::Changed { source, new_value: ev.new_value, delta: ev.delta });
        self.total_display.apply(source, ev);
    }

    /// A click on a child's plus button: the child steps up, emits its
    /// change event to every live subscriber, the coordinator's handler
    /// runs once, and the child signals redraw on the observation channel.
    pub fn increment_counter(
        &mut self,
        which: CounterTag,
        store: &mut Store<ChildCounter>,
        events: &mut Channel<CounterChangedEvent>,
        observations: &mut Channel<i32>,
    )
        requires
            old(self).wf(*old(store), *old(events), *old(observations)),
            old(self).count_at(*old(store), which) < i32::MAX,
            old(self).total_changes < u64::MAX,
            old(self).total_display.total < i32::MAX,
        ensures
            final(self).wf(*final(store), *final(events), *final(observations)),
            final(self).counters_live(*final(store)),
            final(store).wf(),
            Self::same_wiring(*old(self), *final(self)),
            final(self).count_at(*final(store), which)
                == old(self).count_at(*old(store), which) + 1,
            final(store)@.len() == old(store)@.len(),
            forall|j: int| 0 <= j < old(store)@.len() && j != old(self).counter_id(which)
                ==> final(store)@[j] == old(store)@[j],
            final(events)@ == emit_step(
                old(events)@,
                old(self).counter_id(which),
                CounterChangedEvent {
                    new_value: (old(self).count_at(*old(store), which) + 1) as i32,
                    delta: 1i32,
                },
            ),
            final(observations)@ == emit_step(
                old(observations)@,
                old(self).counter_id(which),
                (old(self).count_at(*old(store), which) + 1) as i32,
            ),
            final(self).total_changes == old(self).total_changes + 1,
            final(self).total_display.total == old(self).total_display.total + 1,
            final(self).total_display.last_change == (ChangeNote::Stepped { source: which, delta: 1i32 }),
            final(self).event_log@ == BoundedLog::<RelayNote>::push_model(
                old(self).event_log@,
                LOG_CAP as int,
                RelayNote::Changed {
                    source: which,
                    new_value: (old(self).count_at(*old(store), which) + 1) as i32,
                    delta: 1i32,
                },
            ),
    {
        let ev = match which {
            CounterTag::A => {
                let child = store.get_mut(&self.counter_a);
                child.increment()
            },
            CounterTag::B => {
                let child = store.get_mut(&self.counter_b);
                child.increment()
            },
        };
        let source = match which {
            CounterTag::A => self.counter_a.index(),
            CounterTag::B => self.counter_b.index(),
        };
        events.emit(source, ev);
        self.on_counter_changed(which, ev);
        observations.emit(source, ev.new_value);
    }

    /// A click on a child's minus button; the mirror image of
    /// [`Self::increment_counter`].
    pub fn decrement_counter(
        &mut self,
        which: CounterTag,
        store: &mut Store<ChildCounter>,
        events: &mut Channel<CounterChangedEvent>,
        observations: &mut Channel<i32>,
    )
        requires
            old(self).wf(*old(store), *old(events), *old(observations)),
            old(self).count_at(*old(store), which) > i32::MIN,
            old(self).total_changes < u64::MAX,
            old(self).total_display.total > i32::MIN,
        ensures
            final(self).wf(*final(store), *final(events), *final(observations)),
            final(self).counters_live(*final(store)),
            final(store).wf(),
            Self::same_wiring(*old(self), *final(self)),
            final(self).count_at(*final(store), which)
                == old(self).count_at(*old(store), which) - 1,
            final(store)@.len() == old(store)@.len(),
            forall|j: int| 0 <= j < old(store)@.len() && j != old(self).counter_id(which)
                ==> final(store)@[j] == old(store)@[j],
            final(events)@ == emit_step(
                old(events)@,
                old(self).counter_id(which),
                CounterChangedEvent {
                    new_value: (old(self).count_at(*old(store), which) - 1) as i32,
                    delta: -1i32,
                },
            ),
            final(observations)@ == emit_step(
                old(observations)@,
                old(self).counter_id(which),
                (old(self).count_at(*old(store), which) - 1) as i32,
            ),
            final(self).total_changes == old(self).total_changes + 1,
            final(self).total_display.total == old(self).total_display.total - 1,
            final(self).total_display.last_change == (ChangeNote::Stepped { source: which, delta: -1i32 }),
            final(self).event_log@ == BoundedLog::<RelayNote>::push_model(
                old(self).event_log@,
                LOG_CAP as int,
                RelayNote::Changed {
                    source: which,
                    new_value: (old(self).count_at(*old(store), which) - 1) as i32,
                    delta: -1i32,
                },
            ),
    {
        let ev = match which {
            CounterTag::A => {
                let child = store.get_mut(&self.counter_a);
                child.decrement()
            },
            CounterTag::B => {
                let child = store.get_mut(&self.counter_b);
                child.decrement()
            },
        };
        let source = match which {
            CounterTag::A => self.counter_a.index(),
            CounterTag::B => self.counter_b.index(),
        };
        events.emit(source, ev);
        self.on_counter_changed(which, ev);
        observations.emit(source, ev.new_value);
    }

    /// Puts both children, the observer panel and the coordinator's own
    /// records back to their zero state. The children emit no change
    /// events — the parent mutates them directly — but each signals redraw.
    pub fn reset_all(
        &mut self,
        store: &mut Store<ChildCounter>,
        events: &mut Channel<CounterChangedEvent>,
        observations: &mut Channel<i32>,
    )
        requires
            old(self).wf(*old(store), *old(events), *old(observations)),
        ensures
            final(self).wf(*final(store), *final(events), *final(observations)),
            final(self).counters_live(*final(store)),
            final(store).wf(),
            Self::same_wiring(*old(self), *final(self)),
            final(self).count_at(*final(store), CounterTag::A) == 0,
            final(self).count_at(*final(store), CounterTag::B) == 0,
            final(store)@.len() == old(store)@.len(),
            forall|j: int| 0 <= j < old(store)@.len()
                && j != old(self).counter_id(CounterTag::A)
                && j != old(self).counter_id(CounterTag::B)
                ==> final(store)@[j] == old(store)@[j],
            final(events)@ == old(events)@,
            final(observations)@ == emit_step(
                emit_step(old(observations)@, old(self).counter_id(CounterTag::A), 0i32),
                old(self).counter_id(CounterTag::B),
                0i32,
            ),
            final(self).total_display.total == 0,
            final(self).total_display.last_change == ChangeNote::Cleared,
            final(self).total_changes == 0,
            final(self).event_log@ == Seq::<RelayNote>::empty(),
    {
        let a = store.get_mut(&self.counter_a);
        a.count = 0;
        let b = store.get_mut(&self.counter_b);
        b.count = 0;
        observations.emit(self.counter_a.index(), 0);
        observations.emit(self.counter_b.index(), 0);
        self.total_display.reset();
        self.total_changes = 0;
        self.event_log.clear();
    }

    /// Sibling communication through the parent: reads counter A and
    /// writes its value into counter B, logging the synchronisation. B
    /// signals redraw; no change event is emitted.
    pub fn sync_counters(
        &mut self,
        store: &mut Store<ChildCounter>,
        events: &mut Channel<CounterChangedEvent>,
        observations: &mut Channel<i32>,
    )
        requires
            old(self).wf(*old(store), *old(events), *old(observations)),
        ensures
            final(self).wf(*final(store), *final(events), *final(observations)),
            final(self).counters_live(*final(store)),
            final(store).wf(),
            Self::same_wiring(*old(self), *final(self)),
            final(self).count_at(*final(store), CounterTag::B)
                == old(self).count_at(*old(store), CounterTag::A),
            final(self).count_at(*final(store), CounterTag::A)
                == old(self).count_at(*old(store), CounterTag::A),
            final(store)@.len() == old(store)@.len(),
            forall|j: int| 0 <= j < old(store)@.len() && j != old(self).counter_id(CounterTag::B)
                ==> final(store)@[j] == old(store)@[j],
            final(events)@ == old(events)@,
            final(observations)@ == emit_step(
                old(observations)@,
                old(self).counter_id(CounterTag::B),
                (old(self).count_at(*old(store), CounterTag::A)) as i32,
            ),
            final(self).total_display == old(self).total_display,
            final(self).total_changes == old(self).total_changes,
            final(self).event_log@ == BoundedLog::<RelayNote>::push_model(
                old(self).event_log@,
                LOG_CAP as int,
                RelayNote::Synced { value: (old(self).count_at(*old(store), CounterTag::A)) as i32 },
            ),
    {
        let count_a = store.read(&self.counter_a).count;
        let b = store.get_mut(&self.counter_b);
        b.count = count_a;
        self.event_log.push(RelayNote::Synced { value: count_a });
        observations.emit(self.counter_b.index(), count_a);
    }

    /// The handle of the given child, for further holders: the parent may
    /// share a child with whoever needs it.
    pub fn counter_handle(&self, which: CounterTag) -> (h: &Handle)
        ensures
            h@ == self.counter_id(which),
    {
        match which {
            CounterTag::A => &self.counter_a,
            CounterTag::B => &self.counter_b,
        }
    }

    /// Reads the given child's current count out of the store.
    pub fn read_count(&self, store: &Store<ChildCounter>, which: CounterTag) -> (n: i32)
        requires
            store.wf(),
            self.counters_live(*store),
        ensures
            n as int == self.count_at(*store, which),
    {
        store.read(self.counter_handle(which)).count
    }
}

} // verus!
