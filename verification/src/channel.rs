//! Typed event channels.
//!
//! A [`Channel`] carries one payload type and any number of subscriptions.
//! A subscription binds a source (a slot index of the [`crate::store`]) to
//! one delivery log: emitting on a source appends the payload, in emit
//! order, to the log of every live subscription registered for that source,
//! in registration order. Dropping a [`Subscription`] (by handing it to
//! [`Channel::cancel`]) permanently stops delivery for that binding.
//!
//! The same mechanism serves as the observation link: a second channel
//! whose payload is a snapshot of the observed state, emitted on every
//! redraw signal of the source.

use vstd::prelude::*;

verus! {

/// The abstract state of one subscription: its source, whether it is still
/// live, and everything delivered to it so far, oldest first.
pub ghost struct SubView<E> {
    pub source: int,
    pub alive: bool,
    pub log: Seq<E>,
}

struct SubEntry<E> {
    source: usize,
    alive: bool,
    log: Vec<E>,
}

/// A live binding between one source and one delivery log. It cannot be
/// copied; giving it to [`Channel::cancel`] revokes the binding for good.
pub struct Subscription {
    idx: usize,
}

/// A typed event channel: an ordered list of subscriptions.
pub struct Channel<E> {
    subs: Vec<SubEntry<E>>,
}

impl View for Subscription {
    type V = int;

    closed spec fn view(&self) -> int {
        self.idx as int
    }
}

impl<E> View for SubEntry<E> {
    type V = SubView<E>;

    closed spec fn view(&self) -> SubView<E> {
        SubView { source: self.source as int, alive: self.alive, log: self.log@ }
    }
}

impl<E> View for Channel<E> {
    type V = Seq<SubView<E>>;

    closed spec fn view(&self) -> Seq<SubView<E>> {
        Seq::new(self.subs@.len(), |i: int| self.subs@[i]@)
    }
}

/// What one emit does to one subscription: a live subscription on the
/// emitting source receives the payload at the end of its log; every other
/// subscription is untouched.
pub open spec fn deliver_one<E>(s: SubView<E>, source: int, e: E) -> SubView<E> {
    if s.alive && s.source == source {
        SubView { source: s.source, alive: s.alive, log: s.log.push(e) }
    } else {
        s
    }
}

/// What one emit does to the whole channel.
pub open spec fn emit_step<E>(subs: Seq<SubView<E>>, source: int, e: E) -> Seq<SubView<E>> {
    Seq::new(subs.len(), |i: int| deliver_one(subs[i], source, e))
}

/// What a whole sequence of emits on one source does to the channel, first
/// payload first.
pub open spec fn emit_all<E>(subs: Seq<SubView<E>>, source: int, es: Seq<E>) -> Seq<SubView<E>>
    decreases es.len(),
{
    if es.len() == 0 {
        subs
    } else {
        emit_all(emit_step(subs, source, es[0]), source, es.drop_first())
    }
}

impl Subscription {
    /// The position of this subscription in its channel.
    pub fn index(&self) -> (i: usize)
        ensures
            i == self@,
    {
        self.idx
    }
}

impl<E: Copy> Channel<E> {
    /// A subscription handle is valid when it addresses an entry of this
    /// channel.
    pub open spec fn valid(&self, sub: &Subscription) -> bool {
        0 <= sub@ < self@.len()
    }

    /// A channel with no subscriptions.
    pub fn new() -> (c: Self)
        ensures
            c@ == Seq::<SubView<E>>::empty(),
    {
        Channel { subs: Vec::new() }
    }

    /// Number of subscriptions ever registered (live or cancelled).
    pub fn sub_count(&self) -> (n: usize)
        ensures
            n == self@.len(),
    {
        self.subs.len()
    }

    /// Registers a subscription on `source`. Its log starts empty and it
    /// receives every later emit on that source, until it is cancelled.
    pub fn subscribe(&mut self, source: usize) -> (sub: Subscription)
        ensures
            sub@ == old(self)@.len(),
            final(self)@ == old(self)@.push(
                SubView { source: source as int, alive: true, log: Seq::<E>::empty() },
            ),
            final(self).valid(&sub),
    {
        let idx = self.subs.len();
        self.subs.push(SubEntry { source, alive: true, log: Vec::new() });
        proof {
            assert(final(self)@ =~= old(self)@.push(
                SubView { source: source as int, alive: true, log: Seq::<E>::empty() },
            ));
        }
        Subscription { idx }
    }

    /// Delivers `e` to every live subscription on `source`, in registration
    /// order; emitting with no live subscriber on the source changes
    /// nothing.
    pub fn emit(&mut self, source: usize, e: E)
        ensures
            final(self)@ == emit_step(old(self)@, source as int, e),
    {
        let ghost subs0 = self@;
        let n = self.subs.len();
        let mut i: usize = 0;
        while i < n
            invariant
                n == self.subs@.len(),
                i <= n,
                self@.len() == subs0.len(),
                forall|j: int| 0 <= j < i ==> self@[j] == deliver_one(subs0[j], source as int, e),
                forall|j: int| i <= j < n ==> self@[j] == subs0[j],
            decreases n - i,
        {
            let ghost pre = self@;
            if self.subs[i].alive && self.subs[i].source == source {
                self.subs[i].log.push(e);
            }
            i = i + 1;
            proof {
                assert forall|j: int| 0 <= j < i implies self@[j] == deliver_one(
                    subs0[j],
                    source as int,
                    e,
                ) by {
                    if j == i - 1 {
                        assert(pre[j] == subs0[j]);
                        assert(self@[j] == deliver_one(pre[j], source as int, e));
                    } else {
                        assert(self@[j] == pre[j]);
                        assert(pre[j] == deliver_one(subs0[j], source as int, e));
                    }
                }
            }
        }
        proof {
            assert(self@ =~= emit_step(old(self)@, source as int, e));
        }
    }

    /// Revokes a subscription: its log keeps what was delivered, but no
    /// later emit reaches it. Consuming the handle models dropping it.
    pub fn cancel(&mut self, sub: Subscription)
        requires
            old(self).valid(&sub),
        ensures
            final(self)@ == old(self)@.update(
                sub@,
                SubView {
                    source: old(self)@[sub@].source,
                    alive: false,
                    log: old(self)@[sub@].log,
                },
            ),
    {
        self.subs[sub.idx].alive = false;
        proof {
            assert(final(self)@ =~= old(self)@.update(
                sub@,
                SubView {
                    source: old(self)@[sub@].source,
                    alive: false,
                    log: old(self)@[sub@].log,
                },
            ));
        }
    }

    /// Whether a subscription is still live.
    pub fn is_live(&self, sub: &Subscription) -> (b: bool)
        requires
            self.valid(sub),
        ensures
            b == self@[sub@].alive,
    {
        self.subs[sub.idx].alive
    }

    /// Everything delivered to a subscription so far, oldest first.
    pub fn delivered(&self, sub: &Subscription) -> (log: &Vec<E>)
        requires
            self.valid(sub),
        ensures
            log@ == self@[sub@].log,
    {
        &self.subs[sub.idx].log
    }

    /// The delivery log at a channel position, reachable even after the
    /// subscription handle itself was given up.
    pub fn delivered_at(&self, idx: usize) -> (log: &Vec<E>)
        requires
            idx < self@.len(),
        ensures
            log@ == self@[idx as int].log,
    {
        &self.subs[idx].log
    }

    /// Whether the subscription at a channel position is still live.
    pub fn is_live_at(&self, idx: usize) -> (b: bool)
        requires
            idx < self@.len(),
        ensures
            b == self@[idx as int].alive,
    {
        self.subs[idx].alive
    }
}

/// Emitting leaves the number of subscriptions, and every subscription's
/// source and liveness, unchanged: only logs grow.
pub proof fn lemma_emit_all_shape<E>(subs: Seq<SubView<E>>, source: int, es: Seq<E>)
    ensures
        emit_all(subs, source, es).len() == subs.len(),
        forall|i: int| 0 <= i < subs.len() ==> (#[trigger] emit_all(subs, source, es)[i]).source
            == subs[i].source,
        forall|i: int| 0 <= i < subs.len() ==> (#[trigger] emit_all(subs, source, es)[i]).alive
            == subs[i].alive,
    decreases es.len(),
{
    if es.len() > 0 {
        lemma_emit_all_shape(emit_step(subs, source, es[0]), source, es.drop_first());
    }
}

/// A live subscription on the emitting source receives every payload of a
/// sequence of emits, in emit order, after whatever it already held: it
/// fires exactly once per emit, and in call order.
pub proof fn lemma_live_subscriber_hears_all<E>(
    subs: Seq<SubView<E>>,
    source: int,
    es: Seq<E>,
    i: int,
)
    requires
        0 <= i < subs.len(),
        subs[i].alive,
        subs[i].source == source,
    ensures
        emit_all(subs, source, es)[i].log == subs[i].log + es,
    decreases es.len(),
{
    if es.len() == 0 {
        assert(subs[i].log + es =~= subs[i].log);
    } else {
        let subs1 = emit_step(subs, source, es[0]);
        lemma_live_subscriber_hears_all(subs1, source, es.drop_first(), i);
        assert(subs1[i].log + es.drop_first() =~= subs[i].log + es);
    }
}

/// A subscription that is not live, or listens to another source, receives
/// nothing from any sequence of emits. In particular, dropping the
/// subscription handle and then emitting results in zero deliveries for it.
pub proof fn lemma_others_hear_nothing<E>(subs: Seq<SubView<E>>, source: int, es: Seq<E>, i: int)
    requires
        0 <= i < subs.len(),
        !(subs[i].alive && subs[i].source == source),
    ensures
        emit_all(subs, source, es)[i] == subs[i],
    decreases es.len(),
{
    if es.len() > 0 {
        lemma_others_hear_nothing(emit_step(subs, source, es[0]), source, es.drop_first(), i);
    }
}

/// Cancelling a subscription and then emitting any sequence of events
/// leaves its log exactly as it was at the moment of cancellation.
pub proof fn lemma_cancelled_subscription_is_silent<E>(
    subs: Seq<SubView<E>>,
    source: int,
    es: Seq<E>,
    i: int,
)
    requires
        0 <= i < subs.len(),
    ensures
        emit_all(
            subs.update(i, SubView { source: subs[i].source, alive: false, log: subs[i].log }),
            source,
            es,
        )[i].log == subs[i].log,
{
    let cancelled = subs.update(
        i,
        SubView { source: subs[i].source, alive: false, log: subs[i].log },
    );
    lemma_others_hear_nothing(cancelled, source, es, i);
}

} // verus!
