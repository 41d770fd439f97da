//! Input trackers: the view states behind the pointer, button, keyboard
//! and hover demonstrations.
//!
//! Each tracker is plain state plus one recording method per input event;
//! the host's dispatch calls them from its listeners. Pointer positions are
//! carried through opaquely as a type parameter: the trackers store and
//! report them but never inspect them.

use vstd::prelude::*;

use crate::history::BoundedLog;

verus! {

/// The key history keeps this many entries.
pub const KEY_HISTORY_CAP: usize = 10;

/// A pointer button.
#[derive(Clone, Copy, Debug, PartialEq, Eq, Structural)]
pub enum MouseButton {
    /// The primary button.
    Left,
    /// The secondary button.
    Right,
    /// The wheel button.
    Middle,
}

/// The state of the modifier keys at a click.
#[derive(Clone, Copy, Debug, PartialEq, Eq, Structural)]
pub struct Modifiers {
    /// Control was held.
    pub control: bool,
    /// Shift was held.
    pub shift: bool,
    /// Alt was held.
    pub alt: bool,
}

/// The last pointer event a tracker saw, with the position it carried.
#[derive(Clone, Copy, Debug, PartialEq, Eq, Structural)]
pub enum PointerNote<P> {
    /// Nothing happened yet.
    Waiting,
    /// The primary button went down here.
    Pressed(P),
    /// The primary button came up here.
    Released(P),
    /// A full click, the n-th so far, here.
    Clicked { count: i32, at: P },
}

/// Follows the pointer over one region: its position, whether the primary
/// button is down, and how often the region was clicked.
pub struct MouseTracker<P> {
    /// Where the pointer last was, if it entered at all.
    pub mouse_position: Option<P>,
    /// Whether the primary button is currently down.
    pub is_pressing: bool,
    /// Completed clicks so far.
    pub click_count: i32,
    /// The last event seen.
    pub last_event: PointerNote<P>,
}

/// The last interaction the button demo saw.
#[derive(Clone, Copy, Debug, PartialEq, Eq, Structural)]
pub enum InteractionNote<P> {
    /// Nothing happened yet.
    Waiting,
    /// The main button was clicked here.
    ClickedAt(P),
    /// One of the pointer buttons went down on its demo row.
    ButtonDown(MouseButton),
}

/// The button demo: clicks on its main button and presses of the three
/// pointer buttons.
pub struct ButtonDemo<P> {
    /// Clicks on the main button so far.
    pub click_count: i32,
    /// The last interaction seen.
    pub last_event: InteractionNote<P>,
    /// The modifier keys at the last click, once one happened.
    pub modifiers_info: Option<Modifiers>,
}

/// The keyboard demo: a capped history of keys pressed and the keys
/// currently held down.
pub struct KeyboardDemo {
    /// The most recent key presses, oldest first.
    pub key_history: BoundedLog<String>,
    /// The keys currently held, in the order they went down.
    pub held_keys: Vec<String>,
}

/// The hover demo: which item the pointer is over and how often a new item
/// was entered.
pub struct HoverDemo {
    /// The hovered item, if any.
    pub hovered_index: Option<usize>,
    /// How often the pointer entered an item it was not already over.
    pub hover_count: i32,
}

impl<P: Copy> MouseTracker<P> {
    /// A fresh tracker: pointer unseen, nothing pressed.
    pub fn new() -> (t: Self)
        ensures
            t.mouse_position is None,
            !t.is_pressing,
            t.click_count == 0,
            t.last_event == PointerNote::<P>::Waiting,
    {
        MouseTracker {
            mouse_position: None,
            is_pressing: false,
            click_count: 0,
            last_event: PointerNote::Waiting,
        }
    }

    /// The primary button went down at `pos`.
    pub fn record_mouse_down(&mut self, pos: P)
        ensures
            final(self).is_pressing,
            final(self).mouse_position == Some(pos),
            final(self).last_event == PointerNote::Pressed(pos),
            final(self).click_count == old(self).click_count,
    {
        self.is_pressing = true;
        self.mouse_position = Some(pos);
        self.last_event = PointerNote::Pressed(pos);
    }

    /// The primary button came up at `pos`.
    pub fn record_mouse_up(&mut self, pos: P)
        ensures
            !final(self).is_pressing,
            final(self).mouse_position == old(self).mouse_position,
            final(self).last_event == PointerNote::Released(pos),
            final(self).click_count == old(self).click_count,
    {
        self.is_pressing = false;
        self.last_event = PointerNote::Released(pos);
    }

    /// The pointer moved to `pos`.
    pub fn record_mouse_move(&mut self, pos: P)
        ensures
            final(self).mouse_position == Some(pos),
            final(self).is_pressing == old(self).is_pressing,
            final(self).click_count == old(self).click_count,
            final(self).last_event == old(self).last_event,
    {
        self.mouse_position = Some(pos);
    }

    /// A click completed at `pos`.
    pub fn record_click(&mut self, pos: P)
        requires
            old(self).click_count < i32::MAX,
        ensures
            final(self).click_count == old(self).click_count + 1,
            final(self).last_event == (PointerNote::Clicked {
                count: (old(self).click_count + 1) as i32,
                at: pos,
            }),
            final(self).mouse_position == old(self).mouse_position,
            final(self).is_pressing == old(self).is_pressing,
    {
        self.click_count = self.click_count + 1;
        self.last_event = PointerNote::Clicked { count: self.click_count, at: pos };
    }
}

impl<P: Copy> ButtonDemo<P> {
    /// A fresh demo: no clicks, no modifiers seen.
    pub fn new() -> (d: Self)
        ensures
            d.click_count == 0,
            d.last_event == InteractionNote::<P>::Waiting,
            d.modifiers_info is None,
    {
        ButtonDemo { click_count: 0, last_event: InteractionNote::Waiting, modifiers_info: None }
    }

    /// The main button was clicked at `pos` with the given modifiers held.
    pub fn record_click(&mut self, pos: P, modifiers: Modifiers)
        requires
            old(self).click_count < i32::MAX,
        ensures
            final(self).click_count == old(self).click_count + 1,
            final(self).last_event == InteractionNote::ClickedAt(pos),
            final(self).modifiers_info == Some(modifiers),
    {
        self.click_count = self.click_count + 1;
        self.last_event = InteractionNote::ClickedAt(pos);
        self.modifiers_info = Some(modifiers);
    }

    /// One of the pointer buttons went down on its demo row.
    pub fn record_button_down(&mut self, button: MouseButton)
        ensures
            final(self).last_event == InteractionNote::<P>::ButtonDown(button),
            final(self).click_count == old(self).click_count,
            final(self).modifiers_info == old(self).modifiers_info,
    {
        self.last_event = InteractionNote::ButtonDown(button);
    }
}

/// Whether some string of `keys` reads as `key`.
pub open spec fn holds_key(keys: Seq<String>, key: Seq<char>) -> bool {
    exists|j: int| 0 <= j < keys.len() && keys[j]@ == key
}

impl KeyboardDemo {
    /// The history respects its cap.
    pub open spec fn wf(&self) -> bool {
        &&& self.key_history.wf()
        &&& self.key_history.spec_cap() == KEY_HISTORY_CAP as int
    }

    /// A fresh demo: nothing pressed, nothing held.
    pub fn new() -> (d: Self)
        ensures
            d.wf(),
            d.key_history@ == Seq::<String>::empty(),
            d.held_keys@ == Seq::<String>::empty(),
    {
        KeyboardDemo { key_history: BoundedLog::new(KEY_HISTORY_CAP), held_keys: Vec::new() }
    }

    /// Appends a key to the history, dropping the oldest past the cap.
    pub fn add_key(&mut self, key: String)
        requires
            old(self).wf(),
        ensures
            final(self).wf(),
            final(self).key_history@ == BoundedLog::<String>::push_model(
                old(self).key_history@,
                KEY_HISTORY_CAP as int,
                key,
            ),
            final(self).held_keys == old(self).held_keys,
    {
        self.key_history.push(key);
    }

    /// Whether `key` is currently recorded as held.
    pub fn is_held(&self, key: &String) -> (b: bool)
        ensures
            b == holds_key(self.held_keys@, key@),
    {
        let n = self.held_keys.len();
        let mut j: usize = 0;
        let mut found = false;
        while j < n
            invariant
                n == self.held_keys@.len(),
                j <= n,
                found == holds_key(self.held_keys@.subrange(0, j as int), key@),
            decreases n - j,
        {
            let matches_here = self.held_keys[j].eq(key);
            if matches_here {
                found = true;
            }
            j = j + 1;
            proof {
                let pre = self.held_keys@.subrange(0, j - 1);
                let cur = self.held_keys@.subrange(0, j as int);
                assert(cur =~= pre.push(self.held_keys@[j - 1]));
                if found {
                    if matches_here {
                        assert(cur[j - 1]@ == key@);
                    } else {
                        let k = choose|k: int| 0 <= k < pre.len() && pre[k]@ == key@;
                        assert(cur[k]@ == key@);
                    }
                    assert(holds_key(cur, key@));
                } else {
                    assert forall|k: int| 0 <= k < cur.len() implies cur[k]@ != key@ by {
                        if k < j - 1 {
                            assert(cur[k] == pre[k]);
                            assert(pre[k]@ != key@);
                        } else {
                            assert(cur[k] == self.held_keys@[j - 1]);
                        }
                    }
                    assert(!holds_key(cur, key@));
                }
            }
        }
        proof {
            assert(self.held_keys@.subrange(0, n as int) =~= self.held_keys@);
        }
        found
    }

    /// A key went down. A repeat of a held key changes nothing; a fresh
    /// press joins the history, and joins the held keys unless an equal
    /// one is already there.
    pub fn press_key(&mut self, key: String, is_repeat: bool)
        requires
            old(self).wf(),
        ensures
            final(self).wf(),
            is_repeat ==> *final(self) == *old(self),
            !is_repeat ==> final(self).key_history@ == BoundedLog::<String>::push_model(
                old(self).key_history@,
                KEY_HISTORY_CAP as int,
                key,
            ),
            !is_repeat && holds_key(old(self).held_keys@, key@) ==> final(self).held_keys
                == old(self).held_keys,
            !is_repeat && !holds_key(old(self).held_keys@, key@) ==> final(self).held_keys@
                == old(self).held_keys@.push(key),
    {
        if !is_repeat {
            let already = self.is_held(&key);
            let stored = key.clone();
            self.add_key(stored);
            if !already {
                self.held_keys.push(key);
            }
        }
    }

    /// A key came up: every held entry reading as it leaves, the rest stay
    /// in order.
    pub fn release_key(&mut self, key: &String)
        requires
            old(self).wf(),
        ensures
            final(self).wf(),
            final(self).key_history == old(self).key_history,
            final(self).held_keys@ == old(self).held_keys@.filter(
                |s: String| s@ != key@,
            ),
    {
        let ghost orig = self.held_keys@;
        let ghost pred = |s: String| s@ != key@;
        let mut rest: Vec<String> = Vec::new();
        core::mem::swap(&mut self.held_keys, &mut rest);
        let n = rest.len();
        let mut j: usize = 0;
        while j < n
            invariant
                n == orig.len(),
                j <= n,
                rest@ == orig,
                self.held_keys@ == orig.subrange(0, j as int).filter(pred),
                self.key_history == old(self).key_history,
                pred == (|s: String| s@ != key@),
            decreases n - j,
        {
            let ghost prefix = orig.subrange(0, j as int);
            let matches_here = rest[j].eq(key);
            if !matches_here {
                let kept = rest[j].clone();
                self.held_keys.push(kept);
            }
            j = j + 1;
            proof {
                let x = orig[j - 1];
                assert(orig.subrange(0, j as int) =~= prefix.push(x));
                assert(prefix.push(x).drop_last() =~= prefix);
                assert(prefix.push(x).last() == x);
                reveal_with_fuel(Seq::filter, 1);
                assert(prefix.push(x).filter(pred) == if pred(x) {
                    prefix.filter(pred).push(x)
                } else {
                    prefix.filter(pred)
                });
            }
        }
        proof {
            assert(orig.subrange(0, n as int) =~= orig);
        }
    }
}

/// The scroll demo: how often the wheel fired, and the accumulated scroll
/// amount. The amount is opaque here — the host measures and sums it in its
/// own units and hands the running total in; only the bookkeeping around it
/// is this view's.
pub struct ScrollWheelDemo<D> {
    /// The accumulated scroll amount, as the host last reported it.
    pub scroll_delta: D,
    /// How many wheel events arrived since the last reset.
    pub scroll_count: i32,
    /// The amount that stands for "nothing scrolled yet".
    pub zero: D,
}

impl<D: Copy> ScrollWheelDemo<D> {
    /// The amount that stands for "nothing scrolled yet".
    pub closed spec fn spec_zero(&self) -> D {
        self.zero
    }

    /// A fresh demo; `zero` is the amount it starts from and returns to on
    /// reset.
    pub fn new(zero: D) -> (d: Self)
        ensures
            d.scroll_delta == zero,
            d.scroll_count == 0,
            d.spec_zero() == zero,
    {
        ScrollWheelDemo { scroll_delta: zero, scroll_count: 0, zero }
    }

    /// One wheel event arrived; the host hands in the new running total.
    pub fn record_scroll(&mut self, accumulated: D)
        requires
            old(self).scroll_count < i32::MAX,
        ensures
            final(self).scroll_count == old(self).scroll_count + 1,
            final(self).scroll_delta == accumulated,
            final(self).spec_zero() == old(self).spec_zero(),
    {
        self.scroll_count = self.scroll_count + 1;
        self.scroll_delta = accumulated;
    }

    /// Puts the demo back to nothing scrolled.
    pub fn reset(&mut self)
        ensures
            final(self).scroll_count == 0,
            final(self).scroll_delta == old(self).spec_zero(),
            final(self).spec_zero() == old(self).spec_zero(),
    {
        self.scroll_delta = self.zero;
        self.scroll_count = 0;
    }
}

/// The root view of the input demos: it owns one of each tracker. The
/// pointer position type and the scroll amount type are the host's.
pub struct EventsApp<P, D> {
    /// The pointer tracker.
    pub mouse_tracker: MouseTracker<P>,
    /// The button demo.
    pub button_demo: ButtonDemo<P>,
    /// The keyboard demo.
    pub keyboard_demo: KeyboardDemo,
    /// The scroll demo.
    pub scroll_demo: ScrollWheelDemo<D>,
    /// The hover demo.
    pub hover_demo: HoverDemo,
}

impl<P: Copy, D: Copy> EventsApp<P, D> {
    /// Creates every tracker in its fresh state; `zero` is the scroll
    /// amount that stands for nothing scrolled.
    pub fn new(zero: D) -> (app: Self)
        ensures
            app.mouse_tracker.click_count == 0,
            app.mouse_tracker.mouse_position is None,
            !app.mouse_tracker.is_pressing,
            app.button_demo.click_count == 0,
            app.button_demo.modifiers_info is None,
            app.keyboard_demo.wf(),
            app.keyboard_demo.key_history@ == Seq::<String>::empty(),
            app.keyboard_demo.held_keys@ == Seq::<String>::empty(),
            app.scroll_demo.scroll_count == 0,
            app.scroll_demo.scroll_delta == zero,
            app.hover_demo.hovered_index is None,
            app.hover_demo.hover_count == 0,
    {
        EventsApp {
            mouse_tracker: MouseTracker::new(),
            button_demo: ButtonDemo::new(),
            keyboard_demo: KeyboardDemo::new(),
            scroll_demo: ScrollWheelDemo::new(zero),
            hover_demo: HoverDemo::new(),
        }
    }
}

impl HoverDemo {
    /// A fresh demo: nothing hovered.
    pub fn new() -> (d: Self)
        ensures
            d.hovered_index is None,
            d.hover_count == 0,
    {
        HoverDemo { hovered_index: None, hover_count: 0 }
    }

    /// The pointer moved over item `index`: entering a new item is counted,
    /// staying on the same one is not.
    pub fn hover_move(&mut self, index: usize)
        requires
            old(self).hover_count < i32::MAX,
        ensures
            final(self).hovered_index == Some(index),
            old(self).hovered_index == Some(index) ==> final(self).hover_count == old(
                self,
            ).hover_count,
            old(self).hovered_index != Some(index) ==> final(self).hover_count == old(
                self,
            ).hover_count + 1,
    {
        let same = match self.hovered_index {
            Some(i) => i == index,
            None => false,
        };
        if !same {
            self.hovered_index = Some(index);
            self.hover_count = self.hover_count + 1;
        }
    }

    /// The pointer moved to the clearing region: nothing is hovered now.
    pub fn hover_clear(&mut self)
        ensures
            final(self).hovered_index is None,
            final(self).hover_count == old(self).hover_count,
    {
        if self.hovered_index.is_some() {
            self.hovered_index = None;
        }
    }
}

} // verus!
