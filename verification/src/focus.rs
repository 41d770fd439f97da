//! Focus management over a row of focusable areas.
//!
//! The view keeps one focus handle per area; the window owns the truth
//! about which area is focused, and the view re-derives its own record of
//! it whenever it renders. Tab and the arrow keys move the focus cyclically.

use vstd::prelude::*;

use crate::history::BoundedLog;

verus! {

/// The focus log keeps this many entries.
pub const FOCUS_LOG_CAP: usize = 5;

/// How many focusable areas the demo has.
pub const FOCUS_AREAS: usize = 4;

/// Keys the focus demo reacts to.
#[derive(Clone, Copy, Debug, PartialEq, Eq, Structural)]
pub enum FocusKey {
    /// Tab moves forward; with shift held, backward.
    Tab,
    /// The right or down arrow moves forward.
    Forward,
    /// The left or up arrow moves backward.
    Backward,
    /// Anything else.
    Other,
}

/// One entry of the focus log.
#[derive(Clone, Copy, Debug, PartialEq, Eq, Structural)]
pub enum FocusNote {
    /// Nothing happened yet.
    Waiting,
    /// This area became focused.
    Focused { index: usize },
}

/// The focus demo: how many areas it tracks, which one the view last saw
/// focused, and a log of focus changes.
pub struct FocusDemo {
    /// Number of focusable areas; at least one.
    pub areas: usize,
    /// The area the view last saw focused, if any.
    pub focused_index: Option<usize>,
    /// The most recent focus changes.
    pub focus_log: BoundedLog<FocusNote>,
}

/// The area after `current`, cyclically; with nothing focused, the first.
pub open spec fn next_area(current: Option<usize>, areas: int) -> int {
    match current {
        Some(i) => (i + 1) % areas,
        None => 0,
    }
}

/// The area before `current`, cyclically; with nothing focused, the last.
pub open spec fn prev_area(current: Option<usize>, areas: int) -> int {
    match current {
        Some(i) => if i == 0 {
            areas - 1
        } else {
            i - 1
        },
        None => areas - 1,
    }
}

impl FocusDemo {
    /// The focused index stays inside the row and the log respects its cap.
    pub open spec fn wf(&self) -> bool {
        &&& self.areas >= 1
        &&& (self.focused_index is Some ==> self.focused_index->0 < self.areas)
        &&& self.focus_log.wf()
        &&& self.focus_log.spec_cap() == FOCUS_LOG_CAP as int
    }

    /// A fresh demo with the given number of areas, none focused, and the
    /// waiting note in the log.
    pub fn new(areas: usize) -> (d: Self)
        requires
            areas >= 1,
        ensures
            d.wf(),
            d.areas == areas,
            d.focused_index is None,
            d.focus_log@ == seq![FocusNote::Waiting],
    {
        let mut log = BoundedLog::new(FOCUS_LOG_CAP);
        log.push(FocusNote::Waiting);
        proof {
            assert(log@ =~= seq![FocusNote::Waiting]);
        }
        FocusDemo { areas, focused_index: None, focus_log: log }
    }

    /// Appends to the focus log, dropping the oldest entry past the cap.
    pub fn log_focus(&mut self, note: FocusNote)
        requires
            old(self).wf(),
        ensures
            final(self).wf(),
            final(self).areas == old(self).areas,
            final(self).focused_index == old(self).focused_index,
            final(self).focus_log@ == BoundedLog::<FocusNote>::push_model(
                old(self).focus_log@,
                FOCUS_LOG_CAP as int,
                note,
            ),
    {
        self.focus_log.push(note);
    }

    /// The area that should receive focus when moving forward.
    pub fn focus_next(&self) -> (target: usize)
        requires
            self.wf(),
        ensures
            target == next_area(self.focused_index, self.areas as int),
            target < self.areas,
    {
        match self.focused_index {
            Some(i) => (i + 1) % self.areas,
            None => 0,
        }
    }

    /// The area that should receive focus when moving backward.
    pub fn focus_prev(&self) -> (target: usize)
        requires
            self.wf(),
        ensures
            target == prev_area(self.focused_index, self.areas as int),
            target < self.areas,
    {
        match self.focused_index {
            Some(i) => if i == 0 {
                self.areas - 1
            } else {
                i - 1
            },
            None => self.areas - 1,
        }
    }

    /// The area a key press should focus: tab moves forward, or backward
    /// with shift held; the arrows likewise; other keys move nothing.
    pub fn navigate(&self, key: FocusKey, shift: bool) -> (target: Option<usize>)
        requires
            self.wf(),
        ensures
            match key {
                FocusKey::Tab => target == Some(
                    if shift {
                        prev_area(self.focused_index, self.areas as int)
                    } else {
                        next_area(self.focused_index, self.areas as int)
                    } as usize,
                ),
                FocusKey::Forward => target == Some(
                    next_area(self.focused_index, self.areas as int) as usize,
                ),
                FocusKey::Backward => target == Some(
                    prev_area(self.focused_index, self.areas as int) as usize,
                ),
                FocusKey::Other => target is None,
            },
    {
        match key {
            FocusKey::Tab => if shift {
                Some(self.focus_prev())
            } else {
                Some(self.focus_next())
            },
            FocusKey::Forward => Some(self.focus_next()),
            FocusKey::Backward => Some(self.focus_prev()),
            FocusKey::Other => None,
        }
    }

    /// Re-derives the view's record from what the window reports focused:
    /// a change is logged (when an area gained focus) and remembered;
    /// seeing the same state again changes nothing.
    pub fn observe_focus(&mut self, seen: Option<usize>)
        requires
            old(self).wf(),
            seen is Some ==> seen->0 < old(self).areas,
        ensures
            final(self).wf(),
            final(self).areas == old(self).areas,
            final(self).focused_index == seen,
            seen == old(self).focused_index ==> *final(self) == *old(self),
            seen != old(self).focused_index && seen is Some ==> final(self).focus_log@
                == BoundedLog::<FocusNote>::push_model(
                old(self).focus_log@,
                FOCUS_LOG_CAP as int,
                FocusNote::Focused { index: seen->0 },
            ),
            seen != old(self).focused_index && seen is None ==> final(self).focus_log@
                == old(self).focus_log@,
    {
        let changed = match (seen, self.focused_index) {
            (Some(a), Some(b)) => a != b,
            (None, None) => false,
            _ => true,
        };
        if changed {
            match seen {
                Some(i) => {
                    let note = FocusNote::Focused { index: i };
                    self.log_focus(note);
                },
                None => {},
            }
            self.focused_index = seen;
        }
    }
}

} // verus!
