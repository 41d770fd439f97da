//! The global theme and the view that demonstrates it.
//!
//! The theme is a single value shared by every view through the global
//! store: reading it falls back to the light theme while nothing was set,
//! and toggling flips whatever is effective and writes it back.

use vstd::prelude::*;

use crate::globals::GlobalCell;

verus! {

/// The process-wide theme state.
#[derive(Clone, Copy, Debug, PartialEq, Eq, Structural)]
pub struct ThemeState {
    /// Whether the dark theme is on.
    pub is_dark: bool,
}

/// The view demonstrating global state beside its own local state.
pub struct GlobalDemo {
    /// A counter that is local to this view, unlike the theme.
    pub local_count: i32,
}

/// The theme a reader effectively sees: the stored one, or light while
/// nothing was set.
pub open spec fn effective_dark(cell: Option<ThemeState>) -> bool {
    match cell {
        Some(t) => t.is_dark,
        None => false,
    }
}

/// Reads the effective theme: dark exactly when a dark theme was stored.
pub fn current_is_dark(cell: &GlobalCell<ThemeState>) -> (dark: bool)
    ensures
        dark == effective_dark(cell@),
{
    match cell.try_get() {
        Some(t) => t.is_dark,
        None => false,
    }
}

/// Flips the theme: reads whatever is effective and stores its opposite,
/// so the first toggle of an unset cell turns the dark theme on.
pub fn toggle_theme(cell: &mut GlobalCell<ThemeState>)
    ensures
        final(cell)@ == Some(ThemeState { is_dark: !effective_dark(old(cell)@) }),
{
    let current = current_is_dark(cell);
    cell.set(ThemeState { is_dark: !current });
}

impl GlobalDemo {
    /// A fresh view with its local counter at zero.
    pub fn new() -> (d: Self)
        ensures
            d.local_count == 0,
    {
        GlobalDemo { local_count: 0 }
    }

    /// A click on the local button: only this view's state moves.
    pub fn increment_local(&mut self)
        requires
            old(self).local_count < i32::MAX,
        ensures
            final(self).local_count == old(self).local_count + 1,
    {
        self.local_count = self.local_count + 1;
    }
}

} // verus!
