//! The root view of the advanced demos: it initialises the global theme
//! at startup and owns one of each advanced demo.

use vstd::prelude::*;

use crate::actions::ActionDemo;
use crate::focus::{FocusDemo, FOCUS_AREAS};
use crate::globals::GlobalCell;
use crate::progress::AsyncDemo;
use crate::store::{Handle, Slot, Store};
use crate::theme::{GlobalDemo, ThemeState};

verus! {

/// The root view that owns the advanced demos.
pub struct AdvancedApp {
    /// The action dispatch demo.
    pub action_demo: ActionDemo,
    /// Handle to the loading view, which lives in the store so the
    /// background task can reach it weakly.
    pub async_demo: Handle,
    /// The focus navigation demo.
    pub focus_demo: FocusDemo,
    /// The global-state demo.
    pub global_demo: GlobalDemo,
}

impl AdvancedApp {
    /// Sets the global theme to light — the one global initialisation of
    /// the process — and creates every demo in its fresh state.
    pub fn new(store: &mut Store<AsyncDemo>, theme: &mut GlobalCell<ThemeState>) -> (app: Self)
        requires
            old(store).wf(),
        ensures
            final(store).wf(),
            final(theme)@ == Some(ThemeState { is_dark: false }),
            app.action_demo.wf(),
            app.action_demo.count == 0,
            app.async_demo@ == old(store)@.len(),
            final(store)@ == old(store)@.push(
                Slot {
                    refs: 1usize,
                    value: Some(
                        AsyncDemo { loading: false, progress: 0i32, result: None, task: None },
                    ),
                },
            ),
            final(store).valid(&app.async_demo),
            app.focus_demo.wf(),
            app.focus_demo.areas == FOCUS_AREAS,
            app.focus_demo.focused_index is None,
            app.global_demo.local_count == 0,
    {
        theme.set(ThemeState { is_dark: false });
        let async_demo = store.insert(AsyncDemo::new());
        AdvancedApp {
            action_demo: ActionDemo::new(),
            async_demo,
            focus_demo: FocusDemo::new(FOCUS_AREAS),
            global_demo: GlobalDemo::new(),
        }
    }
}

} // verus!
