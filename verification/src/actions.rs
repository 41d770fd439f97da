//! Command dispatch: named actions, their keyboard bindings, and the view
//! that handles them.
//!
//! An action is a small command value; a view registers one handler per
//! action it understands. Key presses are translated into actions by a
//! pure decision function, and digit keys set the count directly.

use vstd::prelude::*;

use crate::history::BoundedLog;

verus! {

/// The action log keeps this many entries.
pub const ACTION_LOG_CAP: usize = 5;

/// The named commands of the demo.
#[derive(Clone, Copy, Debug, PartialEq, Eq, Structural)]
pub enum AppAction {
    /// Step the count up.
    Increment,
    /// Step the count down.
    Decrement,
    /// Put the count back to zero.
    Reset,
    /// Flip the global theme; dispatched, but handled elsewhere.
    ToggleTheme,
}

/// A decoded key press, as the handler cares about it.
#[derive(Clone, Copy, Debug, PartialEq, Eq, Structural)]
pub enum Key {
    /// The up arrow.
    Up,
    /// The down arrow.
    Down,
    /// The letter k.
    K,
    /// The letter j.
    J,
    /// The letter r.
    R,
    /// A digit key, 0 to 9.
    Digit(u8),
    /// Anything else.
    Other,
}

/// What a key press amounts to.
#[derive(Clone, Copy, Debug, PartialEq, Eq, Structural)]
pub enum KeyCommand {
    /// Dispatch this action.
    Dispatch(AppAction),
    /// Set the count to this digit directly.
    SetCount(u8),
    /// Nothing bound to the key.
    Ignored,
}

/// One entry of the action log.
#[derive(Clone, Copy, Debug, PartialEq, Eq, Structural)]
pub enum ActionNote {
    /// Nothing happened yet.
    Waiting,
    /// An increment was handled, leaving this count.
    Incremented { new_value: i32 },
    /// A decrement was handled, leaving this count.
    Decremented { new_value: i32 },
    /// A reset was handled.
    ResetDone,
    /// A digit key set the count directly.
    DigitSet { value: i32 },
}

/// The view that registers the action handlers: a count and a log of the
/// actions it handled.
pub struct ActionDemo {
    /// The count the actions drive.
    pub count: i32,
    /// The most recently handled actions.
    pub action_log: BoundedLog<ActionNote>,
}

/// The key binding table: arrows and their letter twins dispatch actions,
/// digits set the count, everything else is ignored.
pub open spec fn binding_of(key: Key) -> KeyCommand {
    match key {
        Key::Up => KeyCommand::Dispatch(AppAction::Increment),
        Key::K => KeyCommand::Dispatch(AppAction::Increment),
        Key::Down => KeyCommand::Dispatch(AppAction::Decrement),
        Key::J => KeyCommand::Dispatch(AppAction::Decrement),
        Key::R => KeyCommand::Dispatch(AppAction::Reset),
        Key::Digit(d) => if d <= 9 {
            KeyCommand::SetCount(d)
        } else {
            KeyCommand::Ignored
        },
        Key::Other => KeyCommand::Ignored,
    }
}

/// Translates a key press into what the view should do, exactly as
/// [`binding_of`] says.
pub fn command_for_key(key: Key) -> (c: KeyCommand)
    ensures
        c == binding_of(key),
{
    match key {
        Key::Up => KeyCommand::Dispatch(AppAction::Increment),
        Key::K => KeyCommand::Dispatch(AppAction::Increment),
        Key::Down => KeyCommand::Dispatch(AppAction::Decrement),
        Key::J => KeyCommand::Dispatch(AppAction::Decrement),
        Key::R => KeyCommand::Dispatch(AppAction::Reset),
        Key::Digit(d) => if d <= 9 {
            KeyCommand::SetCount(d)
        } else {
            KeyCommand::Ignored
        },
        Key::Other => KeyCommand::Ignored,
    }
}

impl ActionDemo {
    /// The log respects its cap.
    pub open spec fn wf(&self) -> bool {
        &&& self.action_log.wf()
        &&& self.action_log.spec_cap() == ACTION_LOG_CAP as int
    }

    /// A fresh view: count zero, log holding only the waiting note.
    pub fn new() -> (d: Self)
        ensures
            d.wf(),
            d.count == 0,
            d.action_log@ == seq![ActionNote::Waiting],
    {
        let mut log = BoundedLog::new(ACTION_LOG_CAP);
        log.push(ActionNote::Waiting);
        proof {
            assert(log@ =~= seq![ActionNote::Waiting]);
        }
        ActionDemo { count: 0, action_log: log }
    }

    /// Appends to the action log, dropping the oldest entry past the cap.
    pub fn log_action(&mut self, note: ActionNote)
        requires
            old(self).wf(),
        ensures
            final(self).wf(),
            final(self).count == old(self).count,
            final(self).action_log@ == BoundedLog::<ActionNote>::push_model(
                old(self).action_log@,
                ACTION_LOG_CAP as int,
                note,
            ),
    {
        self.action_log.push(note);
    }

    /// Handler for [`AppAction::Increment`].
    pub fn handle_increment(&mut self)
        requires
            old(self).wf(),
            old(self).count < i32::MAX,
        ensures
            final(self).wf(),
            final(self).count == old(self).count + 1,
            final(self).action_log@ == BoundedLog::<ActionNote>::push_model(
                old(self).action_log@,
                ACTION_LOG_CAP as int,
                ActionNote::Incremented { new_value: (old(self).count + 1) as i32 },
            ),
    {
        self.count = self.count + 1;
        let note = ActionNote::Incremented { new_value: self.count };
        self.log_action(note);
    }

    /// Handler for [`AppAction::Decrement`].
    pub fn handle_decrement(&mut self)
        requires
            old(self).wf(),
            old(self).count > i32::MIN,
        ensures
            final(self).wf(),
            final(self).count == old(self).count - 1,
            final(self).action_log@ == BoundedLog::<ActionNote>::push_model(
                old(self).action_log@,
                ACTION_LOG_CAP as int,
                ActionNote::Decremented { new_value: (old(self).count - 1) as i32 },
            ),
    {
        self.count = self.count - 1;
        let note = ActionNote::Decremented { new_value: self.count };
        self.log_action(note);
    }

    /// Handler for [`AppAction::Reset`].
    pub fn handle_reset(&mut self)
        requires
            old(self).wf(),
        ensures
            final(self).wf(),
            final(self).count == 0,
            final(self).action_log@ == BoundedLog::<ActionNote>::push_model(
                old(self).action_log@,
                ACTION_LOG_CAP as int,
                ActionNote::ResetDone,
            ),
    {
        self.count = 0;
        self.log_action(ActionNote::ResetDone);
    }

    /// Dispatches one action to the handler registered for it. The theme
    /// toggle has no handler on this view, so dispatching it here changes
    /// nothing.
    pub fn dispatch(&mut self, action: AppAction)
        requires
            old(self).wf(),
            i32::MIN < old(self).count < i32::MAX,
        ensures
            final(self).wf(),
            match action {
                AppAction::Increment => final(self).count == old(self).count + 1
                    && final(self).action_log@ == BoundedLog::<ActionNote>::push_model(
                    old(self).action_log@,
                    ACTION_LOG_CAP as int,
                    ActionNote::Incremented { new_value: (old(self).count + 1) as i32 },
                ),
                AppAction::Decrement => final(self).count == old(self).count - 1
                    && final(self).action_log@ == BoundedLog::<ActionNote>::push_model(
                    old(self).action_log@,
                    ACTION_LOG_CAP as int,
                    ActionNote::Decremented { new_value: (old(self).count - 1) as i32 },
                ),
                AppAction::Reset => final(self).count == 0
                    && final(self).action_log@ == BoundedLog::<ActionNote>::push_model(
                    old(self).action_log@,
                    ACTION_LOG_CAP as int,
                    ActionNote::ResetDone,
                ),
                AppAction::ToggleTheme => *final(self) == *old(self),
            },
    {
        match action {
            AppAction::Increment => self.handle_increment(),
            AppAction::Decrement => self.handle_decrement(),
            AppAction::Reset => self.handle_reset(),
            AppAction::ToggleTheme => {},
        }
    }

    /// A key press on the focused view: translates the key and either
    /// dispatches the bound action or sets the count from the digit.
    pub fn press_key(&mut self, key: Key)
        requires
            old(self).wf(),
            i32::MIN < old(self).count < i32::MAX,
        ensures
            final(self).wf(),
            binding_of(key) is Ignored ==> *final(self) == *old(self),
            forall|d: u8| binding_of(key) == KeyCommand::SetCount(d) ==> final(self).count == d
                && final(self).action_log@ == BoundedLog::<ActionNote>::push_model(
                old(self).action_log@,
                ACTION_LOG_CAP as int,
                ActionNote::DigitSet { value: d as i32 },
            ),
            binding_of(key) == KeyCommand::Dispatch(AppAction::Increment) ==> final(self).count
                == old(self).count + 1,
            binding_of(key) == KeyCommand::Dispatch(AppAction::Decrement) ==> final(self).count
                == old(self).count - 1,
            binding_of(key) == KeyCommand::Dispatch(AppAction::Reset) ==> final(self).count == 0,
    {
        let command = command_for_key(key);
        match command {
            KeyCommand::Dispatch(action) => self.dispatch(action),
            KeyCommand::SetCount(d) => {
                self.count = d as i32;
                let note = ActionNote::DigitSet { value: self.count };
                self.log_action(note);
            },
            KeyCommand::Ignored => {},
        }
    }
}

} // verus!
