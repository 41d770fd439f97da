//! A verified model of the state layer of a retained-mode UI: a shared
//! entity store with reference-counted handles, typed event channels with
//! revocable subscriptions, observation links, a process-wide global cell,
//! and cancellable background tasks, together with the view state machines
//! that are wired through them (child counters, a coordinating parent view,
//! action dispatch, focus navigation and input trackers).

pub mod actions;
pub mod advanced;
pub mod channel;
pub mod coordinator;
pub mod counter;
pub mod focus;
pub mod globals;
pub mod history;
pub mod input;
pub mod progress;
pub mod store;
pub mod style;
pub mod theme;
