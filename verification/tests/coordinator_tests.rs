use statesync::channel::Channel;
use statesync::coordinator::{RelayNote, StateManagementApp, START_A, START_B};
use statesync::counter::{ChangeNote, ChildCounter, CounterChangedEvent, CounterTag};
use statesync::store::Store;

fn setup() -> (
    Store<ChildCounter>,
    Channel<CounterChangedEvent>,
    Channel<i32>,
    StateManagementApp,
) {
    let mut store: Store<ChildCounter> = Store::new();
    let mut events: Channel<CounterChangedEvent> = Channel::new();
    let mut observations: Channel<i32> = Channel::new();
    let app = StateManagementApp::new(
        &mut store,
        &mut events,
        &mut observations,
        String::from("Counter A"),
        String::from("Counter B"),
    );
    (store, events, observations, app)
}

#[test]
fn children_start_with_the_state_the_parent_passed() {
    let (store, _events, _observations, app) = setup();
    assert_eq!(app.read_count(&store, CounterTag::A), START_A);
    assert_eq!(app.read_count(&store, CounterTag::B), START_B);
    assert_eq!(START_A, 0);
    assert_eq!(START_B, 10);
    assert_eq!(app.total_changes, 0);
    assert_eq!(app.total_display.total, 0);
    assert_eq!(app.total_display.last_change, ChangeNote::Waiting);
    assert_eq!(app.event_log.len(), 0);
    assert_eq!(store.read(&app.counter_a).name, "Counter A");
}

#[test]
fn three_increments_then_sync_leave_both_counters_at_three() {
    let (mut store, mut events, mut observations, mut app) = setup();
    app.increment_counter(CounterTag::A, &mut store, &mut events, &mut observations);
    app.increment_counter(CounterTag::A, &mut store, &mut events, &mut observations);
    app.increment_counter(CounterTag::A, &mut store, &mut events, &mut observations);
    app.sync_counters(&mut store, &mut events, &mut observations);
    assert_eq!(app.read_count(&store, CounterTag::A), 3);
    assert_eq!(app.read_count(&store, CounterTag::B), 3);
}

#[test]
fn every_change_event_runs_the_handler_once() {
    let (mut store, mut events, mut observations, mut app) = setup();
    app.increment_counter(CounterTag::A, &mut store, &mut events, &mut observations);
    app.increment_counter(CounterTag::B, &mut store, &mut events, &mut observations);
    app.decrement_counter(CounterTag::B, &mut store, &mut events, &mut observations);
    assert_eq!(app.total_changes, 3);
    // Deltas: +1 +1 -1.
    assert_eq!(app.total_display.total, 1);
    assert_eq!(
        app.total_display.last_change,
        ChangeNote::Stepped { source: CounterTag::B, delta: -1 }
    );
    let log = app.event_log.entries();
    assert_eq!(log.len(), 3);
    assert_eq!(
        log[0],
        RelayNote::Changed { source: CounterTag::A, new_value: 1, delta: 1 }
    );
    assert_eq!(
        log[1],
        RelayNote::Changed { source: CounterTag::B, new_value: 11, delta: 1 }
    );
    assert_eq!(
        log[2],
        RelayNote::Changed { source: CounterTag::B, new_value: 10, delta: -1 }
    );
}

#[test]
fn events_are_delivered_to_the_matching_subscription_in_order() {
    let (mut store, mut events, mut observations, mut app) = setup();
    app.increment_counter(CounterTag::A, &mut store, &mut events, &mut observations);
    app.increment_counter(CounterTag::A, &mut store, &mut events, &mut observations);
    app.decrement_counter(CounterTag::A, &mut store, &mut events, &mut observations);
    let log_a = events.delivered(&app.sub_a);
    assert_eq!(log_a.len(), 3);
    assert_eq!(log_a[0], CounterChangedEvent { new_value: 1, delta: 1 });
    assert_eq!(log_a[1], CounterChangedEvent { new_value: 2, delta: 1 });
    assert_eq!(log_a[2], CounterChangedEvent { new_value: 1, delta: -1 });
    assert_eq!(events.delivered(&app.sub_b).len(), 0);
}

#[test]
fn the_observation_link_fires_on_every_redraw_of_counter_a() {
    let (mut store, mut events, mut observations, mut app) = setup();
    app.increment_counter(CounterTag::A, &mut store, &mut events, &mut observations);
    app.increment_counter(CounterTag::A, &mut store, &mut events, &mut observations);
    app.increment_counter(CounterTag::B, &mut store, &mut events, &mut observations);
    let seen = observations.delivered(&app.obs_a);
    assert_eq!(seen.len(), 2);
    assert_eq!(seen[0], 1);
    assert_eq!(seen[1], 2);
}

#[test]
fn reset_all_returns_everything_to_zero() {
    let (mut store, mut events, mut observations, mut app) = setup();
    app.increment_counter(CounterTag::A, &mut store, &mut events, &mut observations);
    app.increment_counter(CounterTag::B, &mut store, &mut events, &mut observations);
    app.reset_all(&mut store, &mut events, &mut observations);
    assert_eq!(app.read_count(&store, CounterTag::A), 0);
    assert_eq!(app.read_count(&store, CounterTag::B), 0);
    assert_eq!(app.total_changes, 0);
    assert_eq!(app.total_display.total, 0);
    assert_eq!(app.total_display.last_change, ChangeNote::Cleared);
    assert_eq!(app.event_log.len(), 0);
}

#[test]
fn sync_is_logged_but_is_no_change_event() {
    let (mut store, mut events, mut observations, mut app) = setup();
    app.sync_counters(&mut store, &mut events, &mut observations);
    assert_eq!(app.read_count(&store, CounterTag::B), 0);
    assert_eq!(app.total_changes, 0);
    let log = app.event_log.entries();
    assert_eq!(log.len(), 1);
    assert_eq!(log[0], RelayNote::Synced { value: 0 });
    assert_eq!(events.delivered(&app.sub_a).len(), 0);
    assert_eq!(events.delivered(&app.sub_b).len(), 0);
}

#[test]
fn the_event_log_keeps_only_the_latest_five() {
    let (mut store, mut events, mut observations, mut app) = setup();
    for _ in 0..7 {
        app.increment_counter(CounterTag::A, &mut store, &mut events, &mut observations);
    }
    let log = app.event_log.entries();
    assert_eq!(log.len(), 5);
    // Entries 1 and 2 were dropped; the oldest kept is the third change.
    assert_eq!(
        log[0],
        RelayNote::Changed { source: CounterTag::A, new_value: 3, delta: 1 }
    );
    assert_eq!(
        log[4],
        RelayNote::Changed { source: CounterTag::A, new_value: 7, delta: 1 }
    );
}

#[test]
fn a_shared_child_handle_sees_the_coordinator_mutations() {
    let (mut store, mut events, mut observations, mut app) = setup();
    let other_holder = store.retain(app.counter_handle(CounterTag::A));
    app.increment_counter(CounterTag::A, &mut store, &mut events, &mut observations);
    app.increment_counter(CounterTag::A, &mut store, &mut events, &mut observations);
    // The independent holder observes the same state, not a copy.
    assert_eq!(store.read(&other_holder).count, 2);
    store.release(other_holder);
    assert_eq!(app.read_count(&store, CounterTag::A), 2);
}
