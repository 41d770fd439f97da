use statesync::channel::Channel;

#[test]
fn emit_with_no_subscribers_is_a_silent_noop() {
    let mut ch: Channel<i32> = Channel::new();
    ch.emit(0, 5);
    ch.emit(3, 7);
    assert_eq!(ch.sub_count(), 0);
}

#[test]
fn single_subscriber_hears_every_emit_in_call_order() {
    let mut ch: Channel<i32> = Channel::new();
    let sub = ch.subscribe(7);
    ch.emit(7, 10);
    ch.emit(7, 20);
    ch.emit(7, 30);
    let log = ch.delivered(&sub);
    assert_eq!(log.len(), 3);
    assert_eq!(log[0], 10);
    assert_eq!(log[1], 20);
    assert_eq!(log[2], 30);
}

#[test]
fn subscriber_on_another_source_hears_nothing() {
    let mut ch: Channel<i32> = Channel::new();
    let on_seven = ch.subscribe(7);
    let on_eight = ch.subscribe(8);
    ch.emit(7, 1);
    ch.emit(7, 2);
    assert_eq!(ch.delivered(&on_seven).len(), 2);
    assert_eq!(ch.delivered(&on_eight).len(), 0);
}

#[test]
fn two_subscribers_on_one_source_both_hear() {
    let mut ch: Channel<i32> = Channel::new();
    let first = ch.subscribe(4);
    let second = ch.subscribe(4);
    ch.emit(4, 99);
    assert_eq!(ch.delivered(&first).len(), 1);
    assert_eq!(ch.delivered(&second).len(), 1);
    assert_eq!(ch.delivered(&first)[0], 99);
    assert_eq!(ch.delivered(&second)[0], 99);
}

#[test]
fn dropping_a_subscription_stops_delivery_for_good() {
    let mut ch: Channel<i32> = Channel::new();
    let sub = ch.subscribe(2);
    let keeper = ch.subscribe(2);
    ch.emit(2, 11);
    ch.cancel(sub);
    ch.emit(2, 22);
    ch.emit(2, 33);
    // The cancelled binding keeps what it had and receives nothing more.
    let keeper_log = ch.delivered(&keeper);
    assert_eq!(keeper_log.len(), 3);
    assert_eq!(keeper_log[0], 11);
    assert_eq!(keeper_log[1], 22);
    assert_eq!(keeper_log[2], 33);
    assert!(ch.is_live(&keeper));
}

#[test]
fn cancelled_subscription_log_is_frozen() {
    let mut ch: Channel<u64> = Channel::new();
    let sub = ch.subscribe(0);
    ch.emit(0, 1);
    let idx = sub.index();
    ch.cancel(sub);
    ch.emit(0, 2);
    ch.emit(0, 3);
    // Zero further deliveries for the dropped binding.
    assert!(!ch.is_live_at(idx));
    assert_eq!(ch.delivered_at(idx).len(), 1);
    assert_eq!(ch.delivered_at(idx)[0], 1);
}
