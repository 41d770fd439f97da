use statesync::history::BoundedLog;

#[test]
fn entries_accumulate_below_the_cap() {
    let mut log: BoundedLog<i32> = BoundedLog::new(3);
    assert_eq!(log.cap(), 3);
    log.push(1);
    log.push(2);
    assert_eq!(log.len(), 2);
    assert_eq!(log.entries()[0], 1);
    assert_eq!(log.entries()[1], 2);
}

#[test]
fn pushing_past_the_cap_drops_the_oldest() {
    let mut log: BoundedLog<i32> = BoundedLog::new(3);
    for i in 1..=5 {
        log.push(i);
    }
    assert_eq!(log.len(), 3);
    assert_eq!(log.entries()[0], 3);
    assert_eq!(log.entries()[1], 4);
    assert_eq!(log.entries()[2], 5);
}

#[test]
fn a_zero_cap_log_stays_empty() {
    let mut log: BoundedLog<i32> = BoundedLog::new(0);
    log.push(1);
    assert_eq!(log.len(), 0);
}

#[test]
fn clear_empties_the_log_and_keeps_the_cap() {
    let mut log: BoundedLog<i32> = BoundedLog::new(2);
    log.push(1);
    log.push(2);
    log.clear();
    assert_eq!(log.len(), 0);
    assert_eq!(log.cap(), 2);
    log.push(9);
    assert_eq!(log.entries()[0], 9);
}
