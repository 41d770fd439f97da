use statesync::store::Store;

#[test]
fn insert_then_read_returns_the_value() {
    let mut store: Store<i32> = Store::new();
    let h = store.insert(41);
    assert_eq!(*store.read(&h), 41);
    assert_eq!(store.len(), 1);
}

#[test]
fn shared_handles_observe_the_same_mutation() {
    let mut store: Store<i32> = Store::new();
    let h1 = store.insert(0);
    let h2 = store.retain(&h1);
    // Two independent holders; one mutates, the other sees it.
    let prev = store.replace(&h1, 17);
    assert_eq!(prev, 0);
    assert_eq!(*store.read(&h2), 17);
    let slot = store.get_mut(&h2);
    *slot = 99;
    assert_eq!(*store.read(&h1), 99);
    assert_eq!(h1.index(), h2.index());
}

#[test]
fn releasing_the_last_handle_drops_the_value() {
    let mut store: Store<i32> = Store::new();
    let h = store.insert(5);
    let w = store.downgrade(&h);
    assert!(store.is_live(&w));
    store.release(h);
    assert!(!store.is_live(&w));
    assert!(store.upgrade(&w).is_none());
    // The slot stays; indices are stable.
    assert_eq!(store.len(), 1);
}

#[test]
fn value_outlives_any_single_holder() {
    let mut store: Store<i32> = Store::new();
    let h1 = store.insert(5);
    let h2 = store.retain(&h1);
    store.release(h1);
    assert_eq!(*store.read(&h2), 5);
    let w = store.downgrade(&h2);
    store.release(h2);
    assert!(!store.is_live(&w));
}

#[test]
fn upgrade_yields_a_working_strong_handle() {
    let mut store: Store<i32> = Store::new();
    let h = store.insert(8);
    let w = store.downgrade(&h);
    let h2 = store.upgrade(&w).unwrap();
    assert_eq!(*store.read(&h2), 8);
    // The upgraded handle keeps the value alive on its own.
    store.release(h);
    assert!(store.is_live(&w));
    assert_eq!(*store.read(&h2), 8);
    store.release(h2);
    assert!(!store.is_live(&w));
}

#[test]
fn slots_are_independent() {
    let mut store: Store<&'static str> = Store::new();
    let first = store.insert("one");
    let second = store.insert("two");
    assert_eq!(*store.read(&first), "one");
    assert_eq!(*store.read(&second), "two");
    store.replace(&first, "changed");
    assert_eq!(*store.read(&second), "two");
}
