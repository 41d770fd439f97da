use statesync::progress::{AsyncDemo, LoadOutcome, TaskPool, TaskStatus};
use statesync::store::Store;

fn start() -> (Store<AsyncDemo>, TaskPool, statesync::store::Handle, usize) {
    let mut store: Store<AsyncDemo> = Store::new();
    let mut pool = TaskPool::new();
    let h = store.insert(AsyncDemo::new());
    let weak = store.downgrade(&h);
    let view = store.get_mut(&h);
    view.start_loading(weak, &mut pool);
    let task_idx = 0;
    (store, pool, h, task_idx)
}

#[test]
fn a_full_run_reports_every_tenth_and_completes() {
    let (mut store, mut pool, h, task) = start();
    assert!(store.read(&h).loading);
    for step in 1..=10 {
        pool.run_step(task, &mut store);
        assert_eq!(store.read(&h).progress, step * 10);
        assert!(store.read(&h).loading);
    }
    // The step after the last progress update completes the load.
    pool.run_step(task, &mut store);
    let view = store.read(&h);
    assert!(!view.loading);
    assert_eq!(view.progress, 100);
    assert_eq!(view.result, Some(LoadOutcome::Done));
    assert_eq!(pool.status(task), TaskStatus::Finished);
    // Further steps change nothing.
    pool.run_step(task, &mut store);
    assert_eq!(store.read(&h).progress, 100);
}

#[test]
fn cancelling_prevents_every_further_mutation_by_the_task() {
    let (mut store, mut pool, h, task) = start();
    pool.run_step(task, &mut store);
    pool.run_step(task, &mut store);
    pool.run_step(task, &mut store);
    assert_eq!(store.read(&h).progress, 30);
    {
        let view = store.get_mut(&h);
        view.cancel_loading(&mut pool);
    }
    assert_eq!(pool.status(task), TaskStatus::Cancelled);
    let before_loading = store.read(&h).loading;
    let before_progress = store.read(&h).progress;
    let before_result = store.read(&h).result;
    // The steps that would otherwise have executed do nothing now.
    for _ in 0..20 {
        pool.run_step(task, &mut store);
    }
    let view = store.read(&h);
    assert_eq!(view.loading, before_loading);
    assert_eq!(view.progress, before_progress);
    assert_eq!(view.result, before_result);
    assert!(!view.loading);
    assert_eq!(view.progress, 0);
    assert_eq!(view.result, Some(LoadOutcome::Cancelled));
    assert_eq!(pool.status(task), TaskStatus::Cancelled);
}

#[test]
fn a_torn_down_view_turns_the_task_into_a_silent_noop() {
    let (mut store, mut pool, h, task) = start();
    pool.run_step(task, &mut store);
    let w = store.downgrade(&h);
    store.release(h);
    assert!(!store.is_live(&w));
    // The task still runs its course, mutating nothing and failing nowhere.
    for _ in 0..12 {
        pool.run_step(task, &mut store);
    }
    assert_eq!(pool.status(task), TaskStatus::Finished);
    assert!(!store.is_live(&w));
}

#[test]
fn restarting_after_cancel_spawns_a_fresh_task() {
    let (mut store, mut pool, h, first_task) = start();
    pool.run_step(first_task, &mut store);
    {
        let view = store.get_mut(&h);
        view.cancel_loading(&mut pool);
    }
    let weak = store.downgrade(&h);
    {
        let view = store.get_mut(&h);
        view.start_loading(weak, &mut pool);
    }
    assert_eq!(pool.task_count(), 2);
    let second_task = 1;
    assert_eq!(pool.status(first_task), TaskStatus::Cancelled);
    assert_eq!(pool.status(second_task), TaskStatus::Running);
    pool.run_step(second_task, &mut store);
    assert_eq!(store.read(&h).progress, 10);
    // The cancelled task stays inert while the fresh one works.
    pool.run_step(first_task, &mut store);
    assert_eq!(store.read(&h).progress, 10);
}
