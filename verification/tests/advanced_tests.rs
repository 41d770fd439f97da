use statesync::advanced::AdvancedApp;
use statesync::globals::GlobalCell;
use statesync::progress::{AsyncDemo, TaskPool};
use statesync::store::Store;
use statesync::theme::{current_is_dark, toggle_theme, ThemeState};

#[test]
fn startup_sets_the_global_theme_to_light() {
    let mut store: Store<AsyncDemo> = Store::new();
    let mut theme: GlobalCell<ThemeState> = GlobalCell::new();
    let app = AdvancedApp::new(&mut store, &mut theme);
    assert!(theme.is_set());
    assert!(!current_is_dark(&theme));
    assert_eq!(app.action_demo.count, 0);
    assert_eq!(app.global_demo.local_count, 0);
    assert_eq!(app.focus_demo.focused_index, None);
    assert!(!store.read(&app.async_demo).loading);
}

#[test]
fn the_theme_is_shared_while_local_state_is_not() {
    let mut store: Store<AsyncDemo> = Store::new();
    let mut theme: GlobalCell<ThemeState> = GlobalCell::new();
    let mut app = AdvancedApp::new(&mut store, &mut theme);
    toggle_theme(&mut theme);
    assert!(current_is_dark(&theme));
    app.global_demo.increment_local();
    assert_eq!(app.global_demo.local_count, 1);
    assert!(current_is_dark(&theme));
}

#[test]
fn the_demos_run_against_the_shared_store() {
    let mut store: Store<AsyncDemo> = Store::new();
    let mut theme: GlobalCell<ThemeState> = GlobalCell::new();
    let app = AdvancedApp::new(&mut store, &mut theme);
    let mut pool = TaskPool::new();
    let weak = store.downgrade(&app.async_demo);
    {
        let view = store.get_mut(&app.async_demo);
        view.start_loading(weak, &mut pool);
    }
    pool.run_step(0, &mut store);
    assert_eq!(store.read(&app.async_demo).progress, 10);
    assert!(store.read(&app.async_demo).loading);
}
