use statesync::channel::Channel;
use statesync::globals::{set_and_notify, GlobalCell, GLOBAL_SOURCE};
use statesync::theme::{current_is_dark, toggle_theme, GlobalDemo, ThemeState};

#[test]
fn setting_a_global_notifies_its_observers() {
    let mut cell: GlobalCell<ThemeState> = GlobalCell::new();
    let mut watchers: Channel<ThemeState> = Channel::new();
    let sub = watchers.subscribe(GLOBAL_SOURCE);
    set_and_notify(&mut cell, &mut watchers, ThemeState { is_dark: true });
    set_and_notify(&mut cell, &mut watchers, ThemeState { is_dark: false });
    assert!(!current_is_dark(&cell));
    let heard = watchers.delivered(&sub);
    assert_eq!(heard.len(), 2);
    assert!(heard[0].is_dark);
    assert!(!heard[1].is_dark);
}

#[test]
fn get_before_any_set_reports_absence() {
    let cell: GlobalCell<i32> = GlobalCell::new();
    assert!(!cell.is_set());
    assert!(cell.try_get().is_none());
}

#[test]
fn set_then_get_returns_the_just_set_value() {
    let mut cell: GlobalCell<i32> = GlobalCell::new();
    cell.set(42);
    assert!(cell.is_set());
    assert_eq!(*cell.get(), 42);
    assert_eq!(cell.try_get().copied(), Some(42));
}

#[test]
fn a_later_set_overwrites() {
    let mut cell: GlobalCell<i32> = GlobalCell::new();
    cell.set(1);
    cell.set(2);
    assert_eq!(*cell.get(), 2);
}

#[test]
fn theme_defaults_to_light_until_set() {
    let cell: GlobalCell<ThemeState> = GlobalCell::new();
    assert!(!current_is_dark(&cell));
}

#[test]
fn toggling_an_unset_theme_turns_dark_on() {
    let mut cell: GlobalCell<ThemeState> = GlobalCell::new();
    toggle_theme(&mut cell);
    assert!(current_is_dark(&cell));
    toggle_theme(&mut cell);
    assert!(!current_is_dark(&cell));
    assert!(cell.is_set());
}

#[test]
fn local_count_is_local_to_the_view() {
    let mut demo = GlobalDemo::new();
    let mut cell: GlobalCell<ThemeState> = GlobalCell::new();
    demo.increment_local();
    demo.increment_local();
    assert_eq!(demo.local_count, 2);
    assert!(!cell.is_set());
    toggle_theme(&mut cell);
    assert_eq!(demo.local_count, 2);
}
