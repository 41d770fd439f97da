use statesync::focus::{FocusDemo, FocusKey, FocusNote, FOCUS_AREAS};

#[test]
fn with_nothing_focused_forward_goes_to_the_first_area() {
    let demo = FocusDemo::new(FOCUS_AREAS);
    assert_eq!(demo.focus_next(), 0);
    assert_eq!(demo.focus_prev(), FOCUS_AREAS - 1);
}

#[test]
fn focus_cycles_forward_and_backward() {
    let mut demo = FocusDemo::new(4);
    demo.observe_focus(Some(3));
    assert_eq!(demo.focus_next(), 0);
    assert_eq!(demo.focus_prev(), 2);
    demo.observe_focus(Some(0));
    assert_eq!(demo.focus_next(), 1);
    assert_eq!(demo.focus_prev(), 3);
}

#[test]
fn tab_moves_forward_and_shift_tab_backward() {
    let mut demo = FocusDemo::new(4);
    demo.observe_focus(Some(1));
    assert_eq!(demo.navigate(FocusKey::Tab, false), Some(2));
    assert_eq!(demo.navigate(FocusKey::Tab, true), Some(0));
    assert_eq!(demo.navigate(FocusKey::Forward, false), Some(2));
    assert_eq!(demo.navigate(FocusKey::Backward, false), Some(0));
    assert_eq!(demo.navigate(FocusKey::Other, false), None);
}

#[test]
fn focus_changes_are_logged_and_repeats_are_not() {
    let mut demo = FocusDemo::new(4);
    assert_eq!(demo.focus_log.entries().len(), 1);
    assert_eq!(demo.focus_log.entries()[0], FocusNote::Waiting);
    demo.observe_focus(Some(2));
    demo.observe_focus(Some(2));
    demo.observe_focus(Some(0));
    assert_eq!(demo.focused_index, Some(0));
    let log = demo.focus_log.entries();
    assert_eq!(log.len(), 3);
    assert_eq!(log[1], FocusNote::Focused { index: 2 });
    assert_eq!(log[2], FocusNote::Focused { index: 0 });
}

#[test]
fn losing_focus_is_remembered_but_not_logged() {
    let mut demo = FocusDemo::new(4);
    demo.observe_focus(Some(1));
    demo.observe_focus(None);
    assert_eq!(demo.focused_index, None);
    assert_eq!(demo.focus_log.entries().len(), 2);
}

#[test]
fn a_single_area_cycles_onto_itself() {
    let mut demo = FocusDemo::new(1);
    demo.observe_focus(Some(0));
    assert_eq!(demo.focus_next(), 0);
    assert_eq!(demo.focus_prev(), 0);
}
