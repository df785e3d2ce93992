use pomodoro_mindfullness::view::{HideButtonAction, Page, WindowView, WINDOW_DEFAULT_SIZE};

#[test]
fn new_view_shows_the_timer() {
    let v = WindowView::new();
    assert_eq!(v.page, Page::Timer);
    assert!(v.top_bar_visible && v.time_label_visible && v.stack_visible);
    assert!(!v.focus_mode);
    assert_eq!(WINDOW_DEFAULT_SIZE, 50);
}

#[test]
fn settings_open_and_back() {
    let mut v = WindowView::new();
    v.open_settings();
    assert_eq!(v.page, Page::Settings);
    assert!(!v.top_bar_visible);
    assert!(!v.time_label_visible);
    assert!(v.stack_visible);
    v.close_settings();
    assert_eq!(v, WindowView::new());
}

#[test]
fn hide_button_primary_enters_focus() {
    let mut v = WindowView::new();
    assert_eq!(v.press_hide_button(1), HideButtonAction::EnterFocus);
    assert!(!v.stack_visible);
    assert!(!v.top_bar_visible);
    assert!(v.focus_mode);
    assert!(v.time_label_visible);
}

#[test]
fn hide_button_secondary_quits_others_ignored() {
    let mut v = WindowView::new();
    assert_eq!(v.press_hide_button(3), HideButtonAction::Quit);
    assert_eq!(v, WindowView::new());
    assert_eq!(v.press_hide_button(2), HideButtonAction::Ignore);
    assert_eq!(v.press_hide_button(0), HideButtonAction::Ignore);
    assert_eq!(v, WindowView::new());
}

#[test]
fn time_label_restores_without_super() {
    let mut v = WindowView::new();
    v.press_hide_button(1);
    let focused = v;
    assert!(!v.click_time_label(Some(true)));
    assert_eq!(v, focused);
    assert!(!v.click_time_label(None));
    assert_eq!(v, focused);
    assert!(v.click_time_label(Some(false)));
    assert_eq!(v, WindowView::new());
}

#[test]
fn page_child_names() {
    assert_eq!(Page::Timer.child_name(), "timer");
    assert_eq!(Page::Settings.child_name(), "config");
}
