use vstd::prelude::*;

verus! {

/// The page that the stack of the timer window shows.
#[derive(Clone, Copy, Debug, PartialEq, Eq)]
pub enum Page {
    Timer,
    Settings,
}

/// The name under which a page was added to the stack.
pub open spec fn page_name(page: Page) -> Seq<char> {
    match page {
        Page::Timer => "timer"@,
        Page::Settings => "config"@,
    }
}

impl Page {
    /// The stack child name of the page.
    pub fn child_name(&self) -> (name: &'static str)
        ensures
            name@ == page_name(*self),
    {
        match self {
            Page::Timer => "timer",
            Page::Settings => "config",
        }
    }
}

/// What the timer window shows: the page of its stack, whether the top bar, the
/// time label and the stack are visible, and whether the window is in focus mode
/// (the container carries the `focus-mode` style). Focus mode is the minimal mode: the
/// controls are hidden and the window keeps its size.
#[derive(Clone, Copy, Debug, PartialEq, Eq)]
pub struct WindowView {
    pub page: Page,
    pub top_bar_visible: bool,
    pub time_label_visible: bool,
    pub stack_visible: bool,
    pub focus_mode: bool,
}

/// The default width and height, in pixels, of the timer window, which leaving focus
/// mode sets again.
pub const WINDOW_DEFAULT_SIZE: i32 = 50;

/// What a press on the hide button asks for.
#[derive(Clone, Copy, Debug, PartialEq, Eq)]
pub enum HideButtonAction {
    /// Primary button: enter the minimal focus mode.
    EnterFocus,
    /// Secondary button: quit the application.
    Quit,
    /// Any other button.
    Ignore,
}

/// The view of a freshly built window: the timer page, everything visible, no focus mode.
pub open spec fn initial_view() -> WindowView {
    WindowView {
        page: Page::Timer,
        top_bar_visible: true,
        time_label_visible: true,
        stack_visible: true,
        focus_mode: false,
    }
}

/// The view after the settings button: the settings page, with the top bar and the
/// time label hidden.
pub open spec fn settings_opened(v: WindowView) -> WindowView {
    WindowView { page: Page::Settings, top_bar_visible: false, time_label_visible: false, ..v }
}

/// The view after the back or the save button of the settings page: the timer page,
/// with the top bar and the time label shown again.
pub open spec fn settings_closed(v: WindowView) -> WindowView {
    WindowView { page: Page::Timer, top_bar_visible: true, time_label_visible: true, ..v }
}

/// The view in focus mode: stack and top bar hidden, the focus style on.
pub open spec fn focus_entered(v: WindowView) -> WindowView {
    WindowView { stack_visible: false, top_bar_visible: false, focus_mode: true, ..v }
}

/// The view after leaving focus mode: stack and top bar shown, the focus style off.
pub open spec fn focus_left(v: WindowView) -> WindowView {
    WindowView { stack_visible: true, top_bar_visible: true, focus_mode: false, ..v }
}

/// The action for a press of mouse button `button` on the hide button.
pub open spec fn hide_action(button: u32) -> HideButtonAction {
    if button == 1 {
        HideButtonAction::EnterFocus
    } else if button == 3 {
        HideButtonAction::Quit
    } else {
        HideButtonAction::Ignore
    }
}

/// Whether a click on the time label restores the window from focus mode: only when
/// the click comes with an event whose modifiers can be read (`super_held` is
/// `Some`) and the Super key is not held.
pub open spec fn restores(super_held: Option<bool>) -> bool {
    super_held == Some(false)
}

impl WindowView {
    /// The view of a freshly built window.
    pub fn new() -> (v: WindowView)
        ensures
            v == initial_view(),
    {
        WindowView {
            page: Page::Timer,
            top_bar_visible: true,
            time_label_visible: true,
            stack_visible: true,
            focus_mode: false,
        }
    }

    /// The settings button opens the settings page.
    pub fn open_settings(&mut self)
        ensures
            *final(self) == settings_opened(*old(self)),
    {
        self.page = Page::Settings;
        self.top_bar_visible = false;
        self.time_label_visible = false;
    }

    /// The back and save buttons of the settings page return to the timer page.
    pub fn close_settings(&mut self)
        ensures
            *final(self) == settings_closed(*old(self)),
    {
        self.page = Page::Timer;
        self.top_bar_visible = true;
        self.time_label_visible = true;
    }

    /// A press of mouse button `button` on the hide button: the primary button enters
    /// the minimal focus mode, the secondary one asks to quit, others do nothing.
    pub fn press_hide_button(&mut self, button: u32) -> (action: HideButtonAction)
        ensures
            action == hide_action(button),
            action == HideButtonAction::EnterFocus ==> *final(self) == focus_entered(*old(self)),
            action != HideButtonAction::EnterFocus ==> *final(self) == *old(self),
    {
        if button == 1 {
            self.stack_visible = false;
            self.top_bar_visible = false;
            self.focus_mode = true;
            HideButtonAction::EnterFocus
        } else if button == 3 {
            HideButtonAction::Quit
        } else {
            HideButtonAction::Ignore
        }
    }

    /// A click on the time label: where it restores (see `restores`), the view leaves
    /// focus mode and the caller sets the window's default size back; the result says
    /// whether it did.
    pub fn click_time_label(&mut self, super_held: Option<bool>) -> (restored: bool)
        ensures
            restored == restores(super_held),
            restored ==> *final(self) == focus_left(*old(self)),
            !restored ==> *final(self) == *old(self),
    {
        match super_held {
            Some(false) => {
                self.stack_visible = true;
                self.top_bar_visible = true;
                self.focus_mode = false;
                true
            },
            _ => false,
        }
    }
}

/// Opening the settings and going back leaves the window as it was, when it showed
/// the timer page with its top bar and time label.
pub proof fn law_settings_round_trip(v: WindowView)
    requires
        v.page == Page::Timer,
        v.top_bar_visible,
        v.time_label_visible,
    ensures
        settings_closed(settings_opened(v)) == v,
{
}

/// Entering focus mode and restoring leaves the window as it was, when it was not in
/// focus mode and showed its stack and top bar.
pub proof fn law_focus_round_trip(v: WindowView)
    requires
        v.stack_visible,
        v.top_bar_visible,
        !v.focus_mode,
    ensures
        focus_left(focus_entered(v)) == v,
{
}

/// In focus mode the controls are out of sight: neither the stack nor the top bar
/// shows, whatever the view was before; the settings page always hides the time label
/// and the top bar.
pub proof fn law_hidden_controls(v: WindowView)
    ensures
        !focus_entered(v).stack_visible && !focus_entered(v).top_bar_visible,
        !settings_opened(v).time_label_visible && !settings_opened(v).top_bar_visible,
{
}

/// Each transition sets the same fields, whatever view it starts from, and keeps the
/// others: leaving focus mode always shows the stack and the top bar and drops the
/// focus style; entering it always hides them and sets the style; opening the
/// settings shows the settings page without the top bar and the time label; closing
/// them shows the timer page with both.
pub proof fn law_view_transitions(v: WindowView)
    ensures
        focus_left(v).stack_visible && focus_left(v).top_bar_visible && !focus_left(
            v,
        ).focus_mode,
        focus_left(v).page == v.page && focus_left(v).time_label_visible
            == v.time_label_visible,
        !focus_entered(v).stack_visible && !focus_entered(v).top_bar_visible && focus_entered(
            v,
        ).focus_mode,
        focus_entered(v).page == v.page && focus_entered(v).time_label_visible
            == v.time_label_visible,
        settings_opened(v).page == Page::Settings && !settings_opened(v).top_bar_visible
            && !settings_opened(v).time_label_visible,
        settings_opened(v).stack_visible == v.stack_visible && settings_opened(v).focus_mode
            == v.focus_mode,
        settings_closed(v).page == Page::Timer && settings_closed(v).top_bar_visible
            && settings_closed(v).time_label_visible,
        settings_closed(v).stack_visible == v.stack_visible && settings_closed(v).focus_mode
            == v.focus_mode,
        focus_left(focus_left(v)) == focus_left(v),
        initial_view() == focus_left(initial_view()),
{
}

/// The hide button reacts to the primary button by entering focus mode and to the
/// secondary one by quitting, and to no other; a click on the time label restores
/// exactly when its modifiers are known and Super is not among them.
pub proof fn law_clicks(button: u32, super_held: Option<bool>)
    ensures
        (hide_action(button) == HideButtonAction::EnterFocus) == (button == 1),
        (hide_action(button) == HideButtonAction::Quit) == (button == 3),
        restores(super_held) == (super_held is Some && !super_held.unwrap()),
{
}

} // verus!
