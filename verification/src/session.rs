use vstd::prelude::*;

verus! {

/// The states of the pomodoro timer that the window's controller tells apart.
#[derive(Clone, Copy, Debug, PartialEq, Eq)]
pub enum TimerState {
    /// The timer counts down.
    Play,
    /// The timer is stopped and may be resumed or adjusted.
    Pause,
    /// The work period has run out.
    End,
}

/// The two texts of the play button.
#[derive(Clone, Copy, Debug, PartialEq, Eq)]
pub enum PlayButtonLabel {
    /// "Pomodoro!": the timer is not running.
    Start,
    /// "Pausar": the timer is running.
    Pause,
}

/// The text of a play button label.
pub open spec fn play_label_text(label: PlayButtonLabel) -> Seq<char> {
    match label {
        PlayButtonLabel::Start => "Pomodoro!"@,
        PlayButtonLabel::Pause => "Pausar"@,
    }
}

impl PlayButtonLabel {
    /// The text shown on the button.
    pub fn text(&self) -> (s: &'static str)
        ensures
            s@ == play_label_text(*self),
    {
        match self {
            PlayButtonLabel::Start => "Pomodoro!",
            PlayButtonLabel::Pause => "Pausar",
        }
    }
}

/// The state after a click on the play button: a running timer pauses, any other
/// starts running.
pub open spec fn toggled(state: TimerState) -> TimerState {
    match state {
        TimerState::Play => TimerState::Pause,
        _ => TimerState::Play,
    }
}

/// The label the play button shows for a state it has just set.
pub open spec fn label_for(state: TimerState) -> PlayButtonLabel {
    match state {
        TimerState::Play => PlayButtonLabel::Pause,
        _ => PlayButtonLabel::Start,
    }
}

/// A click on the play button: the new state of the timer and the new button label.
pub fn toggle_play(state: TimerState) -> (result: (TimerState, PlayButtonLabel))
    ensures
        result.0 == toggled(state),
        result.1 == label_for(result.0),
{
    match state {
        TimerState::Play => (TimerState::Pause, PlayButtonLabel::Start),
        _ => (TimerState::Play, PlayButtonLabel::Pause),
    }
}

/// What the controller does on one tick of its one-second clock.
#[derive(Clone, Copy, Debug, PartialEq, Eq)]
pub enum TickAction {
    /// A break is shown: one second of it has passed, and the break overlay is to be
    /// hidden when none is left.
    CountBreak { hide_overlay: bool },
    /// No break is counted: the time display is redrawn, and the timer advances by one
    /// second when it is running.
    Refresh { advance_timer: bool },
}

/// The action of a tick, from the seconds of break left, whether the break overlay
/// is visible, and the timer state.
pub open spec fn tick_action(remaining: nat, overlay_visible: bool, state: TimerState) -> TickAction {
    if overlay_visible && remaining > 0 {
        TickAction::CountBreak { hide_overlay: remaining == 1 }
    } else {
        TickAction::Refresh { advance_timer: state == TimerState::Play }
    }
}

/// The seconds of break left after a tick.
pub open spec fn remaining_after_tick(remaining: nat, overlay_visible: bool) -> nat {
    if overlay_visible && remaining > 0 {
        (remaining - 1) as nat
    } else {
        remaining
    }
}

/// The length of the break that follows a work period of `work_seconds` seconds:
/// a fifth of it, rounded down.
pub open spec fn break_length(work_seconds: nat) -> nat {
    work_seconds / 5
}

/// The seconds of break left after `ticks` ticks with the overlay visible.
pub open spec fn remaining_after_ticks(remaining: nat, ticks: nat) -> nat
    decreases ticks,
{
    if ticks == 0 {
        remaining
    } else {
        remaining_after_tick(remaining_after_ticks(remaining, (ticks - 1) as nat), true)
    }
}

/// The break countdown: the seconds of break that remain to be shown.
#[derive(Clone, Copy, Debug, PartialEq, Eq)]
pub struct BreakCountdown {
    pub remaining: u32,
}

impl BreakCountdown {
    /// No break to count.
    pub fn new() -> (c: BreakCountdown)
        ensures
            c.remaining == 0,
    {
        BreakCountdown { remaining: 0 }
    }

    /// One tick of the clock: counts a second of break while the overlay is visible
    /// and some remain; otherwise leaves the countdown alone and says whether the timer
    /// is to advance.
    pub fn tick(&mut self, overlay_visible: bool, state: TimerState) -> (action: TickAction)
        ensures
            action == tick_action(old(self).remaining as nat, overlay_visible, state),
            final(self).remaining == remaining_after_tick(
                old(self).remaining as nat,
                overlay_visible,
            ),
    {
        if overlay_visible && self.remaining > 0 {
            self.remaining = self.remaining - 1;
            TickAction::CountBreak { hide_overlay: self.remaining == 0 }
        } else {
            let advance_timer = match state {
                TimerState::Play => true,
                _ => false,
            };
            TickAction::Refresh { advance_timer }
        }
    }

    /// The timer has just been advanced and is now in `state`. When that advance ended
    /// the work period of `work_seconds` seconds, the break starts (see `start_break`)
    /// and the new play button label is returned; the caller then resets the timer and
    /// shows the break overlay. Otherwise nothing changes.
    pub fn after_advance(&mut self, state: TimerState, work_seconds: u32) -> (label: Option<
        PlayButtonLabel,
    >)
        ensures
            state == TimerState::End ==> final(self).remaining == break_length(
                work_seconds as nat,
            ) && label == Some(PlayButtonLabel::Start),
            state != TimerState::End ==> *final(self) == *old(self) && label is None,
    {
        match state {
            TimerState::End => Some(self.start_break(work_seconds)),
            _ => None,
        }
    }

    /// The work period of `work_seconds` seconds has ended: the break starts with a
    /// fifth of that time, and the play button goes back to its start label. The caller
    /// also resets the timer and shows the break overlay.
    pub fn start_break(&mut self, work_seconds: u32) -> (label: PlayButtonLabel)
        ensures
            final(self).remaining == break_length(work_seconds as nat),
            label == PlayButtonLabel::Start,
    {
        self.remaining = work_seconds / 5;
        PlayButtonLabel::Start
    }
}

/// Whether the break video plays muted: it is, unless headphones are connected.
pub fn break_video_muted(headphones_connected: bool) -> (muted: bool)
    ensures
        muted == !headphones_connected,
{
    !headphones_connected
}

/// The two buttons that shift the work time.
#[derive(Clone, Copy, Debug, PartialEq, Eq)]
pub enum AdjustButton {
    /// "+5": five minutes more.
    Plus,
    /// "-5": five minutes less.
    Minus,
}

/// Five minutes, in seconds.
pub const ADJUST_STEP_SECONDS: i32 = 300;

/// The shift, in seconds, that a button asks for.
pub open spec fn offset_of(button: AdjustButton) -> int {
    match button {
        AdjustButton::Plus => ADJUST_STEP_SECONDS as int,
        AdjustButton::Minus => -ADJUST_STEP_SECONDS,
    }
}

/// What a click on "+5" or "-5" does to the timer.
#[derive(Clone, Copy, Debug, PartialEq, Eq)]
pub enum AdjustPlan {
    /// The timer runs: nothing changes.
    Ignore,
    /// The timer is first reset to its base time when it has moved from its work
    /// time, then shifted by `offset` seconds, and the display is redrawn.
    Apply { reset_first: bool, offset: i32 },
}

/// The plan for a click of `button`, from the timer's state, its current time and
/// its work time.
pub open spec fn adjust_plan(
    button: AdjustButton,
    state: TimerState,
    current_time: u32,
    initial_work_seconds: u32,
) -> AdjustPlan {
    if state == TimerState::Play {
        AdjustPlan::Ignore
    } else {
        AdjustPlan::Apply {
            reset_first: current_time != initial_work_seconds,
            offset: offset_of(button) as i32,
        }
    }
}

/// The shift a button asks for.
pub fn adjust_offset(button: AdjustButton) -> (offset: i32)
    ensures
        offset == offset_of(button),
{
    match button {
        AdjustButton::Plus => ADJUST_STEP_SECONDS,
        AdjustButton::Minus => -ADJUST_STEP_SECONDS,
    }
}

/// Decides what a click of `button` does.
pub fn plan_adjust(
    button: AdjustButton,
    state: TimerState,
    current_time: u32,
    initial_work_seconds: u32,
) -> (plan: AdjustPlan)
    ensures
        plan == adjust_plan(button, state, current_time, initial_work_seconds),
{
    match state {
        TimerState::Play => AdjustPlan::Ignore,
        _ => AdjustPlan::Apply {
            reset_first: current_time != initial_work_seconds,
            offset: adjust_offset(button),
        },
    }
}

/// Two clicks on the play button bring a running or paused timer back to its state,
/// and the button label always tells what the next click will do: "Pausar" exactly
/// while the timer runs.
pub proof fn law_play_toggle(state: TimerState)
    ensures
        state != TimerState::End ==> toggled(toggled(state)) == state,
        toggled(state) != TimerState::End,
        (label_for(toggled(state)) == PlayButtonLabel::Pause) == (toggled(state)
            == TimerState::Play),
{
}

/// A break of `remaining` seconds, with the overlay visible, lasts exactly that many
/// ticks: each tick takes one second off, the overlay is hidden at the last one and
/// not before, and the timer is not advanced meanwhile.
pub proof fn law_break_countdown(remaining: nat, ticks: nat, state: TimerState)
    requires
        1 <= ticks <= remaining,
    ensures
        remaining_after_ticks(remaining, ticks) == remaining - ticks,
        tick_action(remaining_after_ticks(remaining, (ticks - 1) as nat), true, state)
            == (TickAction::CountBreak { hide_overlay: ticks == remaining }),
    decreases ticks,
{
    if ticks > 1 {
        law_break_countdown(remaining, (ticks - 1) as nat, state);
    }
}

/// Once the break is over, ticks no longer count it down, and the running timer
/// advances again.
pub proof fn law_break_over(remaining: nat, extra: nat)
    ensures
        remaining_after_ticks(remaining, remaining + extra) == 0,
        tick_action(0, true, TimerState::Play) == (TickAction::Refresh { advance_timer: true }),
    decreases extra,
{
    if extra > 0 {
        law_break_over(remaining, (extra - 1) as nat);
    } else if remaining > 0 {
        law_break_countdown(remaining, remaining, TimerState::Play);
    }
}

/// A running timer is never adjusted; otherwise "+5" and "-5" shift by opposite
/// amounts, and the reset comes first exactly when the timer has left its work time.
pub proof fn law_adjust(state: TimerState, current_time: u32, initial_work_seconds: u32)
    ensures
        state == TimerState::Play ==> adjust_plan(
            AdjustButton::Plus,
            state,
            current_time,
            initial_work_seconds,
        ) == AdjustPlan::Ignore && adjust_plan(
            AdjustButton::Minus,
            state,
            current_time,
            initial_work_seconds,
        ) == AdjustPlan::Ignore,
        offset_of(AdjustButton::Plus) + offset_of(AdjustButton::Minus) == 0,
        state != TimerState::Play ==> adjust_plan(
            AdjustButton::Plus,
            state,
            current_time,
            initial_work_seconds,
        ) == (AdjustPlan::Apply {
            reset_first: current_time != initial_work_seconds,
            offset: ADJUST_STEP_SECONDS,
        }),
{
}

/// Every tick that counts no break (the overlay is hidden, or no break second is
/// left) leaves the countdown as it is, redraws the display, and advances the timer
/// exactly when it is running, whether the overlay shows or not; a tick that counts
/// one takes exactly one second off and never advances the timer.
pub proof fn law_tick(remaining: nat, overlay_visible: bool, state: TimerState)
    ensures
        !(overlay_visible && remaining > 0) ==> remaining_after_tick(remaining, overlay_visible)
            == remaining && tick_action(remaining, overlay_visible, state) == (
        TickAction::Refresh { advance_timer: state == TimerState::Play }),
        !(overlay_visible && remaining > 0) && state == TimerState::Play ==> tick_action(
            remaining,
            overlay_visible,
            state,
        ) == (TickAction::Refresh { advance_timer: true }),
        !(overlay_visible && remaining > 0) && state != TimerState::Play ==> tick_action(
            remaining,
            overlay_visible,
            state,
        ) == (TickAction::Refresh { advance_timer: false }),
        overlay_visible && remaining > 0 ==> remaining_after_tick(remaining, overlay_visible) + 1
            == remaining && tick_action(remaining, overlay_visible, state) is CountBreak,
{
}

/// The break is the work time divided by five, rounded down, for every work time:
/// five breaks fit in the work period, six do not.
pub proof fn law_break_is_a_fifth(work_seconds: nat)
    ensures
        5 * break_length(work_seconds) <= work_seconds,
        work_seconds < 5 * (break_length(work_seconds) + 1),
{
}

/// For every timer that is not running, and for both buttons: the timer is first reset
/// exactly when its current time differs from its work time, and the shift is the
/// button's own, 300 seconds for "+5" and -300 seconds for "-5", whether or not a
/// reset comes first.
pub proof fn law_adjust_both_buttons(
    state: TimerState,
    current_time: u32,
    initial_work_seconds: u32,
)
    requires
        state != TimerState::Play,
    ensures
        adjust_plan(AdjustButton::Plus, state, current_time, initial_work_seconds) == (
        AdjustPlan::Apply { reset_first: current_time != initial_work_seconds, offset: 300i32 }),
        adjust_plan(AdjustButton::Minus, state, current_time, initial_work_seconds) == (
        AdjustPlan::Apply { reset_first: current_time != initial_work_seconds, offset: -300i32 }),
{
}

/// The play button: a running timer pauses and the button offers "Pomodoro!"; a
/// paused or finished one runs and the button offers "Pausar".
pub proof fn law_play_button()
    ensures
        toggled(TimerState::Play) == TimerState::Pause,
        toggled(TimerState::Pause) == TimerState::Play,
        toggled(TimerState::End) == TimerState::Play,
        play_label_text(label_for(TimerState::Pause)) == "Pomodoro!"@,
        play_label_text(label_for(TimerState::Play)) == "Pausar"@,
{
}

} // verus!
