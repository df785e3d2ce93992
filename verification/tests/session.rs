use pomodoro_mindfullness::session::{
    adjust_offset, break_video_muted, plan_adjust, toggle_play, AdjustButton, AdjustPlan,
    BreakCountdown, PlayButtonLabel, TickAction, TimerState, ADJUST_STEP_SECONDS,
};

#[test]
fn play_button_toggles() {
    assert_eq!(toggle_play(TimerState::Play), (TimerState::Pause, PlayButtonLabel::Start));
    assert_eq!(toggle_play(TimerState::Pause), (TimerState::Play, PlayButtonLabel::Pause));
    assert_eq!(toggle_play(TimerState::End), (TimerState::Play, PlayButtonLabel::Pause));
    let (s, _) = toggle_play(TimerState::Pause);
    assert_eq!(toggle_play(s).0, TimerState::Pause);
}

#[test]
fn play_labels_text() {
    assert_eq!(PlayButtonLabel::Start.text(), "Pomodoro!");
    assert_eq!(PlayButtonLabel::Pause.text(), "Pausar");
}

#[test]
fn tick_without_break_refreshes() {
    let mut c = BreakCountdown::new();
    assert_eq!(c.remaining, 0);
    assert_eq!(c.tick(true, TimerState::Play), TickAction::Refresh { advance_timer: true });
    assert_eq!(c.tick(false, TimerState::Pause), TickAction::Refresh { advance_timer: false });
    assert_eq!(c.tick(false, TimerState::End), TickAction::Refresh { advance_timer: false });
    assert_eq!(c.remaining, 0);
}

#[test]
fn break_is_a_fifth_of_work() {
    let mut c = BreakCountdown::new();
    assert_eq!(c.start_break(1500), PlayButtonLabel::Start);
    assert_eq!(c.remaining, 300);
    c.start_break(7);
    assert_eq!(c.remaining, 1);
    c.start_break(4);
    assert_eq!(c.remaining, 0);
}

#[test]
fn break_counts_down_and_hides_at_the_end() {
    let mut c = BreakCountdown::new();
    c.start_break(15);
    assert_eq!(c.remaining, 3);
    assert_eq!(c.tick(true, TimerState::Play), TickAction::CountBreak { hide_overlay: false });
    assert_eq!(c.tick(true, TimerState::Play), TickAction::CountBreak { hide_overlay: false });
    assert_eq!(c.tick(true, TimerState::Play), TickAction::CountBreak { hide_overlay: true });
    assert_eq!(c.remaining, 0);
    assert_eq!(c.tick(true, TimerState::Play), TickAction::Refresh { advance_timer: true });
}

#[test]
fn hidden_overlay_does_not_count() {
    let mut c = BreakCountdown::new();
    c.start_break(100);
    assert_eq!(c.tick(false, TimerState::Pause), TickAction::Refresh { advance_timer: false });
    assert_eq!(c.remaining, 20);
}

#[test]
fn adjust_offsets() {
    assert_eq!(ADJUST_STEP_SECONDS, 300);
    assert_eq!(adjust_offset(AdjustButton::Plus), 300);
    assert_eq!(adjust_offset(AdjustButton::Minus), -300);
}

#[test]
fn adjust_plans() {
    assert_eq!(plan_adjust(AdjustButton::Plus, TimerState::Play, 10, 1500), AdjustPlan::Ignore);
    assert_eq!(
        plan_adjust(AdjustButton::Plus, TimerState::Pause, 1500, 1500),
        AdjustPlan::Apply { reset_first: false, offset: 300 }
    );
    assert_eq!(
        plan_adjust(AdjustButton::Minus, TimerState::Pause, 1200, 1500),
        AdjustPlan::Apply { reset_first: true, offset: -300 }
    );
    assert_eq!(
        plan_adjust(AdjustButton::Minus, TimerState::End, 0, 1500),
        AdjustPlan::Apply { reset_first: true, offset: -300 }
    );
}

#[test]
fn video_muted_without_headphones() {
    assert!(break_video_muted(false));
    assert!(!break_video_muted(true));
}

#[test]
fn break_starts_only_when_the_advance_ends_work() {
    let mut c = BreakCountdown::new();
    assert_eq!(c.after_advance(TimerState::Play, 1500), None);
    assert_eq!(c.remaining, 0);
    assert_eq!(c.after_advance(TimerState::Pause, 1500), None);
    assert_eq!(c.remaining, 0);
    assert_eq!(c.after_advance(TimerState::End, 1500), Some(PlayButtonLabel::Start));
    assert_eq!(c.remaining, 300);
}
