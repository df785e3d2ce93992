use pomodoro_mindfullness::brown_noise::{
    BrownNoiseLabel, BrownNoiseStyle, BrownNoiseSwitch, BrownNoiseUpdate,
};

#[test]
fn switch_starts_off() {
    let s = BrownNoiseSwitch::new();
    assert!(!s.playing);
    assert_eq!(s.label(), BrownNoiseLabel::Off);
    assert_eq!(s.label().text(), "Brown Noise: Off");
}

#[test]
fn first_click_turns_on_and_applies_volume() {
    let mut s = BrownNoiseSwitch::new();
    let u = s.toggle();
    assert!(s.playing);
    assert_eq!(
        u,
        BrownNoiseUpdate {
            label: BrownNoiseLabel::On,
            style: BrownNoiseStyle::ButtonOff,
            apply_saved_volume: true
        }
    );
    assert_eq!(u.label.text(), "Brown Noise: On");
    assert_eq!(u.style.name(), "brown-noise-button-off");
}

#[test]
fn second_click_turns_off() {
    let mut s = BrownNoiseSwitch::new();
    s.toggle();
    let u = s.toggle();
    assert_eq!(s, BrownNoiseSwitch::new());
    assert_eq!(u.label.text(), "Brown Noise: Off");
    assert_eq!(u.style.name(), "brown-noise-button-on");
    assert!(!u.apply_saved_volume);
}
