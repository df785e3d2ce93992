use vstd::prelude::*;

verus! {

/// The two texts of the brown noise button.
#[derive(Clone, Copy, Debug, PartialEq, Eq)]
pub enum BrownNoiseLabel {
    On,
    Off,
}

/// The style class added to the brown noise button on a toggle.
#[derive(Clone, Copy, Debug, PartialEq, Eq)]
pub enum BrownNoiseStyle {
    /// `brown-noise-button-on`, added when the noise is switched off.
    ButtonOn,
    /// `brown-noise-button-off`, added when the noise is switched on.
    ButtonOff,
}

/// The text of a brown noise button label.
pub open spec fn brown_label_text(label: BrownNoiseLabel) -> Seq<char> {
    match label {
        BrownNoiseLabel::On => "Brown Noise: On"@,
        BrownNoiseLabel::Off => "Brown Noise: Off"@,
    }
}

/// The name of a brown noise style class.
pub open spec fn brown_style_name(style: BrownNoiseStyle) -> Seq<char> {
    match style {
        BrownNoiseStyle::ButtonOn => "brown-noise-button-on"@,
        BrownNoiseStyle::ButtonOff => "brown-noise-button-off"@,
    }
}

impl BrownNoiseLabel {
    /// The text shown on the button.
    pub fn text(&self) -> (s: &'static str)
        ensures
            s@ == brown_label_text(*self),
    {
        match self {
            BrownNoiseLabel::On => "Brown Noise: On",
            BrownNoiseLabel::Off => "Brown Noise: Off",
        }
    }
}

impl BrownNoiseStyle {
    /// The name of the style class.
    pub fn name(&self) -> (s: &'static str)
        ensures
            s@ == brown_style_name(*self),
    {
        match self {
            BrownNoiseStyle::ButtonOn => "brown-noise-button-on",
            BrownNoiseStyle::ButtonOff => "brown-noise-button-off",
        }
    }
}

/// What the button shows and does after a toggle.
#[derive(Clone, Copy, Debug, PartialEq, Eq)]
pub struct BrownNoiseUpdate {
    pub label: BrownNoiseLabel,
    pub style: BrownNoiseStyle,
    /// Whether the saved brown noise volume is applied to the player.
    pub apply_saved_volume: bool,
}

/// The update for a toggle that leaves the noise playing (`now_playing`) or not.
pub open spec fn update_for(now_playing: bool) -> BrownNoiseUpdate {
    if now_playing {
        BrownNoiseUpdate {
            label: BrownNoiseLabel::On,
            style: BrownNoiseStyle::ButtonOff,
            apply_saved_volume: true,
        }
    } else {
        BrownNoiseUpdate {
            label: BrownNoiseLabel::Off,
            style: BrownNoiseStyle::ButtonOn,
            apply_saved_volume: false,
        }
    }
}

/// The switch after a click.
pub open spec fn flipped(s: BrownNoiseSwitch) -> BrownNoiseSwitch {
    BrownNoiseSwitch { playing: !s.playing }
}

/// Whether brown noise plays; it starts silent.
#[derive(Clone, Copy, Debug, PartialEq, Eq)]
pub struct BrownNoiseSwitch {
    pub playing: bool,
}

impl BrownNoiseSwitch {
    /// A silent switch, matching the button's first label "Brown Noise: Off".
    pub fn new() -> (s: BrownNoiseSwitch)
        ensures
            !s.playing,
    {
        BrownNoiseSwitch { playing: false }
    }

    /// The label of the button for the current state.
    pub fn label(&self) -> (label: BrownNoiseLabel)
        ensures
            label == update_for(self.playing).label,
    {
        if self.playing {
            BrownNoiseLabel::On
        } else {
            BrownNoiseLabel::Off
        }
    }

    /// A click on the brown noise button flips the switch (the caller also toggles the
    /// player) and says what the button shows and whether the saved volume is applied.
    pub fn toggle(&mut self) -> (update: BrownNoiseUpdate)
        ensures
            *final(self) == flipped(*old(self)),
            update == update_for(final(self).playing),
    {
        let was_playing = self.playing;
        self.playing = !was_playing;
        if was_playing {
            BrownNoiseUpdate {
                label: BrownNoiseLabel::Off,
                style: BrownNoiseStyle::ButtonOn,
                apply_saved_volume: false,
            }
        } else {
            BrownNoiseUpdate {
                label: BrownNoiseLabel::On,
                style: BrownNoiseStyle::ButtonOff,
                apply_saved_volume: true,
            }
        }
    }
}

/// Two clicks leave the switch as it was; after a click the label reads "On" exactly
/// when the noise plays, and the saved volume is applied exactly when the noise
/// starts.
pub proof fn law_brown_noise_toggle(s: BrownNoiseSwitch)
    ensures
        flipped(flipped(s)) == s,
        (update_for(flipped(s).playing).label == BrownNoiseLabel::On) == flipped(s).playing,
        update_for(flipped(s).playing).apply_saved_volume == (!s.playing && flipped(
            s,
        ).playing),
{
}

/// What a click shows: switching on, the label "Brown Noise: On", the style class
/// `brown-noise-button-off` and the saved volume applied; switching off, the label
/// "Brown Noise: Off", the style class `brown-noise-button-on` and no volume change.
pub proof fn law_brown_noise_update()
    ensures
        brown_label_text(update_for(true).label) == "Brown Noise: On"@,
        brown_style_name(update_for(true).style) == "brown-noise-button-off"@,
        update_for(true).apply_saved_volume,
        brown_label_text(update_for(false).label) == "Brown Noise: Off"@,
        brown_style_name(update_for(false).style) == "brown-noise-button-on"@,
        !update_for(false).apply_saved_volume,
{
}

} // verus!
