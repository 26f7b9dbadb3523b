use crate::config::order::{sort_hotkeys_by, sorted_hotkeys, HotkeyOrder};
use crate::sim::types::Button;
use vstd::prelude::*;

verus! {

/// The direction of breath that triggers a hotkey.
#[derive(Debug, Clone, Copy, PartialEq, Eq, Structural)]
pub enum BreathDirection {
    /// Blowing into the tube.
    Puff,
    /// Sucking on the tube.
    Sip,
}

impl BreathDirection {
    /// Both directions, in the order of the enumeration.
    pub open spec fn all_directions() -> Seq<BreathDirection> {
        seq![BreathDirection::Puff, BreathDirection::Sip]
    }

    /// The text under which this direction is shown.
    pub open spec fn label_text(self) -> Seq<char> {
        match self {
            BreathDirection::Puff => "Puff"@,
            BreathDirection::Sip => "Sip"@,
        }
    }

    /// Both directions, in the order of the enumeration.
    pub fn all() -> (directions: Vec<BreathDirection>)
        ensures
            directions@ == BreathDirection::all_directions(),
    {
        vec![BreathDirection::Puff, BreathDirection::Sip]
    }

    /// The text under which this direction is shown.
    pub fn label(&self) -> (text: &'static str)
        ensures
            text@ == self.label_text(),
    {
        match self {
            BreathDirection::Puff => "Puff",
            BreathDirection::Sip => "Sip",
        }
    }
}

/// One hotkey: while the breath in `breath_direction` is at least `threshold`
/// percent strong, `button` is held together with the chosen modifier keys.
/// A hotkey without a threshold never triggers.
#[derive(Debug, Copy, Clone, PartialEq, Eq, Structural)]
pub struct HotkeyConfig {
    pub breath_direction: BreathDirection,
    pub threshold: Option<i8>,
    pub modifier_shift: bool,
    pub modifier_ctrl: bool,
    pub modifier_meta: bool,
    pub modifier_alt: bool,
    pub button: Button,
}

/// The hotkey table.
#[derive(Debug, Clone, PartialEq, Eq)]
pub struct Config {
    pub hotkeys: Vec<HotkeyConfig>,
}

impl Config {
    /// The hotkeys of a new table: sipping at 30 percent or more holds the
    /// right mouse button, puffing at 30 percent or more the left one.
    pub open spec fn default_hotkeys() -> Seq<HotkeyConfig> {
        seq![
            HotkeyConfig {
                breath_direction: BreathDirection::Sip,
                threshold: Some(30i8),
                modifier_shift: false,
                modifier_ctrl: false,
                modifier_meta: false,
                modifier_alt: false,
                button: Button::MouseRight,
            },
            HotkeyConfig {
                breath_direction: BreathDirection::Puff,
                threshold: Some(30i8),
                modifier_shift: false,
                modifier_ctrl: false,
                modifier_meta: false,
                modifier_alt: false,
                button: Button::MouseLeft,
            },
        ]
    }

    /// Puts the hotkeys in the order in which the table is shown and stored:
    /// sip before puff, and within a direction the weaker threshold first,
    /// hotkeys without a threshold last. Hotkeys of the same direction and
    /// threshold stay in the order in which they stand.
    pub fn sort_hotkeys(&mut self)
        ensures
            final(self).hotkeys@ == sorted_hotkeys(old(self).hotkeys@, HotkeyOrder::Listing),
    {
        sort_hotkeys_by(&mut self.hotkeys, HotkeyOrder::Listing);
    }
}

impl Default for Config {
    fn default() -> (config: Config)
        ensures
            config.hotkeys@ == Config::default_hotkeys(),
    {
        let hotkeys = vec![
            HotkeyConfig {
                breath_direction: BreathDirection::Sip,
                threshold: Some(30),
                modifier_shift: false,
                modifier_ctrl: false,
                modifier_meta: false,
                modifier_alt: false,
                button: Button::MouseRight,
            },
            HotkeyConfig {
                breath_direction: BreathDirection::Puff,
                threshold: Some(30),
                modifier_shift: false,
                modifier_ctrl: false,
                modifier_meta: false,
                modifier_alt: false,
                button: Button::MouseLeft,
            },
        ];
        Config { hotkeys }
    }
}

} // verus!
