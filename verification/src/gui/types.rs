use crate::config::types::BreathDirection;
use crate::sim::types::Button;
use vstd::prelude::*;

verus! {

/// A modifier key that a hotkey can hold together with its button.
#[derive(Debug, Clone, Copy, PartialEq, Eq, Structural)]
pub enum HotkeyModifier {
    Shift,
    Ctrl,
    Meta,
    Alt,
}

/// A change that the user makes to one hotkey of the table.
#[derive(Debug, Clone, PartialEq, Eq)]
pub enum HotkeyChange {
    /// Another breath direction was picked.
    BreathDirectionChange(BreathDirection),
    /// Another button was picked.
    ButtonChange(Button),
    /// The text of the threshold field was edited; this is the new text.
    ThresholdChange(String),
    /// The modifier was switched on or off.
    ModifierToggle(HotkeyModifier),
    /// The hotkey was deleted.
    Delete,
}

} // verus!
