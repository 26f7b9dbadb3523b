//! The hotkey table that the user configures.

pub mod order;
pub mod types;
