//! What the configuration window does to the hotkey table, and what it shows
//! of the sensor.

pub mod edit;
pub mod link;
pub mod status;
pub mod types;
