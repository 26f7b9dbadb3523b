//! Breath-controlled hotkeys: the connection manager for the breath sensor and
//! the pipeline that turns breath strength into held keys and mouse buttons.

pub mod config;
pub mod device;
pub mod error;
pub mod gui;
pub mod sim;
