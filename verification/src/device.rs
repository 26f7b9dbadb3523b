//! The breath sensor: protocol constants, events, and connection handling.

pub mod connection;
pub mod constants;
pub mod discovery;
pub mod reader;
pub mod types;
