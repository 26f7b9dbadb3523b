//! From breath strength to simulated key and mouse input.

pub mod breath_input_sim;
pub mod held_buttons;
pub mod input_sim;
pub mod types;
