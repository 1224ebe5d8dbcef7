//! Turning a chosen action into steps, and the state that gates them.

pub mod clock;
pub mod delay;
pub mod inject;
pub mod menu;
pub mod platform;
pub mod riichi_city;
pub mod tenhou;
pub mod tenhou_state;
