//! Wire formats of the game platforms.

pub mod label;
pub mod riichi_city;
pub mod tenhou;
