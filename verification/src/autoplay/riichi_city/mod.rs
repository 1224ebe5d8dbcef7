//! Riichi City autoplay.

pub mod round_advance;
