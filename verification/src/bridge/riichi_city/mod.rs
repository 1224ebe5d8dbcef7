//! Riichi City: JSON inside a 15-byte binary header.

pub mod consts;
pub mod packet;
