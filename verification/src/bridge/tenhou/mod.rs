//! Tenhou: plain JSON over WebSocket, tiles addressed by physical copy.

pub mod encode;
pub mod meld;
pub mod tile;
