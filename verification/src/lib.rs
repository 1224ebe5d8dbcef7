//! Protocol and planning core of a mahjong assistant.
//!
//! - [`bridge`] speaks the wire formats of the game platforms: tile labels,
//!   client frames and packet framing.
//! - [`autoplay`] turns one chosen action into the steps that perform it, and
//!   keeps the bookkeeping that decides when it may be performed.
//!
//! Sockets, pages, timers and the sharing of state between tasks belong to the
//! application around the library.

pub mod text;
pub mod autoplay;
pub mod bridge;
pub mod config;
pub mod game_state;
pub mod schema;
