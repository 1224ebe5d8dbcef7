//! The mjai events that a bridge produces and a bot answers with.

use vstd::prelude::*;

verus! {

/// One mjai event. Tiles are mjai labels (`1m`..`9s`, `E S W N P F C`, red
/// fives with a trailing `r`), seats are absolute.
#[derive(Debug, Clone, PartialEq, Eq)]
#[allow(inconsistent_fields)]
pub enum MjaiEvent {
    StartGame,
    StartKyoku,
    Tsumo { actor: u8, pai: String },
    Dahai { actor: u8, pai: String, tsumogiri: bool },
    Chi { actor: u8, target: u8, pai: String, consumed: [String; 2] },
    Pon { actor: u8, target: u8, pai: String, consumed: [String; 2] },
    Daiminkan { actor: u8, target: u8, pai: String, consumed: [String; 3] },
    Ankan { actor: u8, consumed: [String; 4] },
    Kakan { actor: u8, pai: String, consumed: [String; 3] },
    Kita { actor: u8, pai: Option<String> },
    Dora,
    /// A riichi declaration. `pai` is the tile to declare with, where the bot
    /// names it.
    Reach { actor: u8, pai: Option<String> },
    ReachAccepted { actor: u8 },
    /// A win. `actor == target` marks a win on the own draw.
    Hora { actor: u8, target: u8, deltas: Option<Vec<i32>>, ura_markers: Option<Vec<String>> },
    Ryukyoku { deltas: Option<Vec<i32>> },
    EndKyoku,
    EndGame,
    /// Decline what was offered (mjai `none`).
    Pass,
}

} // verus!
