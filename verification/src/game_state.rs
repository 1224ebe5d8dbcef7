//! What the riichi engine tells the planners about the table.

use vstd::prelude::*;

verus! {

/// The kinds of action the engine can find legal.
#[derive(Debug, Clone, Copy, PartialEq, Eq, Structural)]
pub enum ActionType {
    Discard,
    Chi,
    Pon,
    Daiminkan,
    Ron,
    Riichi,
    Tsumo,
    Pass,
    Ankan,
    Kakan,
    KyushuKyuhai,
    Kita,
}

/// One legal action.
#[derive(Debug, Clone, Copy, PartialEq, Eq, Structural)]
pub struct LegalAction {
    pub action_type: ActionType,
}

/// One seat of the table.
#[derive(Debug, Clone, PartialEq, Eq)]
pub struct PlayerSnapshot {
    pub seat: u8,
    pub riichi_declared: bool,
    /// What the seat has discarded, in order.
    pub river: Vec<String>,
}

/// The table as the engine sees it.
#[derive(Debug, Clone, PartialEq, Eq)]
pub struct GameStateSnapshot {
    /// The seats, in seat order.
    pub players: Vec<PlayerSnapshot>,
}

} // verus!
