//! Called melds.

use vstd::prelude::*;

verus! {

/// What kind of call a meld is.
#[derive(Debug, Clone, Copy, PartialEq, Eq, Structural)]
pub enum MeldKind {
    Chi,
    Pon,
    Daiminkan,
    Ankan,
    Kakan,
    Kita,
}

/// One called meld.
#[derive(Debug, Clone, PartialEq, Eq)]
pub struct Meld {
    pub kind: MeldKind,
    /// Whom the tile was called from, relative to the caller.
    pub target_rel: u32,
    /// The meld's tiles as Tenhou indices.
    pub tiles: Vec<u32>,
    /// The copy of a called set that stays out of it, where there is one.
    pub unused: Option<u32>,
    /// Which of the meld's tiles was called, where it matters.
    pub r: Option<u32>,
}

} // verus!
