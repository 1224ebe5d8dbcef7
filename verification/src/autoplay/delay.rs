//! What a delay policy is told about a decision.
//!
//! The policy itself is chance and floating point; what it is asked, and what
//! becomes of its answer, is decided by the planners.

use crate::config::{DelayModelConfig, MajsoulAutoplayConfig};
use vstd::prelude::*;

verus! {

/// The decisions a delay policy tells apart.
#[derive(Debug, Clone, Copy, PartialEq, Eq, Structural)]
pub enum DecisionKind {
    Dahai,
    Reach,
    Chi,
    Pon,
    Daiminkan,
    Ankan,
    Kakan,
    Hora,
    Ryukyoku,
    Kita,
    Pass,
}

/// The server's time budget for one decision.
#[derive(Debug, Clone, Copy, PartialEq, Eq, Structural)]
pub struct BudgetSnapshot {
    /// Allowance of this turn.
    pub fixed_ms: u32,
    /// Bank behind it.
    pub add_ms: u32,
    /// How much of it is spent.
    pub elapsed_ms: u32,
}

/// One decision, as a delay policy sees it.
#[derive(Debug, Clone, Copy, PartialEq, Eq)]
pub struct DelayInput<'a> {
    pub kind: DecisionKind,
    pub is_tsumogiri: bool,
    /// The discard follows a call, so nothing was drawn.
    pub is_post_call: bool,
    pub first_action_of_kyoku: bool,
    /// An opening animation has to finish first.
    pub opening_animation: bool,
    pub can_riichi: bool,
    pub in_riichi: bool,
    pub opponent_riichi: bool,
    /// The label of the tile a discard throws.
    pub discarded: Option<&'a str>,
    /// The number of our discard in this kyoku, zero where we are not seated.
    pub junme: u32,
    pub legal_action_count: usize,
    pub budget: Option<BudgetSnapshot>,
    /// Time the input itself takes.
    pub click_overhead_ms: u32,
    /// The knobs of the click sequence.
    pub cfg: &'a MajsoulAutoplayConfig,
    pub delay_cfg: DelayModelConfig,
    /// The user's script may decide.
    pub script_allowed: bool,
}

/// Whether the built-in policy has to be asked: the user's script may not
/// decide, or did not.
pub fn needs_built_in(input: &DelayInput, scripted: Option<u32>) -> (r: bool)
    ensures
        r == !(input.script_allowed && scripted is Some),
{
    !(input.script_allowed && scripted.is_some())
}

/// How long a decision is to take in all: what the user's script answers,
/// where it may decide and does, else what the built-in policy says.
pub fn total_target(input: &DelayInput, scripted: Option<u32>, built_in: u32) -> (r: u32)
    ensures
        r == if input.script_allowed && scripted is Some {
            scripted->0
        } else {
            built_in
        },
{
    match scripted {
        Some(target) if input.script_allowed => target,
        _ => built_in,
    }
}

} // verus!
