//! The settings that the planners read.

use vstd::prelude::*;

verus! {

/// The game client that is being played.
#[derive(Debug, Clone, Copy, PartialEq, Eq, Structural)]
pub enum Platform {
    Majsoul,
    Tenhou,
    RiichiCity,
}

/// Which policy decides how long to think.
#[derive(Debug, Clone, Copy, PartialEq, Eq, Structural)]
pub enum DelayMode {
    /// The human-timing model, or the user's own script.
    Model,
    /// A plain uniform pause.
    Legacy,
}

/// The shape of the random pause.
#[derive(Debug, Clone, Copy, PartialEq, Eq, Structural)]
pub enum DelayDistribution {
    LogNormal,
    Uniform,
}

/// Delay-model parameters.
#[derive(Debug, Clone, Copy, PartialEq, Eq, Structural)]
pub struct DelayModelConfig {
    pub mode: DelayMode,
    pub distribution: DelayDistribution,
    /// Ceiling for a decision whose time budget is not known.
    pub no_budget_cap_ms: u32,
}

impl Default for DelayModelConfig {
    fn default() -> (r: Self)
        ensures
            r.mode == DelayMode::Model,
            r.distribution == DelayDistribution::LogNormal,
            r.no_budget_cap_ms == 15_000,
    {
        DelayModelConfig {
            mode: DelayMode::Model,
            distribution: DelayDistribution::LogNormal,
            no_budget_cap_ms: 15_000,
        }
    }
}

/// Knobs of the click sequence.
#[derive(Debug, Clone, Copy, PartialEq, Eq, Structural)]
pub struct MajsoulAutoplayConfig {
    /// Gap between two inputs of one action.
    pub inter_click_delay_ms: u32,
}

} // verus!
