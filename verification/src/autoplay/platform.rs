//! Platform-agnostic autoplay surface.
//!
//! [`PlatformAutoplay`] is the only thing a manager has to know about: one
//! implementation per game client, all of them handing back steps.

use crate::autoplay::delay::BudgetSnapshot;
use crate::autoplay::tenhou_state::TenhouState;
use crate::config::{DelayModelConfig, MajsoulAutoplayConfig};
use crate::game_state::{GameStateSnapshot, LegalAction};
use crate::schema::MjaiEvent;
use vstd::prelude::*;

verus! {

/// One step in the sequence the manager will execute. Clicks at a point of
/// the canvas are the application's own: no planner here addresses a
/// position.
#[derive(Debug, Clone, PartialEq, Eq)]
pub enum Step {
    /// Pause for `duration_ms` before the next step. Used for the
    /// pre-click "thinking" delay and the inter-click gap inside one
    /// action.
    Sleep { duration_ms: u32 },
    /// Click the first DOM element the page has out of `selectors`.
    ///
    /// Tenhou wires its own action buttons through a document-level click
    /// listener keyed on `name="c<handler>-<arg>"`, so dispatching a real
    /// click on one runs the client's own handler — the action is performed
    /// exactly as if the user had pressed it, with none of the coordinate
    /// guessing a canvas needs. `label` is for logs only.
    ///
    /// A list, because some actions are offered under more than one slot and
    /// which ones exist depends on the hand: the pon that keeps a red five
    /// out of the meld is only drawn when there is a red five to keep. The
    /// order is the caller's preference, not the document's.
    DomClick { selectors: Vec<String>, label: String },
    /// Block until the client is ready to take input, then continue.
    ///
    /// Frame arrival is not the start of the turn. Tenhou's server can send
    /// several seats' actions at once — against millisecond-fast opponents it
    /// routinely does — while the client spends seconds animating them, and
    /// only then draws the buttons and starts its clock. Everything timed
    /// from frame arrival is timed from the wrong instant.
    AwaitReady { timeout_ms: u32 },
    /// Discard the tile with this Tenhou index (`0..=135`) through the
    /// client's own handler.
    ///
    /// Not a position: the client's discard entry point is addressed by tile,
    /// so it resolves the rest itself — including where the tile currently
    /// sits, which is why calls moving the hand cannot affect this.
    Discard { tile_index: u32 },
    /// Transmit a pre-built wire frame to the game server through the
    /// proxy's injection channel (Riichi City: no browser page exists to
    /// click, so the action goes out as the client's own protocol frame).
    SendFrame(Vec<u8>),
}

/// What a [`Step`] says, as mathematics.
pub enum StepView {
    Sleep { duration_ms: u32 },
    DomClick { selectors: Seq<Seq<char>>, label: Seq<char> },
    AwaitReady { timeout_ms: u32 },
    Discard { tile_index: u32 },
    SendFrame(Seq<u8>),
}

/// The texts of a list of strings.
pub open spec fn texts(list: Seq<String>) -> Seq<Seq<char>> {
    list.map_values(|s: String| s@)
}

impl View for Step {
    type V = StepView;

    open spec fn view(&self) -> StepView {
        match self {
            Step::Sleep { duration_ms } => StepView::Sleep { duration_ms: *duration_ms },
            Step::DomClick { selectors, label } => StepView::DomClick {
                selectors: texts(selectors@),
                label: label@,
            },
            Step::AwaitReady { timeout_ms } => StepView::AwaitReady { timeout_ms: *timeout_ms },
            Step::Discard { tile_index } => StepView::Discard { tile_index: *tile_index },
            Step::SendFrame(bytes) => StepView::SendFrame(bytes@),
        }
    }
}

/// Everything a platform needs to turn one bot decision into steps.
pub struct ActionContext<'a> {
    /// The bot's chosen action.
    pub action: &'a MjaiEvent,
    /// Live game state from the riichi engine.
    pub snapshot: &'a GameStateSnapshot,
    /// Currently legal actions for `our_seat`, from the riichi engine.
    pub legal_actions: &'a [LegalAction],
    /// Bot's seat.
    pub our_seat: u8,
    /// The most recent tile any seat discarded.
    pub last_kawa_tile: Option<&'a str>,
    /// The tile we drew this turn, if any.
    pub last_self_tsumo: Option<&'a str>,
    /// True from the moment the server confirms our riichi until the
    /// kyoku ends. While set, discards are left to the client.
    pub self_riichi_accepted: bool,
    /// 3 (sanma) or 4 (yonma).
    pub num_players: u8,
    /// Per-platform config knobs.
    pub cfg: &'a MajsoulAutoplayConfig,
    /// Delay-model parameters.
    pub delay_cfg: DelayModelConfig,
    /// Server time budget for the current decision window, if known.
    pub budget: Option<BudgetSnapshot>,
    /// How long the delay policy wants this decision to take in all. What it
    /// is asked is the planner's to say; a planner that asks nothing ignores
    /// this.
    pub think_ms: u32,
    /// Tenhou only: the bridge's hand at Tenhou tile-index resolution plus
    /// the current decision window. `None` on other platforms, and on
    /// Tenhou before the first parsed frame.
    pub tenhou: Option<&'a TenhouState>,
}

/// Output of [`PlatformAutoplay::plan`]: the steps to execute.
///
/// The riichi declaring discard is always resolved before the plan is
/// built, so a platform declares and discards in a single plan.
#[derive(Debug, Clone, PartialEq, Eq)]
pub struct PlanResult {
    pub steps: Vec<Step>,
}

/// What a list of steps says.
pub open spec fn steps_view(steps: Seq<Step>) -> Seq<StepView> {
    steps.map_values(|s: Step| s@)
}

impl View for PlanResult {
    type V = Seq<StepView>;

    open spec fn view(&self) -> Seq<StepView> {
        steps_view(self.steps@)
    }
}

impl Default for PlanResult {
    fn default() -> (r: Self)
        ensures
            r@ == Seq::<StepView>::empty(),
            r.steps@ == Seq::<Step>::empty(),
    {
        PlanResult { steps: Vec::new() }
    }
}

/// A game client that autoplay can drive.
pub trait PlatformAutoplay: Send + Sync {
    /// Translate the bot's action into steps. Pure: must not perform I/O.
    fn plan(&self, ctx: &ActionContext) -> PlanResult;
}

/// A list of strings is seen text by text.
pub proof fn law_texts_are_seen_one_by_one(list: Seq<String>)
    ensures
        texts(list).len() == list.len(),
        forall|i: int| 0 <= i < list.len() ==> #[trigger] texts(list)[i] == list[i]@,
{
}

/// A step is seen as what it is, with all that it carries.
pub proof fn law_a_step_is_seen_as_it_is(step: Step)
    ensures
        match step {
            Step::Sleep { duration_ms } => step@ matches StepView::Sleep { duration_ms: seen }
                && seen == duration_ms,
            Step::DomClick { selectors, label } => step@ matches StepView::DomClick {
                selectors: seen,
                label: named,
            } && named == label@ && seen.len() == selectors@.len() && forall|i: int|
                0 <= i < seen.len() ==> #[trigger] seen[i] == selectors@[i]@,
            Step::AwaitReady { timeout_ms } => step@ matches StepView::AwaitReady {
                timeout_ms: seen,
            } && seen == timeout_ms,
            Step::Discard { tile_index } => step@ matches StepView::Discard { tile_index: seen }
                && seen == tile_index,
            Step::SendFrame(bytes) => step@ matches StepView::SendFrame(seen) && seen == bytes@,
        },
{
}

/// A plan is seen step by step, all of it, in order.
pub proof fn law_a_plan_is_seen_step_by_step(plan: PlanResult)
    ensures
        plan@.len() == plan.steps@.len(),
        forall|i: int| 0 <= i < plan.steps@.len() ==> #[trigger] plan@[i] == plan.steps@[i]@,
        plan@ == steps_view(plan.steps@),
{
}

} // verus!
