//! Tenhou autoplay: drive the client's own input path.
//!
//! Writing frames onto the socket behind the client's back does not work: its
//! receive path deliberately ignores the server's echo of *our* discard
//! (`1==U.a && "D"==c.tag || Nb.cb(c)`) because its own handler already
//! applied it locally. Bypass that handler and the board freezes from the
//! first discard on, while the server plays the hand out without it.
//!
//! So actions are performed the way the user performs them:
//!
//! - **Buttons** — chi, pon, kan, riichi, ron, tsumo, kyuushu, kita and pass
//!   are DOM elements the client routes through a body-level click listener
//!   keyed on `name="c22-<slot>"`. A dispatched click runs the client's own
//!   handler, so nothing can drift. No coordinates involved. See [`buttons`].
//! - **Discard** — no DOM element exists for it, but it needs no position
//!   either: the client's own discard handler takes a tile *index*, and
//!   [`inject`] rewrites the client script in flight so that handler is
//!   reachable.
//!
//! What is *kept* is the delay model. Acting the instant the bot answers is
//! the most obvious tell there is, so a human-timing policy is asked how long
//! to think ([`delay_request`]) and its answer is waited out. Tenhou never
//! states its per-turn allowance on the wire, but it has one and enforces it
//! by auto-discarding, so the lobby's standard clock is fed in as the budget —
//! see `tenhou_state::TURN_BASE_MS`.
//!
//! # Guards
//!
//! Every action is gated on a decision window the bridge saw open for our seat
//! (`tenhou_state::DecisionWindow`), so a decision that resolved while we were
//! still "thinking" cannot be answered late into the next one. Buttons carry a
//! second, independent guard for free: if the client is no longer offering
//! one, the selector matches nothing and the click is reported as skipped
//! rather than landing somewhere else.

use crate::autoplay::delay::{BudgetSnapshot, DecisionKind, DelayInput};
use crate::autoplay::menu;
use crate::autoplay::platform::{
    self, ActionContext, PlanResult, PlatformAutoplay, Step, StepView,
};
use crate::autoplay::tenhou_state::{self, TenhouState};
use crate::bridge::tenhou::encode;
use crate::config::{DelayDistribution, DelayMode, DelayModelConfig};
use crate::game_state::{ActionType, GameStateSnapshot, LegalAction, PlayerSnapshot};
use crate::schema::MjaiEvent;
use vstd::prelude::*;

pub mod buttons;
pub mod inject;

verus! {

/// How long to wait for the client to finish animating and raise its clock.
///
/// Generous because the animation is the *server's* pace, not ours: against
/// instant opponents Tenhou delivers three seats' actions together and the
/// client plays them out over seconds. Overshooting costs a skipped turn;
/// undershooting costs every turn.
pub const READY_TIMEOUT_MS: u32 = 8_000;

/// The Tenhou planner. It keeps no state of its own.
#[derive(Debug, Clone, Copy, PartialEq, Eq, Structural)]
pub struct TenhouAutoplay;

impl TenhouAutoplay {
    pub fn new() -> (r: Self)
        ensures
            r == TenhouAutoplay,
    {
        TenhouAutoplay
    }
}

impl Default for TenhouAutoplay {
    fn default() -> (r: Self)
        ensures
            r == TenhouAutoplay,
    {
        TenhouAutoplay::new()
    }
}

/// What kind of decision an action is, where it is ours to perform.
pub open spec fn kind_of(action: MjaiEvent) -> Option<DecisionKind> {
    match action {
        MjaiEvent::Dahai { .. } => Some(DecisionKind::Dahai),
        MjaiEvent::Reach { .. } => Some(DecisionKind::Reach),
        MjaiEvent::Chi { .. } => Some(DecisionKind::Chi),
        MjaiEvent::Pon { .. } => Some(DecisionKind::Pon),
        MjaiEvent::Daiminkan { .. } => Some(DecisionKind::Daiminkan),
        MjaiEvent::Ankan { .. } => Some(DecisionKind::Ankan),
        MjaiEvent::Kakan { .. } => Some(DecisionKind::Kakan),
        MjaiEvent::Hora { .. } => Some(DecisionKind::Hora),
        MjaiEvent::Ryukyoku { .. } => Some(DecisionKind::Ryukyoku),
        MjaiEvent::Kita { .. } => Some(DecisionKind::Kita),
        MjaiEvent::Pass => Some(DecisionKind::Pass),
        _ => None,
    }
}

/// The click that performs an action, where a button does.
pub open spec fn click_of(action: MjaiEvent, state: TenhouState, in_riichi: bool) -> Option<
    StepView,
> {
    match buttons::slots_of(action, state.hand@, state.melds@, in_riichi) {
        Some(slots) => Some(
            StepView::DomClick {
                selectors: buttons::selectors_of(slots),
                label: buttons::button_label(action),
            },
        ),
        None => None,
    }
}

/// The input that performs an action in an open window, and the tile that has
/// to follow a riichi declaration. `None` where nothing is to be done.
pub open spec fn input_of(
    action: MjaiEvent,
    state: TenhouState,
    ops: u32,
    in_riichi: bool,
) -> Option<(StepView, Option<u32>)> {
    match action {
        MjaiEvent::Dahai { pai, tsumogiri, .. } => if in_riichi {
            None
        } else {
            match encode::discard_index(state.hand@, state.is_tsumo, pai@, tsumogiri) {
                Some(tile_index) => Some((StepView::Discard { tile_index }, None)),
                None => None,
            }
        },
        MjaiEvent::Reach { pai: Some(tile), .. } => match (
            encode::discard_index(state.hand@, state.is_tsumo, tile@, true),
            click_of(action, state, in_riichi),
        ) {
            (Some(tile_index), Some(click)) => Some((click, Some(tile_index))),
            _ => None,
        },
        MjaiEvent::Reach { pai: None, .. } => None,
        MjaiEvent::Pass => if tenhou_state::offers_claim_on_discard(ops) {
            match click_of(action, state, in_riichi) {
                Some(click) => Some((click, None)),
                None => None,
            }
        } else {
            None
        },
        _ => match click_of(action, state, in_riichi) {
            Some(click) => Some((click, None)),
            None => None,
        },
    }
}

/// The input a context asks for, where its window is open.
pub open spec fn performed(ctx: ActionContext) -> Option<(StepView, Option<u32>)> {
    match ctx.tenhou {
        Some(state) => match state.window {
            Some(window) => input_of(
                *ctx.action,
                *state,
                window.ops,
                ctx.self_riichi_accepted,
            ),
            None => None,
        },
        None => None,
    }
}

/// Why nothing is done about an action.
#[derive(Debug, Clone, Copy, PartialEq, Eq, Structural)]
pub enum SkipReason {
    /// The bridge has not published a state yet.
    NoState,
    /// No decision window is open for our seat.
    NoWindow,
    /// The event is not ours to perform.
    NotADecision,
    /// Riichi is accepted, so the client discards for itself.
    RiichiAccepted,
    /// The window offers nothing that can be declined.
    NothingToDecline,
    /// The bot declared riichi without naming the discard.
    RiichiWithoutTile,
    /// The tile to declare riichi with is not in the tracked hand.
    RiichiTileNotHeld,
    /// The tile to discard is not in the tracked hand.
    DiscardNotHeld,
    /// No button performs the action.
    NoButton,
}

/// Why nothing is done in a context; `None` where something is.
pub open spec fn skip_of(ctx: ActionContext) -> Option<SkipReason> {
    if ctx.tenhou is None {
        Some(SkipReason::NoState)
    } else if ctx.tenhou->0.window is None {
        Some(SkipReason::NoWindow)
    } else if kind_of(*ctx.action) is None {
        Some(SkipReason::NotADecision)
    } else if performed(ctx) is Some {
        None
    } else {
        Some(
            match *ctx.action {
                MjaiEvent::Dahai { .. } => if ctx.self_riichi_accepted {
                    SkipReason::RiichiAccepted
                } else {
                    SkipReason::DiscardNotHeld
                },
                MjaiEvent::Pass => SkipReason::NothingToDecline,
                MjaiEvent::Reach { pai: Some(_), .. } => SkipReason::RiichiTileNotHeld,
                MjaiEvent::Reach { pai: None, .. } => SkipReason::RiichiWithoutTile,
                _ => SkipReason::NoButton,
            },
        )
    }
}

/// A pause, where there is anything to wait for.
pub open spec fn pause(ms: u32) -> Seq<StepView> {
    if ms > 0 {
        seq![StepView::Sleep { duration_ms: ms }]
    } else {
        seq![]
    }
}

/// The plan for a context: wait for the client, think, act, and complete a
/// riichi with its tile.
pub open spec fn planned(ctx: ActionContext) -> Seq<StepView> {
    match performed(ctx) {
        Some((input, riichi_tile)) => {
            let declared = seq![StepView::AwaitReady { timeout_ms: READY_TIMEOUT_MS }] + pause(
                ctx.think_ms,
            ) + seq![input];
            match riichi_tile {
                Some(tile_index) => declared + seq![
                    StepView::Sleep { duration_ms: ctx.cfg.inter_click_delay_ms },
                    StepView::Discard { tile_index },
                ],
                None => declared,
            }
        },
        None => seq![],
    }
}

/// Map the bot's action onto the delay model's decision taxonomy. `None` for
/// events that are not ours to perform.
pub fn decision_kind(action: &MjaiEvent) -> (r: Option<DecisionKind>)
    ensures
        r == kind_of(*action),
{
    match action {
        MjaiEvent::Dahai { .. } => Some(DecisionKind::Dahai),
        MjaiEvent::Reach { .. } => Some(DecisionKind::Reach),
        MjaiEvent::Chi { .. } => Some(DecisionKind::Chi),
        MjaiEvent::Pon { .. } => Some(DecisionKind::Pon),
        MjaiEvent::Daiminkan { .. } => Some(DecisionKind::Daiminkan),
        MjaiEvent::Ankan { .. } => Some(DecisionKind::Ankan),
        MjaiEvent::Kakan { .. } => Some(DecisionKind::Kakan),
        MjaiEvent::Hora { .. } => Some(DecisionKind::Hora),
        MjaiEvent::Ryukyoku { .. } => Some(DecisionKind::Ryukyoku),
        MjaiEvent::Kita { .. } => Some(DecisionKind::Kita),
        MjaiEvent::Pass => Some(DecisionKind::Pass),
        _ => None,
    }
}

/// Resolve the mjai tile the bot named to the physical copy we hold, reusing
/// the encoder's red-aware, drawn-tile-aware lookup — the index is also the
/// tedashi/tsumogiri display, so the same copy the encoder would name must
/// be the one handed to the client.
pub fn tile_index_for(state: &TenhouState, pai: &str, tsumogiri: bool) -> (r: Option<u32>)
    ensures
        r == encode::discard_index(state.hand@, state.is_tsumo, pai@, tsumogiri),
{
    encode::dahai_index(state.hand_view(), pai, tsumogiri)
}

/// Push the pre-send "thinking" pause.
///
/// The model's target is a *total* for the window, and here the window starts
/// when the client does — [`Step::AwaitReady`] has already waited out the
/// animation — so the target is the sleep with nothing to deduct.
pub fn push_pre_delay(steps: &mut Vec<Step>, total_target_ms: u32)
    ensures
        platform::steps_view(final(steps)@) == platform::steps_view(old(steps)@) + pause(
            total_target_ms,
        ),
{
    if total_target_ms > 0 {
        steps.push(Step::Sleep { duration_ms: total_target_ms });
    }
    assert(platform::steps_view(steps@) =~= platform::steps_view(old(steps)@) + pause(
        total_target_ms,
    ));
}

/// The input that performs the action of `ctx`, and the tile that completes a
/// riichi, or why nothing is to be done.
fn resolve(ctx: &ActionContext) -> (r: Result<(Step, Option<u32>), SkipReason>)
    ensures
        match r {
            Ok((step, riichi_tile)) => performed(*ctx) == Some((step@, riichi_tile)) && skip_of(
                *ctx,
            ) is None,
            Err(reason) => performed(*ctx) is None && skip_of(*ctx) == Some(reason),
        },
{
    let state: &TenhouState = match ctx.tenhou {
        Some(state) => state,
        None => {
            return Err(SkipReason::NoState);
        },
    };
    // A window the bridge never saw open is a window the client is no
    // longer accepting input for. Also the staleness guard: our own
    // discard, or anyone else's action, closes it.
    let window = match state.window {
        Some(window) => window,
        None => {
            return Err(SkipReason::NoWindow);
        },
    };
    let kind = match decision_kind(ctx.action) {
        Some(kind) => kind,
        None => {
            return Err(SkipReason::NotADecision);
        },
    };
    // Once riichi is accepted the client discards for itself, so ours
    // would be a second one. Claims that survive riichi (ankan, hora) are
    // still ours. The riichi tile arrives before acceptance and so is
    // unaffected.
    if kind == DecisionKind::Dahai && ctx.self_riichi_accepted {
        return Err(SkipReason::RiichiAccepted);
    }
    // Declining needs a claim on someone else's discard. Declining an
    // own-turn offer — tsumo agari, riichi, 九種九牌 — is just
    // discarding, and the client draws no pass button for it.
    if kind == DecisionKind::Pass && !window.has_declinable_claim() {
        return Err(SkipReason::NothingToDecline);
    }
    // A riichi is a declaration *and* a discard, and Tenhou will not
    // take one without the other: press the button alone and the client
    // sits on its clock, then completes the riichi *itself* by throwing
    // the drawn tile at expiry. So the tile is resolved before anything
    // is pressed, and a riichi whose discard cannot be performed — a bot
    // that names no tile, or a tracked hand that has lost the named one —
    // skips the declaration whole. Not declaring costs this turn's riichi;
    // a blind declaration commits the hand to a wait the bot never chose.
    let reach_tile: Option<u32> = match ctx.action {
        MjaiEvent::Reach { pai: Some(tile), .. } => match tile_index_for(
            state,
            tile.as_str(),
            true,
        ) {
            Some(index) => Some(index),
            None => {
                return Err(SkipReason::RiichiTileNotHeld);
            },
        },
        MjaiEvent::Reach { pai: None, .. } => {
            return Err(SkipReason::RiichiWithoutTile);
        },
        _ => None,
    };
    match ctx.action {
        // The one action with no button behind it — but still not a
        // position: the client's discard handler is addressed by tile
        // index, which the encoder already resolves. The tsumogiri
        // flag rides along because the index is also the display:
        // throwing the drawn copy is what *makes* it a tsumogiri.
        MjaiEvent::Dahai { pai, tsumogiri, .. } => match tile_index_for(
            state,
            pai.as_str(),
            *tsumogiri,
        ) {
            Some(tile_index) => Ok((Step::Discard { tile_index }, reach_tile)),
            None => Err(SkipReason::DiscardNotHeld),
        },
        other => match buttons::button_for(other, state, ctx.self_riichi_accepted) {
            Some((selectors, label)) => Ok((Step::DomClick { selectors, label }, reach_tile)),
            None => Err(SkipReason::NoButton),
        },
    }
}

/// Why the plan for `ctx` is empty; `None` where it is not.
pub fn skip_reason(ctx: &ActionContext) -> (r: Option<SkipReason>)
    ensures
        r == skip_of(*ctx),
{
    match resolve(ctx) {
        Ok(_) => None,
        Err(reason) => Some(reason),
    }
}

impl PlatformAutoplay for TenhouAutoplay {
    fn plan(&self, ctx: &ActionContext) -> (r: PlanResult)
        ensures
            r@ == planned(*ctx),
    {
        let mut result = PlanResult::default();
        let (step, reach_tile) = match resolve(ctx) {
            Ok(resolved) => resolved,
            Err(_) => {
                return result;
            },
        };
        // Wait for the client before thinking, not after: the delay is meant
        // to look like a human deciding, and a human cannot decide before the
        // board has finished moving. This wait precedes the reach button, when
        // the client's clock is still up; the riichi tile that follows the
        // press (below) does not wait again — the declaration takes the clock
        // down and nothing raises it before the tile goes out in the same
        // plan.
        result.steps.push(Step::AwaitReady { timeout_ms: READY_TIMEOUT_MS });
        assert(result@ =~= seq![StepView::AwaitReady { timeout_ms: READY_TIMEOUT_MS }]);
        push_pre_delay(&mut result.steps, ctx.think_ms);
        let ghost waited = result@;
        let ghost input = step@;
        result.steps.push(step);
        assert(result@ =~= waited + seq![input]);
        // The declaration went out above; the tile the bot named on the
        // reach completes it in the same plan — nothing else is coming to
        // provide the second half.
        if let Some(tile_index) = reach_tile {
            let ghost declared = result@;
            // Let the client finish taking the declaration before handing
            // it the tile.
            result.steps.push(Step::Sleep { duration_ms: ctx.cfg.inter_click_delay_ms });
            result.steps.push(Step::Discard { tile_index });
            assert(result@ =~= declared + seq![
                StepView::Sleep { duration_ms: ctx.cfg.inter_click_delay_ms },
                StepView::Discard { tile_index },
            ]);
        }
        result
    }
}

/// Whether another seat has declared riichi.
pub open spec fn opponent_in_riichi(players: Seq<PlayerSnapshot>, our_seat: u8) -> bool {
    exists|i: int|
        0 <= i < players.len() && (#[trigger] players[i]).seat != our_seat
            && players[i].riichi_declared
}

/// Whether riichi is among the legal actions.
pub open spec fn riichi_is_legal(legal: Seq<LegalAction>) -> bool {
    exists|i: int|
        0 <= i < legal.len() && (#[trigger] legal[i]).action_type == ActionType::Riichi
}

/// The number of our next discard, in 32 bits; zero where we are not seated.
pub open spec fn next_discard_number(players: Seq<PlayerSnapshot>, our_seat: u8) -> nat {
    if our_seat < players.len() {
        (players[our_seat as int].river@.len() + 1) % 0x1_0000_0000
    } else {
        0
    }
}

/// The delay parameters in force: the legacy mode knows the uniform pause
/// only.
pub open spec fn delay_cfg_in_force(cfg: DelayModelConfig) -> DelayModelConfig {
    if cfg.mode == DelayMode::Legacy {
        DelayModelConfig { distribution: DelayDistribution::Uniform, ..cfg }
    } else {
        cfg
    }
}

/// Whether `input` is what a delay policy has to be told about the decision
/// `kind` in the context `ctx`.
pub open spec fn describes(input: DelayInput, ctx: ActionContext, kind: DecisionKind) -> bool {
    &&& input.kind == kind
    &&& input.is_tsumogiri == (ctx.action matches MjaiEvent::Dahai { tsumogiri, .. } && *tsumogiri)
    &&& input.is_post_call == (*ctx.action is Dahai && ctx.tenhou is Some && !ctx.tenhou->0.is_tsumo)
    &&& input.first_action_of_kyoku == (ctx.last_kawa_tile is None)
    &&& !input.opening_animation
    &&& input.can_riichi == riichi_is_legal(ctx.legal_actions@)
    &&& input.in_riichi == ctx.self_riichi_accepted
    &&& input.opponent_riichi == opponent_in_riichi(ctx.snapshot.players@, ctx.our_seat)
    &&& match ctx.action {
        MjaiEvent::Dahai { pai, .. } => input.discarded matches Some(tile) && tile@ == pai@,
        _ => input.discarded is None,
    }
    &&& input.junme == next_discard_number(ctx.snapshot.players@, ctx.our_seat)
    &&& input.legal_action_count == ctx.legal_actions@.len()
    &&& input.budget == if ctx.tenhou is Some && ctx.tenhou->0.window is Some {
        Some(
            BudgetSnapshot {
                fixed_ms: tenhou_state::TURN_BASE_MS,
                add_ms: tenhou_state::TURN_BANK_MS,
                elapsed_ms: 0,
            },
        )
    } else {
        None
    }
    &&& input.click_overhead_ms == 0
    &&& *input.cfg == *ctx.cfg
    &&& input.delay_cfg == delay_cfg_in_force(ctx.delay_cfg)
    &&& input.script_allowed == (ctx.delay_cfg.mode != DelayMode::Legacy)
}

/// Whether another seat has declared riichi.
fn sees_opponent_riichi(snapshot: &GameStateSnapshot, our_seat: u8) -> (r: bool)
    ensures
        r == opponent_in_riichi(snapshot.players@, our_seat),
{
    let mut i: usize = 0;
    while i < snapshot.players.len()
        invariant
            i <= snapshot.players.len(),
            forall|k: int|
                0 <= k < i ==> !((#[trigger] snapshot.players@[k]).seat != our_seat
                    && snapshot.players@[k].riichi_declared),
        decreases snapshot.players.len() - i,
    {
        let player = &snapshot.players[i];
        if player.seat != our_seat && player.riichi_declared {
            assert(snapshot.players@[i as int] == *player);
            return true;
        }
        i += 1;
    }
    false
}

/// Whether riichi is among the legal actions.
fn sees_legal_riichi(legal: &[LegalAction]) -> (r: bool)
    ensures
        r == riichi_is_legal(legal@),
{
    let mut i: usize = 0;
    while i < legal.len()
        invariant
            i <= legal.len(),
            forall|k: int|
                0 <= k < i ==> (#[trigger] legal@[k]).action_type != ActionType::Riichi,
        decreases legal.len() - i,
    {
        if legal[i].action_type == ActionType::Riichi {
            assert(legal@[i as int].action_type == ActionType::Riichi);
            return true;
        }
        i += 1;
    }
    false
}

/// The number of our next discard; zero where we are not seated.
fn junme(snapshot: &GameStateSnapshot, our_seat: u8) -> (r: u32)
    ensures
        r == next_discard_number(snapshot.players@, our_seat),
{
    if (our_seat as usize) < snapshot.players.len() {
        let thrown: u64 = snapshot.players[our_seat as usize].river.len() as u64;
        ((thrown % 0x1_0000_0000) as u32).wrapping_add(1)
    } else {
        0
    }
}

/// What a delay policy has to be told about the decision `kind`.
///
/// Tenhou never states its allowance on the wire, but it very much has one:
/// overrun it and the client auto-discards. So the lobby's standard clock is
/// fed in and the policy's budget caps apply. Elapsed is zero on purpose: the
/// plan does not run until the client's clock is actually up
/// ([`Step::AwaitReady`]), and that clock starts then, not when the frame
/// reached us. Deducting the time spent animating would spend a budget that
/// had not started.
pub fn delay_input<'a>(ctx: &ActionContext<'a>, kind: DecisionKind) -> (r: DelayInput<'a>)
    ensures
        describes(r, *ctx, kind),
{
    let action: &'a MjaiEvent = ctx.action;
    let (is_dahai, is_tsumogiri, discarded): (bool, bool, Option<&'a str>) = match action {
        MjaiEvent::Dahai { tsumogiri, pai, .. } => (true, *tsumogiri, Some(pai.as_str())),
        _ => (false, false, None),
    };
    // The only discard with no just-drawn tile is the one a call bought us.
    let is_post_call = is_dahai && match ctx.tenhou {
        Some(state) => !state.is_tsumo,
        None => false,
    };
    let legacy = ctx.delay_cfg.mode == DelayMode::Legacy;
    let mut delay_cfg = ctx.delay_cfg;
    if legacy {
        delay_cfg.distribution = DelayDistribution::Uniform;
    }
    let has_window = match ctx.tenhou {
        Some(state) => state.window.is_some(),
        None => false,
    };
    let budget = if has_window {
        Some(
            BudgetSnapshot {
                fixed_ms: tenhou_state::TURN_BASE_MS,
                add_ms: tenhou_state::TURN_BANK_MS,
                elapsed_ms: 0,
            },
        )
    } else {
        None
    };
    DelayInput {
        kind,
        is_tsumogiri,
        is_post_call,
        first_action_of_kyoku: ctx.last_kawa_tile.is_none(),
        // Nothing is being pressed, so no animation has to finish first.
        opening_animation: false,
        can_riichi: sees_legal_riichi(ctx.legal_actions),
        in_riichi: ctx.self_riichi_accepted,
        opponent_riichi: sees_opponent_riichi(ctx.snapshot, ctx.our_seat),
        discarded,
        junme: junme(ctx.snapshot, ctx.our_seat),
        legal_action_count: ctx.legal_actions.len(),
        budget,
        click_overhead_ms: 0,
        cfg: ctx.cfg,
        delay_cfg,
        script_allowed: !legacy,
    }
}

/// What a delay policy has to be asked before planning: nothing where the
/// plan is empty.
pub fn delay_request<'a>(ctx: &ActionContext<'a>) -> (r: Option<DelayInput<'a>>)
    ensures
        match r {
            Some(input) => performed(*ctx) is Some && kind_of(*ctx.action) is Some && describes(
                input,
                *ctx,
                kind_of(*ctx.action)->0,
            ),
            None => performed(*ctx) is None,
        },
        r matches Some(input) ==> input.budget == Some(
            BudgetSnapshot {
                fixed_ms: tenhou_state::TURN_BASE_MS,
                add_ms: tenhou_state::TURN_BANK_MS,
                elapsed_ms: 0,
            },
        ),
{
    match (resolve(ctx), decision_kind(ctx.action)) {
        (Ok(_), Some(kind)) => Some(delay_input(ctx, kind)),
        _ => None,
    }
}

/// Every plan waits for the client first and never again, and what it does
/// comes after the whole pause that the delay policy asked for.
pub proof fn law_every_plan_waits_for_the_client_first(ctx: ActionContext)
    requires
        planned(ctx).len() > 0,
    ensures
        planned(ctx)[0] == (StepView::AwaitReady { timeout_ms: READY_TIMEOUT_MS }),
        forall|i: int| 0 < i < planned(ctx).len() ==> !(#[trigger] planned(ctx)[i] is AwaitReady),
        ctx.think_ms > 0 ==> planned(ctx)[1] == (StepView::Sleep { duration_ms: ctx.think_ms }),
        performed(ctx) matches Some((input, _)) ==> planned(ctx)[if ctx.think_ms > 0 {
            2int
        } else {
            1
        }] == input,
{
}

/// Without a state from the bridge, or without an open decision window,
/// nothing is planned.
pub proof fn law_no_window_no_plan(ctx: ActionContext)
    requires
        ctx.tenhou is None || ctx.tenhou->0.window is None,
    ensures
        planned(ctx).len() == 0,
{
}

/// A riichi is declared and discarded in one plan or not at all: the press
/// of the riichi button is followed by the tile the bot named, which is the
/// last step, and where no tile is named or none of it is held nothing is
/// pressed.
pub proof fn law_riichi_is_declared_with_its_discard(
    ctx: ActionContext,
    actor: u8,
    pai: Option<String>,
)
    requires
        *ctx.action == (MjaiEvent::Reach { actor, pai }),
    ensures
        planned(ctx).len() > 0 <==> {
            &&& ctx.tenhou is Some
            &&& ctx.tenhou->0.window is Some
            &&& pai is Some
            &&& encode::discard_index(
                ctx.tenhou->0.hand@,
                ctx.tenhou->0.is_tsumo,
                pai->0@,
                true,
            ) is Some
        },
        planned(ctx).len() > 0 ==> {
            let plan = planned(ctx);
            let n = plan.len() as int;
            &&& n >= 4
            &&& plan[n - 3] matches StepView::DomClick { selectors, label } && label == "riichi"@
                && selectors == buttons::selectors_of(seq![menu::RIICHI])
            &&& plan[n - 2] == (StepView::Sleep { duration_ms: ctx.cfg.inter_click_delay_ms })
            &&& plan[n - 1] matches StepView::Discard { tile_index } && Some(tile_index)
                == encode::discard_index(
                ctx.tenhou->0.hand@,
                ctx.tenhou->0.is_tsumo,
                pai->0@,
                true,
            )
        },
{
}

/// Once riichi is accepted the client discards for itself: no plan for
/// anything but a declaration throws a tile, and a discard plans nothing.
pub proof fn law_accepted_riichi_leaves_the_discard_to_the_client(ctx: ActionContext)
    requires
        ctx.self_riichi_accepted,
        !(*ctx.action is Reach),
    ensures
        *ctx.action is Dahai ==> planned(ctx).len() == 0,
        forall|i: int| 0 <= i < planned(ctx).len() ==> !(#[trigger] planned(ctx)[i] is Discard),
{
}

/// A pass is pressed exactly where the open window offers a claim on another
/// seat's discard.
pub proof fn law_pass_declines_a_claim_on_a_discard(ctx: ActionContext)
    requires
        *ctx.action is Pass,
    ensures
        planned(ctx).len() > 0 <==> ctx.tenhou is Some && ctx.tenhou->0.window is Some
            && tenhou_state::offers_claim_on_discard(ctx.tenhou->0.window->0.ops),
{
}

/// The tile a planned discard throws is the one the encoder's frame would
/// name, and it ends the plan.
pub proof fn law_plan_throws_what_the_encoder_names(ctx: ActionContext)
    requires
        *ctx.action is Dahai,
        planned(ctx).len() > 0,
    ensures
        planned(ctx).last() matches StepView::Discard { tile_index } && encode::frame_of(
            *ctx.action,
            ctx.tenhou->0.hand@,
            ctx.tenhou->0.melds@,
            ctx.tenhou->0.is_tsumo,
        ) == Some(encode::ClientFrame::Discard { p: tile_index }),
{
}

/// Events that are not ours to perform plan nothing, whatever plans something
/// is a decision a delay policy can be asked about, and an empty plan has
/// exactly one reason.
pub proof fn law_only_decisions_are_planned(ctx: ActionContext)
    ensures
        planned(ctx).len() > 0 <==> performed(ctx) is Some,
        planned(ctx).len() > 0 ==> kind_of(*ctx.action) is Some,
        planned(ctx).len() == 0 <==> skip_of(ctx) is Some,
{
}

/// Which decision an event is, one kind for each.
pub proof fn law_each_event_is_its_own_decision(action: MjaiEvent)
    ensures
        kind_of(action) == Some(DecisionKind::Dahai) <==> action is Dahai,
        kind_of(action) == Some(DecisionKind::Reach) <==> action is Reach,
        kind_of(action) == Some(DecisionKind::Chi) <==> action is Chi,
        kind_of(action) == Some(DecisionKind::Pon) <==> action is Pon,
        kind_of(action) == Some(DecisionKind::Daiminkan) <==> action is Daiminkan,
        kind_of(action) == Some(DecisionKind::Ankan) <==> action is Ankan,
        kind_of(action) == Some(DecisionKind::Kakan) <==> action is Kakan,
        kind_of(action) == Some(DecisionKind::Hora) <==> action is Hora,
        kind_of(action) == Some(DecisionKind::Ryukyoku) <==> action is Ryukyoku,
        kind_of(action) == Some(DecisionKind::Kita) <==> action is Kita,
        kind_of(action) == Some(DecisionKind::Pass) <==> action is Pass,
        kind_of(action) is None <==> action is StartGame || action is StartKyoku || action is Tsumo
            || action is Dora || action is ReachAccepted || action is EndKyoku || action is EndGame,
{
}

/// Whether a plan waits for the client, thinks for `think_ms` where that is
/// not zero, makes `input`, and does nothing more.
pub open spec fn waits_thinks_and_makes(
    plan: Seq<StepView>,
    think_ms: u32,
    input: StepView,
) -> bool {
    &&& plan.len() == if think_ms == 0 {
        2int
    } else {
        3
    }
    &&& plan[0] == (StepView::AwaitReady { timeout_ms: 8000 })
    &&& think_ms > 0 ==> plan[1] == (StepView::Sleep { duration_ms: think_ms })
    &&& plan[plan.len() - 1] == input
}

/// In an open window a call, a win, a kan, the nine terminals and kita are
/// planned wherever the menu has a button for them, whether or not a tile was
/// just drawn and whatever the window offers: always, but for a chi of which
/// one tile has no rank. The plan waits, thinks and presses the action's own
/// buttons in their order.
pub proof fn law_a_button_is_pressed_wherever_there_is_one(ctx: ActionContext)
    requires
        ctx.tenhou is Some,
        ctx.tenhou->0.window is Some,
        ctx.action is Chi || ctx.action is Pon || ctx.action is Daiminkan || ctx.action is Ankan
            || ctx.action is Kakan || ctx.action is Hora || ctx.action is Ryukyoku
            || ctx.action is Kita,
    ensures
        planned(ctx).len() == 0 <==> (ctx.action matches MjaiEvent::Chi { pai, consumed, .. } && (
        buttons::rank_of(pai@) is None || buttons::rank_of(consumed@[0]@) is None
            || buttons::rank_of(consumed@[1]@) is None)),
        planned(ctx).len() > 0 ==> {
            let slots = buttons::slots_of(
                *ctx.action,
                ctx.tenhou->0.hand@,
                ctx.tenhou->0.melds@,
                ctx.self_riichi_accepted,
            );
            &&& slots is Some
            &&& waits_thinks_and_makes(
                planned(ctx),
                ctx.think_ms,
                StepView::DomClick {
                    selectors: buttons::selectors_of(slots->0),
                    label: buttons::button_label(*ctx.action),
                },
            )
        },
{
    buttons::law_buttons_by_number(
        *ctx.action,
        ctx.tenhou->0.hand@,
        ctx.tenhou->0.melds@,
        ctx.self_riichi_accepted,
    );
    if let MjaiEvent::Chi { pai, consumed, .. } = *ctx.action {
        buttons::law_chi_slot_by_number(pai@, consumed@[0], consumed@[1]);
    }
}

/// Whether a tile was just drawn changes nothing about an action that is
/// neither a discard nor a riichi: two states that differ in that alone have
/// the same plan.
pub proof fn law_a_claim_does_not_ask_for_a_draw(ctx: ActionContext, other: ActionContext)
    requires
        !(ctx.action is Dahai),
        !(ctx.action is Reach),
        other.action == ctx.action,
        other.think_ms == ctx.think_ms,
        other.self_riichi_accepted == ctx.self_riichi_accepted,
        ctx.tenhou is Some,
        other.tenhou is Some,
        other.tenhou->0.hand@ == ctx.tenhou->0.hand@,
        other.tenhou->0.melds@ == ctx.tenhou->0.melds@,
        other.tenhou->0.window == ctx.tenhou->0.window,
    ensures
        planned(other) == planned(ctx),
        skip_of(other) == skip_of(ctx),
{
}

/// In an open window, before riichi is accepted, a discard is planned exactly
/// where the encoder has a frame for it: the plan waits, thinks and throws
/// the tile of that frame.
pub proof fn law_a_discard_is_planned_where_it_has_a_frame(ctx: ActionContext)
    requires
        ctx.tenhou is Some,
        ctx.tenhou->0.window is Some,
        ctx.action is Dahai,
        !ctx.self_riichi_accepted,
    ensures
        ({
            let frame = encode::frame_of(
                *ctx.action,
                ctx.tenhou->0.hand@,
                ctx.tenhou->0.melds@,
                ctx.tenhou->0.is_tsumo,
            );
            &&& planned(ctx).len() > 0 <==> frame is Some
            &&& frame is Some ==> (frame matches Some(encode::ClientFrame::Discard { p })
                && waits_thinks_and_makes(
                planned(ctx),
                ctx.think_ms,
                StepView::Discard { tile_index: p },
            ))
        }),
{
}

/// A pass, where one of the four claims on another seat's discard is offered,
/// waits, thinks and presses button 4; where none is, nothing is done.
pub proof fn law_a_pass_presses_the_pass_button(ctx: ActionContext)
    requires
        ctx.tenhou is Some,
        ctx.tenhou->0.window is Some,
        ctx.action is Pass,
    ensures
        ({
            let ops = ctx.tenhou->0.window->0.ops;
            if ops & 1 != 0 || ops & 2 != 0 || ops & 4 != 0 || ops & 8 != 0 {
                waits_thinks_and_makes(
                    planned(ctx),
                    ctx.think_ms,
                    StepView::DomClick {
                        selectors: seq![menu::selector(4)],
                        label: seq!['p', 'a', 's', 's'],
                    },
                )
            } else {
                planned(ctx).len() == 0
            }
        }),
{
    buttons::law_button_labels(*ctx.action);
    assert(buttons::selectors_of(seq![4u8]) =~= seq![menu::selector(4)]);
}

/// A riichi in an open window is planned exactly where the bot names a tile
/// and a discard of it, as the drawn one where it is that, has a frame. The
/// plan waits, thinks, presses button 2, lets the gap between two inputs pass
/// and throws the tile of that frame, and does nothing more.
pub proof fn law_a_riichi_plan_step_by_step(
    ctx: ActionContext,
    actor: u8,
    pai: Option<String>,
    tile: String,
)
    requires
        ctx.tenhou is Some,
        ctx.tenhou->0.window is Some,
        *ctx.action == (MjaiEvent::Reach { actor, pai }),
        pai is Some ==> pai->0 == tile,
    ensures
        ({
            let frame = encode::frame_of(
                MjaiEvent::Dahai { actor, pai: tile, tsumogiri: true },
                ctx.tenhou->0.hand@,
                ctx.tenhou->0.melds@,
                ctx.tenhou->0.is_tsumo,
            );
            let plan = planned(ctx);
            let n = plan.len() as int;
            &&& n > 0 <==> pai is Some && frame is Some
            &&& n > 0 ==> {
                &&& waits_thinks_and_makes(
                    plan.take(n - 2),
                    ctx.think_ms,
                    StepView::DomClick {
                        selectors: seq![menu::selector(2)],
                        label: seq!['r', 'i', 'i', 'c', 'h', 'i'],
                    },
                )
                &&& plan[n - 2] == (StepView::Sleep { duration_ms: ctx.cfg.inter_click_delay_ms })
                &&& frame matches Some(encode::ClientFrame::Discard { p }) && plan[n - 1] == (
                StepView::Discard { tile_index: p })
            }
        }),
{
    buttons::law_button_labels(*ctx.action);
    assert(buttons::selectors_of(seq![2u8]) =~= seq![menu::selector(2)]);
}

/// Nothing is done about an event that is not a decision, about a discard
/// after riichi was accepted, without a state, and without an open window.
pub proof fn law_nothing_is_planned_out_of_turn(ctx: ActionContext)
    requires
        ctx.tenhou is None || ctx.tenhou->0.window is None || (ctx.action is Dahai
            && ctx.self_riichi_accepted) || ctx.action is StartGame || ctx.action is StartKyoku
            || ctx.action is Tsumo || ctx.action is Dora || ctx.action is ReachAccepted
            || ctx.action is EndKyoku || ctx.action is EndGame,
    ensures
        planned(ctx).len() == 0,
{
}

/// Why a plan is empty, one reason for each case, the first that applies.
pub proof fn law_each_empty_plan_has_its_reason(ctx: ActionContext)
    ensures
        skip_of(ctx) is None <==> planned(ctx).len() > 0,
        skip_of(ctx) == Some(SkipReason::NoState) <==> ctx.tenhou is None,
        skip_of(ctx) == Some(SkipReason::NoWindow) <==> ctx.tenhou is Some
            && ctx.tenhou->0.window is None,
        ctx.tenhou is Some && ctx.tenhou->0.window is Some && planned(ctx).len() == 0 ==> {
            let reason = skip_of(ctx)->0;
            &&& ctx.action is Dahai && ctx.self_riichi_accepted ==> reason
                == SkipReason::RiichiAccepted
            &&& ctx.action is Dahai && !ctx.self_riichi_accepted ==> reason
                == SkipReason::DiscardNotHeld
            &&& ctx.action is Pass ==> reason == SkipReason::NothingToDecline
            &&& ctx.action matches MjaiEvent::Reach { pai, .. } ==> reason == if pai is Some {
                SkipReason::RiichiTileNotHeld
            } else {
                SkipReason::RiichiWithoutTile
            }
            &&& ctx.action is Chi ==> reason == SkipReason::NoButton
            &&& ctx.action is StartGame || ctx.action is StartKyoku || ctx.action is Tsumo
                || ctx.action is Dora || ctx.action is ReachAccepted || ctx.action is EndKyoku
                || ctx.action is EndGame ==> reason == SkipReason::NotADecision
        },
{
}

/// What a delay policy is told, item by item.
pub proof fn law_a_delay_policy_is_told_the_decision(
    input: DelayInput,
    ctx: ActionContext,
    kind: DecisionKind,
)
    requires
        describes(input, ctx, kind),
    ensures
        input.kind == kind,
        match *ctx.action {
            MjaiEvent::Dahai { pai, tsumogiri, .. } => {
                &&& input.is_tsumogiri == tsumogiri
                &&& input.discarded is Some && input.discarded->0@ == pai@
                &&& ctx.tenhou is Some ==> input.is_post_call == !ctx.tenhou->0.is_tsumo
                &&& ctx.tenhou is None ==> !input.is_post_call
            },
            _ => !input.is_tsumogiri && input.discarded is None && !input.is_post_call,
        },
        input.first_action_of_kyoku <==> ctx.last_kawa_tile is None,
        !input.opening_animation,
        input.in_riichi == ctx.self_riichi_accepted,
        input.can_riichi <==> exists|i: int|
            0 <= i < ctx.legal_actions@.len() && (#[trigger] ctx.legal_actions@[i]).action_type
                == ActionType::Riichi,
        input.opponent_riichi <==> exists|i: int|
            0 <= i < ctx.snapshot.players@.len() && (#[trigger] ctx.snapshot.players@[i]).seat
                != ctx.our_seat && ctx.snapshot.players@[i].riichi_declared,
        ctx.our_seat < ctx.snapshot.players@.len() ==> input.junme == (
        ctx.snapshot.players@[ctx.our_seat as int].river@.len() + 1) % 4294967296,
        ctx.our_seat >= ctx.snapshot.players@.len() ==> input.junme == 0,
        input.legal_action_count == ctx.legal_actions@.len(),
        input.budget is Some <==> ctx.tenhou is Some && ctx.tenhou->0.window is Some,
        input.budget matches Some(budget) ==> budget.fixed_ms == 5000 && budget.add_ms == 10000
            && budget.elapsed_ms == 0,
        input.click_overhead_ms == 0,
        *input.cfg == *ctx.cfg,
        input.delay_cfg.mode == ctx.delay_cfg.mode,
        input.delay_cfg.no_budget_cap_ms == ctx.delay_cfg.no_budget_cap_ms,
        input.script_allowed <==> ctx.delay_cfg.mode != DelayMode::Legacy,
        input.delay_cfg.distribution == if ctx.delay_cfg.mode == DelayMode::Legacy {
            DelayDistribution::Uniform
        } else {
            ctx.delay_cfg.distribution
        },
{
}

} // verus!
