//! Tenhou plans.

use akagi::autoplay::delay::{
    needs_built_in, total_target, BudgetSnapshot, DecisionKind, DelayInput,
};
use akagi::autoplay::platform::{ActionContext, PlanResult, PlatformAutoplay, Step};
use akagi::autoplay::tenhou::buttons::{
    button_for, chi_slot, is_red, kan_candidates, kan_slots, pon_slots, rank, selectors_for,
    tile_class,
};
use akagi::autoplay::tenhou::{
    decision_kind, delay_input, delay_request, push_pre_delay, skip_reason, tile_index_for,
    SkipReason, TenhouAutoplay,
};
use akagi::autoplay::tenhou_state::{
    DecisionWindow, TenhouState, OP_CHI, OP_REACH, OP_TSUMO, TURN_BANK_MS, TURN_BASE_MS,
};
use akagi::bridge::tenhou::encode::{client_frame, ClientFrame};
use akagi::bridge::tenhou::meld::{Meld, MeldKind};
use akagi::config::{DelayDistribution, DelayMode, DelayModelConfig, MajsoulAutoplayConfig};
use akagi::game_state::{ActionType, GameStateSnapshot, LegalAction, PlayerSnapshot};
use akagi::schema::MjaiEvent;
use std::sync::Arc;
use std::time::{Duration, Instant};

fn s(v: &str) -> String {
    v.to_string()
}

#[test]
fn rank_reads_number_tiles_only() {
    assert_eq!(rank("3m"), Some(3));
    assert_eq!(rank("5pr"), Some(5));
    assert_eq!(rank("9s"), Some(9));
    assert_eq!(rank("E"), None);
    assert_eq!(rank("?"), None);
}

fn hand(tiles: &[u32]) -> TenhouState {
    TenhouState {
        seat: 0,
        hand: tiles.to_vec(),
        melds: Vec::new(),
        is_tsumo: true,
        window: None,
    }
}

fn slots(action: &MjaiEvent, st: &TenhouState) -> Vec<String> {
    button_for(action, st, false).unwrap().0
}

/// The client lays chi buttons out by where the called tile sits in the
/// run: `f(n?20:21,..)` highest, `f(n?18:19,..)` middle, `f(n?16:17,..)`
/// lowest.
#[test]
fn chi_slot_follows_the_called_tile_position() {
    // Called 3m with 4m+5m → the called tile is the lowest of the run.
    assert_eq!(chi_slot("3m", &[s("4m"), s("5m")]), Some(17));
    // Called 4m with 3m+5m → middle.
    assert_eq!(chi_slot("4m", &[s("3m"), s("5m")]), Some(19));
    // Called 5m with 3m+4m → highest.
    assert_eq!(chi_slot("5m", &[s("3m"), s("4m")]), Some(21));
}

/// The even slot of each pair is the same shape spending a red five, and
/// it stands alone: the `n` loop draws it whenever the red copy is held,
/// whether or not a plain alternative exists. Accepting the odd slot as a
/// fallback would spend the wrong copy in the case where both are drawn.
#[test]
fn a_chi_that_spends_a_red_takes_the_slot_below_its_shape() {
    assert_eq!(chi_slot("3m", &[s("4m"), s("5mr")]), Some(16));
    assert_eq!(chi_slot("4m", &[s("3m"), s("5mr")]), Some(18));
    assert_eq!(chi_slot("6m", &[s("5mr"), s("4m")]), Some(20));
}

/// Consumed order must not matter — only where the called tile lands.
#[test]
fn chi_slot_is_order_independent() {
    assert_eq!(
        chi_slot("4m", &[s("3m"), s("5m")]),
        chi_slot("4m", &[s("5m"), s("3m")])
    );
}

/// Regression (a pon that never landed, then landed on the wrong pair).
/// Slot 15 is the pon and always exists; slot 14 is drawn only when the
/// hand holds one red copy and two plain ones, and it is the pair that
/// leaves the red out. So a pon spending no red prefers 14 and settles
/// for 15 — which is the same pon whenever 14 was not drawn.
#[test]
fn a_pon_that_spends_no_red_prefers_the_pair_that_keeps_it() {
    let st = hand(&[0, 1]);
    let plain = MjaiEvent::Pon {
        actor: 0,
        target: 1,
        pai: s("8s"),
        consumed: [s("8s"), s("8s")],
    };
    let sel = slots(&plain, &st);
    assert_eq!(sel.len(), 2, "{sel:?}");
    assert!(sel[0].contains("c22-14"), "keep-the-red first: {sel:?}");
    assert!(
        sel[1].contains("c22-15"),
        "then the only pon drawn: {sel:?}"
    );
}

/// And a pon that spends the red asks for 15 alone. Slot 14 is never it:
/// when the client draws 14 at all, 14 is the plain pair.
#[test]
fn a_pon_that_spends_a_red_takes_the_pon_slot_alone() {
    let st = hand(&[0, 1]);
    let red = MjaiEvent::Pon {
        actor: 0,
        target: 1,
        pai: s("5m"),
        consumed: [s("5m"), s("5mr")],
    };
    let sel = slots(&red, &st);
    assert_eq!(sel.len(), 1, "{sel:?}");
    assert!(sel[0].contains("c22-15"), "{sel:?}");
}

/// Two kans on offer share three slots with nothing on the button to tell
/// them apart, so the candidate list has to be rebuilt the way the client
/// builds it: kakan (by meld order) first, then ankan by ascending tile
/// class. Here the hand holds four 3m and four 7p — the 7p ankan is the
/// client's second candidate, so slot 11.
#[test]
fn a_second_ankan_takes_the_second_kan_slot() {
    // 3m = class 2 → indices 8..11; 7p = class 15 → indices 60..63.
    let st = hand(&[8, 9, 10, 11, 60, 61, 62, 63]);
    let first = MjaiEvent::Ankan {
        actor: 0,
        consumed: [s("3m"), s("3m"), s("3m"), s("3m")],
    };
    assert!(slots(&first, &st)[0].contains("c22-10"));
    let second = MjaiEvent::Ankan {
        actor: 0,
        consumed: [s("7p"), s("7p"), s("7p"), s("7p")],
    };
    let sel = slots(&second, &st);
    assert_eq!(sel.len(), 1, "the candidate was placed exactly: {sel:?}");
    assert!(sel[0].contains("c22-11"), "{sel:?}");
}

/// A kakan comes before every ankan, whatever the tiles are — the client
/// walks the melds first.
#[test]
fn a_kakan_outranks_an_ankan_for_the_first_slot() {
    let mut st = hand(&[8, 9, 10, 11, 60]);
    st.melds = vec![Meld {
        kind: MeldKind::Pon,
        target_rel: 1,
        // 7p pon; the fourth copy (index 60) is in hand above.
        tiles: vec![61, 62, 63],
        unused: None,
        r: None,
    }];
    let kakan = MjaiEvent::Kakan {
        actor: 0,
        pai: s("7p"),
        consumed: [s("7p"), s("7p"), s("7p")],
    };
    assert!(slots(&kakan, &st)[0].contains("c22-10"), "kakan is first");
    let ankan = MjaiEvent::Ankan {
        actor: 0,
        consumed: [s("3m"), s("3m"), s("3m"), s("3m")],
    };
    assert!(
        slots(&ankan, &st)[0].contains("c22-11"),
        "the ankan follows it"
    );
}

/// A kan we cannot place falls back to the three slots in the order the
/// client fills them, which is right whenever only one is on offer.
#[test]
fn an_unplaceable_kan_falls_back_to_the_family_in_fill_order() {
    let st = hand(&[0]);
    let ankan = MjaiEvent::Ankan {
        actor: 0,
        consumed: [s("3m"), s("3m"), s("3m"), s("3m")],
    };
    let sel = slots(&ankan, &st);
    assert_eq!(sel.len(), 3);
    assert!(
        sel[0].contains("c22-10") && sel[2].contains("c22-12"),
        "{sel:?}"
    );
}

#[test]
fn hora_splits_tsumo_and_ron_buttons() {
    let st = hand(&[0]);
    let tsumo = MjaiEvent::Hora {
        actor: 1,
        target: 1,
        deltas: None,
        ura_markers: None,
    };
    assert!(slots(&tsumo, &st)[0].contains("c22-0"));
    let ron = MjaiEvent::Hora {
        actor: 1,
        target: 2,
        deltas: None,
        ura_markers: None,
    };
    assert!(slots(&ron, &st)[0].contains("c22-1"));
}

/// Kita shares its slots with the sanma menu's other declarations, and
/// the client assigns the North first, so the family is tried in the
/// order the client fills it rather than left to the document.
#[test]
fn kita_is_tried_in_the_order_the_client_fills_it() {
    let st = hand(&[0]);
    let kita = MjaiEvent::Kita {
        actor: 0,
        pai: Some(s("N")),
    };
    let sel = slots(&kita, &st);
    let want: Vec<String> = (5..=9).map(|n| format!("c22-{n}")).collect();
    for (got, expect) in sel.iter().zip(&want) {
        assert!(got.contains(expect.as_str()), "{sel:?}");
    }
}

/// In riichi the client offers an ankan only of the tile just drawn, and
/// only when the wait is unchanged, so there is never a second candidate
/// to place — and the hand's other concealed sets must not be counted.
#[test]
fn a_kan_declared_in_riichi_takes_the_first_slot() {
    let st = hand(&[8, 9, 10, 11, 60, 61, 62, 63]);
    let ankan = MjaiEvent::Ankan {
        actor: 0,
        consumed: [s("7p"), s("7p"), s("7p"), s("7p")],
    };
    let sel = button_for(&ankan, &st, true).unwrap().0;
    assert_eq!(sel.len(), 1);
    assert!(sel[0].contains("c22-10"), "{sel:?}");
}

/// Regression (a declared riichi that never discarded): Tenhou takes the
/// declaration and the tile as two inputs and sits on its clock until it
/// has both. Nothing prompts a second bot decision — the `reach` the
/// server echoes back is not one — so the tile the bot named on the reach
/// has to go out in the same plan.
#[test]
fn a_riichi_declares_and_discards_in_one_plan() {
    let st = TenhouState {
        seat: 0,
        // 0..=3 are the four copies of 1m; 4..=7 are 2m.
        hand: vec![0, 4, 8],
        melds: Vec::new(),
        is_tsumo: true,
        window: Some(DecisionWindow {
            ops: OP_REACH,
            opened_at: Instant::now(),
        }),
    };
    let action = MjaiEvent::Reach {
        actor: 0,
        pai: Some("2m".into()),
    };
    let cfg = CFG;
    let snap = snapshot_fixture();
    let ctx = ActionContext {
        action: &action,
        snapshot: &snap,
        legal_actions: &[],
        our_seat: 0,
        last_kawa_tile: None,
        last_self_tsumo: None,
        self_riichi_accepted: false,
        num_players: 4,
        cfg: &cfg,
        delay_cfg: DelayModelConfig::default(),
        budget: None,
        think_ms: 1_200,
        tenhou: Some(&st),
    };
    let plan = TenhouAutoplay::new().plan(&ctx);

    let pressed = plan
        .steps
        .iter()
        .position(|s| matches!(s, Step::DomClick { label, .. } if label == "riichi"))
        .unwrap_or_else(|| panic!("riichi must be pressed: {:?}", plan.steps));
    let discarded = plan
        .steps
        .iter()
        .position(|s| matches!(s, Step::Discard { tile_index: 4 }))
        .unwrap_or_else(|| panic!("the named tile must follow: {:?}", plan.steps));
    assert!(
        pressed < discarded,
        "declare, then discard: {:?}",
        plan.steps
    );
}

/// Regression (blind riichi): a bot that declares riichi without naming
/// the tile leaves a declaration Tenhou cannot complete — nothing prompts
/// a follow-up decision, and at clock expiry the *client* finishes the
/// riichi by throwing the drawn tile, committing the hand to a wait the
/// bot never chose. The plan must not press anything at all.
#[test]
fn a_riichi_with_no_tile_named_is_not_declared() {
    let st = TenhouState {
        seat: 0,
        hand: vec![0, 4, 8],
        melds: Vec::new(),
        is_tsumo: true,
        window: Some(DecisionWindow {
            ops: OP_REACH,
            opened_at: Instant::now(),
        }),
    };
    let action = MjaiEvent::Reach {
        actor: 0,
        pai: None,
    };
    let cfg = CFG;
    let snap = snapshot_fixture();
    let ctx = ActionContext {
        action: &action,
        snapshot: &snap,
        legal_actions: &[],
        our_seat: 0,
        last_kawa_tile: None,
        last_self_tsumo: None,
        self_riichi_accepted: false,
        num_players: 4,
        cfg: &cfg,
        delay_cfg: DelayModelConfig::default(),
        budget: None,
        think_ms: 1_200,
        tenhou: Some(&st),
    };
    let plan = TenhouAutoplay::new().plan(&ctx);
    assert!(
        plan.steps.is_empty(),
        "a riichi that cannot be completed must not be started: {:?}",
        plan.steps
    );
}

/// The same refusal when the hand cannot produce the named tile: a
/// declaration whose discard the client would have to resolve itself is
/// worse than no declaration.
#[test]
fn a_riichi_whose_tile_is_not_held_is_not_declared() {
    let st = TenhouState {
        seat: 0,
        hand: vec![0, 4, 8],
        melds: Vec::new(),
        is_tsumo: true,
        window: Some(DecisionWindow {
            ops: OP_REACH,
            opened_at: Instant::now(),
        }),
    };
    let action = MjaiEvent::Reach {
        actor: 0,
        pai: Some("9s".into()),
    };
    let cfg = CFG;
    let snap = snapshot_fixture();
    let ctx = ActionContext {
        action: &action,
        snapshot: &snap,
        legal_actions: &[],
        our_seat: 0,
        last_kawa_tile: None,
        last_self_tsumo: None,
        self_riichi_accepted: false,
        num_players: 4,
        cfg: &cfg,
        delay_cfg: DelayModelConfig::default(),
        budget: None,
        think_ms: 1_200,
        tenhou: Some(&st),
    };
    let plan = TenhouAutoplay::new().plan(&ctx);
    assert!(plan.steps.is_empty(), "{:?}", plan.steps);
}

/// Regression: the plan's discard must name the drawn copy for a
/// tsumogiri. The index is also the display — Tenhou shows a tsumogiri
/// exactly when the thrown index is the drawn one — and the ordinary
/// lookup prefers the higher index, which here is the *held* copy.
#[test]
fn a_tsumogiri_plan_discards_the_drawn_copy() {
    let st = TenhouState {
        seat: 0,
        // Two plain 5m: 19 held, 17 drawn last (the tail).
        hand: vec![19, 17],
        melds: Vec::new(),
        is_tsumo: true,
        window: Some(DecisionWindow {
            ops: 0,
            opened_at: Instant::now(),
        }),
    };
    let action = MjaiEvent::Dahai {
        actor: 0,
        pai: "5m".into(),
        tsumogiri: true,
    };
    let cfg = CFG;
    let snap = snapshot_fixture();
    let ctx = ActionContext {
        action: &action,
        snapshot: &snap,
        legal_actions: &[],
        our_seat: 0,
        last_kawa_tile: None,
        last_self_tsumo: None,
        self_riichi_accepted: false,
        num_players: 4,
        cfg: &cfg,
        delay_cfg: DelayModelConfig::default(),
        budget: None,
        think_ms: 1_200,
        tenhou: Some(&st),
    };
    let plan = TenhouAutoplay::new().plan(&ctx);
    assert!(
        plan.steps
            .iter()
            .any(|s| matches!(s, Step::Discard { tile_index: 17 })),
        "must throw the drawn copy: {:?}",
        plan.steps
    );
}

fn snapshot_fixture() -> GameStateSnapshot {
    GameStateSnapshot {
        players: Vec::new(),
    }
}

/// Every plan waits for the client before it thinks: the delay is meant
/// to look like a human deciding, and a human cannot decide before the
/// board has stopped moving.
#[test]
fn every_plan_waits_for_the_client_first() {
    let st = TenhouState {
        seat: 0,
        hand: vec![0, 4, 8],
        melds: Vec::new(),
        is_tsumo: true,
        window: Some(DecisionWindow {
            ops: OP_CHI,
            opened_at: Instant::now(),
        }),
    };
    let action = MjaiEvent::Pass;
    let cfg = CFG;
    let snap = GameStateSnapshot { players: Vec::new() };
    let ctx = ActionContext {
        action: &action,
        snapshot: &snap,
        legal_actions: &[],
        our_seat: 0,
        last_kawa_tile: None,
        last_self_tsumo: None,
        self_riichi_accepted: false,
        num_players: 4,
        cfg: &cfg,
        delay_cfg: DelayModelConfig::default(),
        budget: None,
        think_ms: 1_200,
        tenhou: Some(&st),
    };
    let plan = TenhouAutoplay::new().plan(&ctx);
    assert!(
        matches!(plan.steps.first(), Some(Step::AwaitReady { .. })),
        "readiness must come first, got {:?}",
        plan.steps
    );
}

/// A discard has no button — it is the one action that needs a position.
#[test]
fn discard_has_no_button() {
    let st = hand(&[0]);
    assert!(button_for(
        &MjaiEvent::Dahai {
            actor: 0,
            pai: s("1m"),
            tsumogiri: false
        },
        &st,
        false
    )
    .is_none());
}

#[test]
fn simple_declarations_map_to_their_slots() {
    let st = hand(&[0]);
    for (action, slot) in [
        (
            MjaiEvent::Reach {
                actor: 0,
                pai: None,
            },
            "c22-2",
        ),
        (MjaiEvent::Ryukyoku { deltas: None }, "c22-3"),
        (MjaiEvent::Pass, "c22-4"),
        (
            MjaiEvent::Daiminkan {
                actor: 0,
                target: 1,
                pai: s("1m"),
                consumed: [s("1m"), s("1m"), s("1m")],
            },
            "c22-13",
        ),
    ] {
        let sel = slots(&action, &st);
        assert_eq!(sel.len(), 1, "{action:?} → {sel:?}");
        assert!(sel[0].contains(slot), "{action:?} → {sel:?}");
    }
}

/// The allowance must leave room to act inside one Tenhou turn. The first
/// live run ran to the no-budget ceiling and lost every decision to the
/// client's auto-discard, so the base has to be well under that.
#[test]
fn turn_allowance_is_shorter_than_the_no_budget_ceiling() {
    let no_budget_ceiling = DelayModelConfig::default().no_budget_cap_ms;
    assert!(
        TURN_BASE_MS < no_budget_ceiling,
        "a turn ({TURN_BASE_MS}ms) must be shorter than the uncapped ceiling \
         ({no_budget_ceiling}ms), or the model plans past the whole turn"
    );
    // The bank only ever extends the window, so it must not be the
    // thing that pushes the plan past the ceiling either.
    assert!(TURN_BASE_MS + TURN_BANK_MS >= no_budget_ceiling.min(15_000));
}

/// The window's own clock is what the budget is measured against.
#[test]
fn elapsed_advances_with_the_window() {
    let w = DecisionWindow {
        ops: 0,
        opened_at: Instant::now() - Duration::from_millis(1500),
    };
    assert!(w.elapsed_ms() >= 1500, "got {}", w.elapsed_ms());
}

fn open_state(hand: &[u32], ops: u32) -> TenhouState {
    TenhouState {
        seat: 0,
        hand: hand.to_vec(),
        melds: Vec::new(),
        is_tsumo: true,
        window: Some(DecisionWindow {
            ops,
            opened_at: Instant::now(),
        }),
    }
}

const CFG: MajsoulAutoplayConfig = MajsoulAutoplayConfig {
    inter_click_delay_ms: 300,
};

fn context<'a>(
    action: &'a MjaiEvent,
    snapshot: &'a GameStateSnapshot,
    state: Option<&'a TenhouState>,
) -> ActionContext<'a> {
    ActionContext {
        action,
        snapshot,
        legal_actions: &[],
        our_seat: 0,
        last_kawa_tile: None,
        last_self_tsumo: None,
        self_riichi_accepted: false,
        num_players: 4,
        cfg: &CFG,
        delay_cfg: DelayModelConfig::default(),
        budget: None,
        think_ms: 900,
        tenhou: state,
    }
}

fn discard(pai: &str) -> MjaiEvent {
    MjaiEvent::Dahai {
        actor: 0,
        pai: s(pai),
        tsumogiri: false,
    }
}

/// A riichi plan, step by step.
#[test]
fn a_riichi_plan_step_by_step() {
    let st = open_state(&[0, 4, 8], OP_REACH);
    let action = MjaiEvent::Reach {
        actor: 0,
        pai: Some(s("2m")),
    };
    let snap = snapshot_fixture();
    let plan = TenhouAutoplay::default().plan(&context(&action, &snap, Some(&st)));
    assert_eq!(
        plan.steps,
        vec![
            Step::AwaitReady { timeout_ms: 8_000 },
            Step::Sleep { duration_ms: 900 },
            Step::DomClick {
                selectors: vec![s("[name=\"c22-2\"]")],
                label: s("riichi"),
            },
            Step::Sleep { duration_ms: 300 },
            Step::Discard { tile_index: 4 },
        ]
    );
}

/// No pause is pushed where none is asked for.
#[test]
fn an_instant_decision_has_no_pause() {
    let st = open_state(&[0, 4, 8], 0);
    let action = discard("3m");
    let snap = snapshot_fixture();
    let mut ctx = context(&action, &snap, Some(&st));
    ctx.think_ms = 0;
    assert_eq!(
        TenhouAutoplay::new().plan(&ctx).steps,
        vec![
            Step::AwaitReady { timeout_ms: 8_000 },
            Step::Discard { tile_index: 8 },
        ]
    );
    let mut steps = Vec::new();
    push_pre_delay(&mut steps, 0);
    assert!(steps.is_empty());
    push_pre_delay(&mut steps, 5);
    assert_eq!(steps, vec![Step::Sleep { duration_ms: 5 }]);
}

#[test]
fn nothing_is_planned_without_an_open_window() {
    let mut st = open_state(&[0, 4, 8], 0);
    let action = discard("3m");
    let snap = snapshot_fixture();
    assert_eq!(
        TenhouAutoplay::new().plan(&context(&action, &snap, None)),
        PlanResult::default()
    );
    st.window = None;
    assert!(TenhouAutoplay::new()
        .plan(&context(&action, &snap, Some(&st)))
        .steps
        .is_empty());
    assert!(delay_request(&context(&action, &snap, Some(&st))).is_none());
}

#[test]
fn an_accepted_riichi_leaves_the_discard_to_the_client() {
    let st = open_state(&[8, 9, 10, 11], OP_TSUMO);
    let snap = snapshot_fixture();
    let action = discard("3m");
    let mut ctx = context(&action, &snap, Some(&st));
    ctx.self_riichi_accepted = true;
    assert!(TenhouAutoplay::new().plan(&ctx).steps.is_empty());
    let win = MjaiEvent::Hora {
        actor: 0,
        target: 0,
        deltas: None,
        ura_markers: None,
    };
    ctx.action = &win;
    assert_eq!(
        TenhouAutoplay::new().plan(&ctx).steps[2],
        Step::DomClick {
            selectors: vec![s("[name=\"c22-0\"]")],
            label: s("tsumo"),
        }
    );
}

#[test]
fn only_a_claim_on_a_discard_is_declined() {
    let snap = snapshot_fixture();
    for (ops, pressed) in [(0, false), (OP_TSUMO, false), (OP_REACH, false), (OP_CHI, true)] {
        let st = open_state(&[0], ops);
        let plan = TenhouAutoplay::new().plan(&context(&MjaiEvent::Pass, &snap, Some(&st)));
        assert_eq!(!plan.steps.is_empty(), pressed, "{ops}");
    }
}

/// The tile a plan throws is the one the encoder's frame names.
#[test]
fn plan_and_encoder_name_the_same_copy() {
    let snap = snapshot_fixture();
    for pai in ["5m", "5mr", "1m"] {
        let st = open_state(&[0, 16, 17, 18], 0);
        let action = discard(pai);
        let plan = TenhouAutoplay::new().plan(&context(&action, &snap, Some(&st)));
        let Some(Step::Discard { tile_index }) = plan.steps.last() else {
            panic!("no discard: {:?}", plan.steps);
        };
        assert_eq!(
            client_frame(&action, st.hand_view()),
            Some(ClientFrame::Discard { p: *tile_index })
        );
    }
}

#[test]
fn events_that_are_not_decisions_plan_nothing() {
    let st = open_state(&[0], OP_CHI);
    let snap = snapshot_fixture();
    for action in [
        MjaiEvent::StartGame,
        MjaiEvent::EndKyoku,
        MjaiEvent::Dora,
        MjaiEvent::Tsumo {
            actor: 0,
            pai: s("1m"),
        },
    ] {
        assert_eq!(decision_kind(&action), None);
        let ctx = context(&action, &snap, Some(&st));
        assert!(TenhouAutoplay::new().plan(&ctx).steps.is_empty());
    }
    assert_eq!(decision_kind(&MjaiEvent::Pass), Some(DecisionKind::Pass));
    assert_eq!(decision_kind(&discard("1m")), Some(DecisionKind::Dahai));
}

/// A chi of tiles without a rank has no button, so nothing is planned.
#[test]
fn a_chi_of_honours_is_not_planned() {
    let st = open_state(&[0], OP_CHI);
    let snap = snapshot_fixture();
    let action = MjaiEvent::Chi {
        actor: 0,
        target: 3,
        pai: s("E"),
        consumed: [s("S"), s("W")],
    };
    assert_eq!(chi_slot("E", &[s("S"), s("W")]), None);
    assert!(button_for(&action, &st, false).is_none());
    let ctx = context(&action, &snap, Some(&st));
    assert!(TenhouAutoplay::new().plan(&ctx).steps.is_empty());
    assert!(delay_request(&ctx).is_none());
}

#[test]
fn ranks_of_odd_labels() {
    assert_eq!(rank(""), None);
    assert_eq!(rank("r"), None);
    assert_eq!(rank("5r"), None);
    assert_eq!(rank("0m"), None);
    assert_eq!(rank("3mx"), Some(3));
    assert_eq!(rank("5mrr"), Some(5));
    assert_eq!(rank("10m"), None);
    assert_eq!(rank("m5"), None);
    assert_eq!(rank("三m"), None);
}

#[test]
fn kan_candidates_in_the_order_of_the_client() {
    let mut st = hand(&[8, 9, 10, 11, 60, 100, 101, 102, 103, 5]);
    let pon = |tiles: Vec<u32>| Meld {
        kind: MeldKind::Pon,
        target_rel: 1,
        tiles,
        unused: None,
        r: None,
    };
    st.melds = vec![
        pon(vec![61, 62, 63]),
        pon(vec![120, 121, 122]),
        pon(Vec::new()),
        Meld {
            kind: MeldKind::Chi,
            ..pon(vec![4, 8, 12])
        },
        pon(vec![4, 6, 7]),
    ];
    assert_eq!(kan_candidates(&st), vec![15, 1, 2, 25]);
}

/// The fourth candidate is beyond the three slots, so the whole family is
/// tried.
#[test]
fn a_candidate_beyond_the_slots_falls_back_to_the_family() {
    let tiles: Vec<u32> = (0..16).collect();
    let st = hand(&tiles);
    let ankan = |pai: &str| MjaiEvent::Ankan {
        actor: 0,
        consumed: [s(pai), s(pai), s(pai), s(pai)],
    };
    assert_eq!(kan_slots(&ankan("3m"), &st, false), vec![12]);
    assert_eq!(kan_slots(&ankan("4m"), &st, false), vec![10, 11, 12]);
    assert_eq!(kan_slots(&ankan("4m"), &st, true), vec![10]);
    assert_eq!(kan_slots(&MjaiEvent::Pass, &st, false), vec![10, 11, 12]);
}

#[test]
fn pon_slots_by_redness() {
    assert_eq!(pon_slots(&[s("5m"), s("5m")]), vec![14, 15]);
    assert_eq!(pon_slots(&[s("5mr"), s("5m")]), vec![15]);
    assert!(is_red("5sr") && !is_red("5s"));
    assert_eq!(tile_class("5sr"), Some(22));
    assert_eq!(selectors_for(&[14, 15])[1], "[name=\"c22-15\"]");
}

fn seat(seat: u8, riichi_declared: bool, thrown: usize) -> PlayerSnapshot {
    PlayerSnapshot {
        seat,
        riichi_declared,
        river: vec![s("1m"); thrown],
    }
}

/// Everything a delay policy is told about a discard.
#[test]
fn a_discard_is_described_to_the_delay_policy() {
    let mut st = open_state(&[0, 4, 8], 0);
    st.is_tsumo = false;
    let snap = GameStateSnapshot {
        players: vec![seat(0, true, 6), seat(1, false, 6), seat(2, true, 5)],
    };
    let action = discard("3m");
    let legal = [
        LegalAction {
            action_type: ActionType::Discard,
        },
        LegalAction {
            action_type: ActionType::Riichi,
        },
    ];
    let mut ctx = context(&action, &snap, Some(&st));
    ctx.legal_actions = &legal;
    let input = delay_request(&ctx).unwrap();
    assert_eq!(
        input,
        DelayInput {
            kind: DecisionKind::Dahai,
            is_tsumogiri: false,
            is_post_call: true,
            first_action_of_kyoku: true,
            opening_animation: false,
            can_riichi: true,
            in_riichi: false,
            opponent_riichi: true,
            discarded: Some("3m"),
            junme: 7,
            legal_action_count: 2,
            budget: Some(BudgetSnapshot {
                fixed_ms: TURN_BASE_MS,
                add_ms: TURN_BANK_MS,
                elapsed_ms: 0,
            }),
            click_overhead_ms: 0,
            cfg: &CFG,
            delay_cfg: DelayModelConfig::default(),
            script_allowed: true,
        }
    );
}

/// Our own riichi is no opponent's, an unseated player has no turn count, and
/// the legacy mode allows neither a script nor another distribution.
#[test]
fn a_claim_is_described_to_the_delay_policy() {
    let st = open_state(&[0, 4, 8], OP_CHI);
    let snap = GameStateSnapshot {
        players: vec![seat(9, true, 0)],
    };
    let mut ctx = context(&MjaiEvent::Pass, &snap, Some(&st));
    ctx.our_seat = 9;
    ctx.last_kawa_tile = Some("1m");
    ctx.delay_cfg.mode = DelayMode::Legacy;
    let input = delay_request(&ctx).unwrap();
    assert_eq!(input.kind, DecisionKind::Pass);
    assert!(!input.is_tsumogiri && !input.is_post_call && !input.first_action_of_kyoku);
    assert!(!input.can_riichi && !input.opponent_riichi);
    assert_eq!(input.discarded, None);
    assert_eq!(input.junme, 0);
    assert_eq!(input.delay_cfg.distribution, DelayDistribution::Uniform);
    assert!(!input.script_allowed);
    ctx.tenhou = None;
    assert_eq!(delay_input(&ctx, DecisionKind::Chi).budget, None);
}

#[test]
fn a_resolved_tile_is_the_one_thrown() {
    let st = open_state(&[19, 17], 0);
    assert_eq!(tile_index_for(&st, "5m", true), Some(17));
    assert_eq!(tile_index_for(&st, "5m", false), Some(19));
    assert_eq!(tile_index_for(&st, "E", false), None);
}

/// A manager holds the planner behind the trait.
#[test]
fn a_planner_can_be_held_behind_the_trait() {
    let planner: Arc<dyn PlatformAutoplay> = Arc::new(TenhouAutoplay::new());
    let st = open_state(&[0], 0);
    let action = discard("1m");
    let snap = snapshot_fixture();
    let plan = planner.plan(&context(&action, &snap, Some(&st)));
    assert_eq!(plan.steps.last(), Some(&Step::Discard { tile_index: 0 }));
}

/// The script decides where it may and does.
#[test]
fn the_script_is_preferred_where_it_may_decide() {
    let st = open_state(&[0], OP_CHI);
    let snap = snapshot_fixture();
    let mut ctx = context(&MjaiEvent::Pass, &snap, Some(&st));
    let input = delay_request(&ctx).unwrap();
    assert_eq!(total_target(&input, Some(7), 9), 7);
    assert_eq!(total_target(&input, None, 9), 9);
    assert!(!needs_built_in(&input, Some(7)) && needs_built_in(&input, None));
    ctx.delay_cfg.mode = DelayMode::Legacy;
    let legacy = delay_request(&ctx).unwrap();
    assert_eq!(total_target(&legacy, Some(7), 9), 9);
    assert!(needs_built_in(&legacy, Some(7)));
}

/// Each way to end up without a plan has its own reason.
#[test]
fn an_empty_plan_has_a_reason() {
    let snap = snapshot_fixture();
    let open = open_state(&[0, 4, 8], 0);
    let mut closed = open_state(&[0, 4, 8], 0);
    closed.window = None;
    let held = discard("1m");
    let reason = |action: &MjaiEvent, state: Option<&TenhouState>, in_riichi: bool| {
        let mut ctx = context(action, &snap, state);
        ctx.self_riichi_accepted = in_riichi;
        let reason = skip_reason(&ctx);
        let plan = TenhouAutoplay::new().plan(&ctx);
        assert_eq!(plan.steps.is_empty(), reason.is_some());
        reason
    };
    let reach = |pai: Option<&str>| MjaiEvent::Reach {
        actor: 0,
        pai: pai.map(s),
    };
    let honours = MjaiEvent::Chi {
        actor: 0,
        target: 3,
        pai: s("E"),
        consumed: [s("S"), s("W")],
    };
    assert_eq!(reason(&held, Some(&open), false), None);
    assert_eq!(reason(&held, None, false), Some(SkipReason::NoState));
    assert_eq!(reason(&held, Some(&closed), false), Some(SkipReason::NoWindow));
    assert_eq!(
        reason(&MjaiEvent::Dora, Some(&open), false),
        Some(SkipReason::NotADecision)
    );
    assert_eq!(
        reason(&held, Some(&open), true),
        Some(SkipReason::RiichiAccepted)
    );
    assert_eq!(
        reason(&MjaiEvent::Pass, Some(&open), false),
        Some(SkipReason::NothingToDecline)
    );
    assert_eq!(
        reason(&reach(None), Some(&open), false),
        Some(SkipReason::RiichiWithoutTile)
    );
    assert_eq!(
        reason(&reach(Some("9s")), Some(&open), false),
        Some(SkipReason::RiichiTileNotHeld)
    );
    assert_eq!(
        reason(&discard("9s"), Some(&open), false),
        Some(SkipReason::DiscardNotHeld)
    );
    assert_eq!(
        reason(&honours, Some(&open), false),
        Some(SkipReason::NoButton)
    );
}
