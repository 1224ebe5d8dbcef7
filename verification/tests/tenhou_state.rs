//! Decision windows.

use akagi::autoplay::tenhou_state::{
    new_shared, saturate_ms, DecisionWindow, TenhouState, OP_CHI, OP_DAIMINKAN, OP_KYUUSHU, OP_PON,
    OP_REACH, OP_RON, OP_TSUMO,
};
use std::time::{Duration, Instant};

fn window(ops: u32) -> DecisionWindow {
    DecisionWindow {
        ops,
        opened_at: Instant::now(),
    }
}

#[test]
fn claim_bits_decode_independently() {
    let w = window(OP_PON | OP_CHI);
    assert!(w.allows(OP_PON));
    assert!(w.allows(OP_CHI));
    assert!(!w.allows(OP_DAIMINKAN));
    assert!(!w.allows(OP_RON));
    assert!(w.has_claim());
}

/// Own-turn bits live above the claim bits and must not alias them.
#[test]
fn draw_bits_do_not_alias_claim_bits() {
    let w = window(OP_TSUMO | OP_REACH | OP_KYUUSHU);
    assert!(w.allows(OP_TSUMO));
    assert!(w.allows(OP_REACH));
    assert!(w.allows(OP_KYUUSHU));
    assert!(!w.allows(OP_PON));
    assert!(!w.allows(OP_CHI));
    assert!(!w.allows(OP_DAIMINKAN));
    assert!(!w.allows(OP_RON));
}

/// A window that only owes a discard has nothing to decline.
#[test]
fn zero_ops_window_has_no_claim() {
    assert!(!window(0).has_claim());
    assert!(!window(0).has_declinable_claim());
}

/// Own-turn offers are not declinable: declining one is just discarding,
/// and the client draws no pass button for them.
#[test]
fn own_turn_offers_are_not_declinable() {
    for ops in [
        OP_TSUMO,
        OP_REACH,
        OP_KYUUSHU,
        OP_TSUMO | OP_REACH | OP_KYUUSHU,
    ] {
        let w = window(ops);
        assert!(w.has_claim(), "still an offer");
        assert!(!w.has_declinable_claim(), "but not one to decline: {ops}");
    }
}

/// Claims on another seat's discard are.
#[test]
fn claims_on_a_discard_are_declinable() {
    for ops in [OP_PON, OP_CHI, OP_DAIMINKAN, OP_RON, OP_CHI | OP_RON] {
        assert!(window(ops).has_declinable_claim(), "{ops}");
    }
}

#[test]
fn milliseconds_saturate_at_32_bits() {
    assert_eq!(saturate_ms(0), 0);
    assert_eq!(saturate_ms(1_500), 1_500);
    assert_eq!(saturate_ms(u32::MAX as u128), u32::MAX);
    assert_eq!(saturate_ms(u32::MAX as u128 + 1), u32::MAX);
}

#[test]
fn a_fresh_window_has_hardly_elapsed() {
    assert!(window(0).elapsed_ms() < 10_000);
}

#[test]
fn a_fresh_slot_is_empty() {
    let slot = new_shared();
    assert!(slot.read().unwrap().is_none());
    *slot.write().unwrap() = Some(TenhouState::default());
    assert!(slot.read().unwrap().is_some());
}

#[test]
fn the_default_state_holds_nothing() {
    let state = TenhouState::default();
    assert_eq!(state.seat, 0);
    assert!(state.hand.is_empty() && state.melds.is_empty());
    assert!(!state.is_tsumo && state.window.is_none());
}

#[test]
fn the_hand_view_borrows_the_hand() {
    let state = TenhouState {
        hand: vec![3, 1, 2],
        is_tsumo: true,
        ..TenhouState::default()
    };
    let view = state.hand_view();
    assert_eq!(view.hand, [3, 1, 2]);
    assert!(view.melds.is_empty());
    assert!(view.is_tsumo);
}

#[test]
fn elapsed_time_is_measured_from_the_opening() {
    let w = window(0);
    let later = w.opened_at + Duration::from_millis(1_234);
    assert_eq!(w.elapsed_ms_at(later), 1_234);
    assert_eq!(w.elapsed_ms_at(w.opened_at), 0);
    let much_later = w.opened_at + Duration::from_millis(u32::MAX as u64 + 5);
    assert_eq!(w.elapsed_ms_at(much_later), u32::MAX);
}

/// A later moment gives no less, and one before the opening gives zero.
#[test]
fn elapsed_time_never_shrinks() {
    let w = window(0);
    let mut last = 0;
    for us in [0u64, 999, 1_000, 1_999, 1_500_000, 1_500_001] {
        let ms = w.elapsed_ms_at(w.opened_at + Duration::from_micros(us));
        assert_eq!(ms as u64, us / 1_000);
        assert!(ms >= last);
        last = ms;
    }
    let early = DecisionWindow {
        ops: 0,
        opened_at: w.opened_at + Duration::from_secs(60),
    };
    assert_eq!(early.elapsed_ms_at(w.opened_at), 0);
}
