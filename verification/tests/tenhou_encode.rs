//! mjai actions as Tenhou client frames.

use akagi::bridge::label::tile_type;
use akagi::bridge::tenhou::encode::{
    client_frame, dahai_index, encode, render_frame, take_indices, take_one, tile_class_public,
    ClientFrame, HandView,
};
use akagi::bridge::tenhou::meld::{Meld, MeldKind};
use akagi::bridge::tenhou::tile::tenhou_to_mjai_one;
use akagi::schema::MjaiEvent;

fn view<'a>(hand: &'a [u32], melds: &'a [Meld]) -> HandView<'a> {
    HandView {
        hand,
        melds,
        is_tsumo: false,
    }
}

fn s(v: &str) -> String {
    v.to_string()
}

#[test]
fn tile_type_covers_suits_honors_and_reds() {
    assert_eq!(tile_type("1m"), Some((0, false)));
    assert_eq!(tile_type("9m"), Some((8, false)));
    assert_eq!(tile_type("1p"), Some((9, false)));
    assert_eq!(tile_type("1s"), Some((18, false)));
    assert_eq!(tile_type("E"), Some((27, false)));
    assert_eq!(tile_type("C"), Some((33, false)));
    assert_eq!(tile_type("5mr"), Some((4, true)));
    assert_eq!(tile_type("5pr"), Some((13, true)));
    assert_eq!(tile_type("5sr"), Some((22, true)));
    // Only fives are red; anything else is malformed.
    assert_eq!(tile_type("4mr"), None);
    assert_eq!(tile_type("?"), None);
    assert_eq!(tile_type("10m"), None);
}

#[test]
fn dahai_names_the_physical_tile() {
    let hand = [0, 4, 8];
    let ev = MjaiEvent::Dahai {
        actor: 0,
        pai: s("2m"),
        tsumogiri: false,
    };
    assert_eq!(
        encode(&ev, view(&hand, &[])).unwrap(),
        r#"{"p":4,"tag":"D"}"#
    );
}

/// A plain five must never resolve to the red copy while a plain one is
/// held, and asking for the red must return exactly index 16.
#[test]
fn plain_five_prefers_non_red_copy() {
    let hand = [16, 17, 18];
    let plain = MjaiEvent::Dahai {
        actor: 0,
        pai: s("5m"),
        tsumogiri: false,
    };
    assert_eq!(
        encode(&plain, view(&hand, &[])).unwrap(),
        r#"{"p":18,"tag":"D"}"#
    );
    let red = MjaiEvent::Dahai {
        actor: 0,
        pai: s("5mr"),
        tsumogiri: false,
    };
    assert_eq!(
        encode(&red, view(&hand, &[])).unwrap(),
        r#"{"p":16,"tag":"D"}"#
    );
}

/// Holding only the red five, a request for a plain 5m can only mean that
/// tile — bots that normalise reds away name it this way. Falling back is
/// unambiguous here precisely because no plain copy exists.
#[test]
fn plain_five_falls_back_to_red_when_it_is_the_only_copy() {
    let hand = [16];
    let ev = MjaiEvent::Dahai {
        actor: 0,
        pai: s("5m"),
        tsumogiri: false,
    };
    assert_eq!(
        encode(&ev, view(&hand, &[])).unwrap(),
        r#"{"p":16,"tag":"D"}"#
    );
    // The fallback must not fire while an exact match exists.
    let both = [16, 17];
    assert_eq!(
        encode(&ev, view(&both, &[])).unwrap(),
        r#"{"p":17,"tag":"D"}"#,
        "a plain copy is held, so the red must be left alone"
    );
}

/// The reverse direction: a red named while only plain copies are held.
#[test]
fn red_five_falls_back_to_plain_when_no_red_is_held() {
    let hand = [17, 18];
    let ev = MjaiEvent::Dahai {
        actor: 0,
        pai: s("5mr"),
        tsumogiri: false,
    };
    assert_eq!(
        encode(&ev, view(&hand, &[])).unwrap(),
        r#"{"p":18,"tag":"D"}"#
    );
}

/// The fallback is per tile *type* only — a tile we do not hold at all
/// still refuses.
#[test]
fn fallback_never_crosses_tile_types() {
    let hand = [16, 17];
    let ev = MjaiEvent::Dahai {
        actor: 0,
        pai: s("6m"),
        tsumogiri: false,
    };
    assert!(encode(&ev, view(&hand, &[])).is_none());
}

/// Regression: with two identical copies in hand, a tsumogiri must name
/// the drawn copy — the tail — even when the other copy ranks first in
/// the ordinary lookup. Tenhou reads the tedashi/tsumogiri display off
/// the index, so the wrong copy shows opponents a tedashi that never
/// happened.
#[test]
fn tsumogiri_of_a_duplicated_tile_names_the_drawn_copy() {
    // Two plain 5m; index 17 was drawn last, 19 ranks first in take_one.
    let hand = [19, 17];
    let v = HandView {
        hand: &hand,
        melds: &[],
        is_tsumo: true,
    };
    assert_eq!(dahai_index(v, "5m", true), Some(17));
    // A tedashi of the same label keeps the ordinary ranking.
    assert_eq!(dahai_index(v, "5m", false), Some(19));
}

#[test]
fn tsumogiri_sends_the_drawn_tile() {
    // Two 1m in hand; the drawn one is the tail (index 1).
    let hand = [0, 4, 1];
    let ev = MjaiEvent::Dahai {
        actor: 0,
        pai: s("1m"),
        tsumogiri: true,
    };
    let v = HandView {
        hand: &hand,
        melds: &[],
        is_tsumo: true,
    };
    assert_eq!(encode(&ev, v).unwrap(), r#"{"p":1,"tag":"D"}"#);
}

/// Resolving each label against the untouched hand would return the same
/// index twice for a pon of two identical plain tiles.
#[test]
fn pon_of_identical_tiles_uses_two_distinct_indices() {
    let hand = [4, 5, 6];
    let ev = MjaiEvent::Pon {
        actor: 0,
        target: 3,
        pai: s("2m"),
        consumed: [s("2m"), s("2m")],
    };
    let out = encode(&ev, view(&hand, &[])).unwrap();
    assert_eq!(out, r#"{"hai0":6,"hai1":5,"tag":"N","type":1}"#);
}

#[test]
fn pon_with_red_five_keeps_both_copies_distinct() {
    let hand = [16, 17, 18];
    let ev = MjaiEvent::Pon {
        actor: 0,
        target: 2,
        pai: s("5m"),
        consumed: [s("5m"), s("5mr")],
    };
    assert_eq!(
        encode(&ev, view(&hand, &[])).unwrap(),
        r#"{"hai0":18,"hai1":16,"tag":"N","type":1}"#
    );
}

#[test]
fn chi_encodes_both_consumed_tiles() {
    // 3m (index 8) + 4m (index 12) to call a 2m.
    let hand = [8, 12, 20];
    let ev = MjaiEvent::Chi {
        actor: 0,
        target: 3,
        pai: s("2m"),
        consumed: [s("3m"), s("4m")],
    };
    assert_eq!(
        encode(&ev, view(&hand, &[])).unwrap(),
        r#"{"hai0":8,"hai1":12,"tag":"N","type":3}"#
    );
}

#[test]
fn daiminkan_carries_no_tile() {
    let hand = [0, 1, 2];
    let ev = MjaiEvent::Daiminkan {
        actor: 0,
        target: 1,
        pai: s("1m"),
        consumed: [s("1m"), s("1m"), s("1m")],
    };
    assert_eq!(
        encode(&ev, view(&hand, &[])).unwrap(),
        r#"{"tag":"N","type":2}"#
    );
}

#[test]
fn ankan_names_the_tile_type_not_a_copy() {
    // Four 5m including the red at 16 — the frame must say 16 (type * 4)
    // regardless of which copy `consumed[0]` names.
    let hand = [16, 17, 18, 19];
    let ev = MjaiEvent::Ankan {
        actor: 0,
        consumed: [s("5mr"), s("5m"), s("5m"), s("5m")],
    };
    assert_eq!(
        encode(&ev, view(&hand, &[])).unwrap(),
        r#"{"hai":16,"tag":"N","type":4}"#
    );
}

#[test]
fn kakan_requires_the_matching_pon() {
    let hand = [19];
    let pon = Meld {
        kind: MeldKind::Pon,
        target_rel: 1,
        tiles: vec![16, 17, 18],
        unused: None,
        r: Some(0),
    };
    let ev = MjaiEvent::Kakan {
        actor: 0,
        pai: s("5m"),
        consumed: [s("5mr"), s("5m"), s("5m")],
    };
    assert_eq!(
        encode(&ev, view(&hand, std::slice::from_ref(&pon))).unwrap(),
        r#"{"hai":19,"tag":"N","type":5}"#
    );
    // Same hand, no pon of that type tracked → refuse.
    assert!(encode(&ev, view(&hand, &[])).is_none());
}

#[test]
fn hora_splits_tsumo_and_ron() {
    let tsumo = MjaiEvent::Hora {
        actor: 1,
        target: 1,
        deltas: None,
        ura_markers: None,
    };
    assert_eq!(
        encode(&tsumo, view(&[], &[])).unwrap(),
        r#"{"tag":"N","type":7}"#
    );
    let ron = MjaiEvent::Hora {
        actor: 1,
        target: 2,
        deltas: None,
        ura_markers: None,
    };
    assert_eq!(
        encode(&ron, view(&[], &[])).unwrap(),
        r#"{"tag":"N","type":6}"#
    );
}

#[test]
fn simple_declarations() {
    assert_eq!(
        encode(
            &MjaiEvent::Reach {
                actor: 0,
                pai: None
            },
            view(&[], &[])
        )
        .unwrap(),
        r#"{"tag":"REACH"}"#
    );
    assert_eq!(
        encode(&MjaiEvent::Ryukyoku { deltas: None }, view(&[], &[])).unwrap(),
        r#"{"tag":"N","type":9}"#
    );
    assert_eq!(
        encode(
            &MjaiEvent::Kita {
                actor: 0,
                pai: Some(s("N"))
            },
            view(&[], &[])
        )
        .unwrap(),
        r#"{"tag":"N","type":10}"#
    );
    assert_eq!(
        encode(&MjaiEvent::Pass, view(&[], &[])).unwrap(),
        r#"{"tag":"N"}"#
    );
}

/// Observation-only events have no client frame.
#[test]
fn bridge_only_events_encode_to_nothing() {
    assert!(encode(
        &MjaiEvent::Tsumo {
            actor: 0,
            pai: s("1m")
        },
        view(&[], &[])
    )
    .is_none());
    assert!(encode(&MjaiEvent::EndKyoku, view(&[], &[])).is_none());
    assert!(encode(&MjaiEvent::ReachAccepted { actor: 0 }, view(&[], &[])).is_none());
}

/// A tile the bot names but we do not hold means our tracked hand is out
/// of sync; refuse rather than send a wrong index.
#[test]
fn unknown_tile_refuses_to_encode() {
    let hand = [0, 4];
    let ev = MjaiEvent::Dahai {
        actor: 0,
        pai: s("9s"),
        tsumogiri: false,
    };
    assert!(encode(&ev, view(&hand, &[])).is_none());
}

#[test]
fn red_copies_are_the_first_of_their_type() {
    assert_eq!(tenhou_to_mjai_one(16), "5mr");
    assert_eq!(tenhou_to_mjai_one(52), "5pr");
    assert_eq!(tenhou_to_mjai_one(88), "5sr");
    assert_eq!(tenhou_to_mjai_one(17), "5m");
    assert_eq!(tenhou_to_mjai_one(135), "C");
    assert_eq!(tenhou_to_mjai_one(136), "?");
}

/// Every index carries the label of its own type and redness.
#[test]
fn index_labels_read_back() {
    for index in 0..136u32 {
        let red = index == 16 || index == 52 || index == 88;
        assert_eq!(
            tile_type(tenhou_to_mjai_one(index)),
            Some((index / 4, red)),
            "{index}"
        );
    }
}

#[test]
fn classes_ignore_redness() {
    assert_eq!(tile_class_public("5mr"), Some(4));
    assert_eq!(tile_class_public("5m"), Some(4));
    assert_eq!(tile_class_public("C"), Some(33));
    assert_eq!(tile_class_public("x"), None);
}

/// A tsumogiri of another tile than the drawn one falls back to the lookup.
#[test]
fn tsumogiri_of_a_held_tile_uses_the_lookup() {
    let hand = [19, 17, 0];
    let v = HandView {
        hand: &hand,
        melds: &[],
        is_tsumo: true,
    };
    assert_eq!(dahai_index(v, "5m", true), Some(19));
    assert_eq!(dahai_index(v, "9s", true), None);
    assert_eq!(dahai_index(view(&[], &[]), "5m", true), None);
}

/// Each label takes its copy out of the pool before the next is looked up.
#[test]
fn repeated_labels_consume_distinct_copies() {
    let mut pool = vec![4, 6, 5, 8];
    assert_eq!(take_one(&mut pool, "2m"), Some(6));
    assert_eq!(pool, vec![4, 5, 8]);
    assert_eq!(take_one(&mut pool, "9m"), None);
    assert_eq!(pool, vec![4, 5, 8]);
    let labels = [s("2m"), s("2m"), s("2m")];
    assert_eq!(take_indices(&[4, 6, 5, 8], &labels), Some(vec![6, 5, 4]));
    assert_eq!(take_indices(&[4, 6, 8], &labels), None);
}

#[test]
fn a_frame_names_what_it_declares() {
    let ev = MjaiEvent::Dahai {
        actor: 0,
        pai: s("2m"),
        tsumogiri: false,
    };
    assert_eq!(
        client_frame(&ev, view(&[4], &[])),
        Some(ClientFrame::Discard { p: 4 })
    );
    assert_eq!(
        render_frame(ClientFrame::DeclareTile { kind: 5, hai: 135 }),
        r#"{"hai":135,"tag":"N","type":5}"#
    );
}

/// A call needs both of its tiles; a declaration without tiles needs none.
#[test]
fn an_action_is_refused_only_over_its_tiles() {
    let chi = MjaiEvent::Chi {
        actor: 0,
        target: 3,
        pai: s("2m"),
        consumed: [s("3m"), s("4m")],
    };
    assert!(encode(&chi, view(&[8], &[])).is_none());
    assert!(encode(&chi, view(&[8, 13], &[])).is_some());
    let ankan = MjaiEvent::Ankan {
        actor: 0,
        consumed: [s("E"), s("E"), s("E"), s("E")],
    };
    assert!(encode(&ankan, view(&[8], &[])).is_none());
    assert!(encode(&ankan, view(&[110], &[])).is_some());
    assert!(encode(&MjaiEvent::Pass, view(&[], &[])).is_some());
}

/// Only a tsumogiri after a draw looks at the order of the hand.
#[test]
fn the_order_of_the_hand_matters_only_to_a_tsumogiri() {
    let sorted = [16, 17, 18, 19];
    let shuffled = [18, 16, 19, 17];
    let drawn = |hand: &[u32], tsumogiri: bool| {
        let v = HandView {
            hand,
            melds: &[],
            is_tsumo: true,
        };
        dahai_index(v, "5m", tsumogiri)
    };
    assert_eq!(drawn(&sorted, false), drawn(&shuffled, false));
    assert_eq!(drawn(&sorted, true), Some(19));
    assert_eq!(drawn(&shuffled, true), Some(17));
    let pon = MjaiEvent::Pon {
        actor: 0,
        target: 2,
        pai: s("5m"),
        consumed: [s("5m"), s("5mr")],
    };
    assert_eq!(
        encode(&pon, view(&sorted, &[])),
        encode(&pon, view(&shuffled, &[]))
    );
}
