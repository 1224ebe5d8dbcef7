//! Which menu buttons perform an action.

use crate::autoplay::menu;
use crate::autoplay::platform;
use crate::autoplay::tenhou_state::TenhouState;
use crate::bridge::label;
use crate::bridge::tenhou::encode;
use crate::bridge::tenhou::meld::{Meld, MeldKind};
use crate::schema::MjaiEvent;
use crate::text;
use vstd::prelude::*;

verus! {

/// Whether a label is that of a red five.
pub open spec fn red_five(label: Seq<char>) -> bool {
    label == "5mr"@ || label == "5pr"@ || label == "5sr"@
}

/// The rank a number tile's label states: the digit in `1..=9` that the label
/// starts with, where a suit follows it. One trailing `r` is dropped first,
/// and nothing behind the suit is looked at.
pub open spec fn rank_of(label: Seq<char>) -> Option<u32> {
    let body = if label.len() > 0 && label.last() == 'r' {
        label.drop_last()
    } else {
        label
    };
    if body.len() >= 2 && '1' <= body[0] <= '9' && (body[1] == 'm' || body[1] == 'p' || body[1]
        == 's') {
        Some((body[0] as u32 - '0' as u32) as u32)
    } else {
        None
    }
}

/// Whether one of the consumed tiles is a red five.
pub open spec fn spends_red(consumed: Seq<String>) -> bool {
    red_five(consumed[0]@) || red_five(consumed[1]@)
}

/// The slot of a chi: by where the called tile lies beside the consumed pair,
/// one lower where the pair spends a red five.
pub open spec fn chi_slot_of(pai: Seq<char>, consumed: Seq<String>) -> Option<u8> {
    match (rank_of(pai), rank_of(consumed[0]@), rank_of(consumed[1]@)) {
        (Some(called), Some(a), Some(b)) => {
            let plain: int = if called < a && called < b {
                menu::CHI_FIRST + 1
            } else if called > a && called > b {
                menu::CHI_FIRST + 5
            } else {
                menu::CHI_FIRST + 3
            };
            Some(
                (if spends_red(consumed) {
                    plain - 1
                } else {
                    plain
                }) as u8,
            )
        },
        _ => None,
    }
}

/// The slots of a pon, in preference order.
pub open spec fn pon_slots_of(consumed: Seq<String>) -> Seq<u8> {
    if spends_red(consumed) {
        seq![menu::PON]
    } else {
        seq![menu::PON_KEEP_RED, menu::PON]
    }
}

/// How many tiles of a class a hand holds.
pub open spec fn copies(hand: Seq<u32>, class: int) -> nat
    decreases hand.len(),
{
    if hand.len() == 0 {
        0
    } else {
        copies(hand.drop_last(), class) + if hand.last() / 4 == class {
            1nat
        } else {
            0
        }
    }
}

/// Whether a meld is a pon that a tile of the hand can be added to.
pub open spec fn extends(hand: Seq<u32>, meld: Meld) -> bool {
    &&& meld.kind == MeldKind::Pon
    &&& meld.tiles@.len() > 0
    &&& exists|i: int| 0 <= i < hand.len() && (#[trigger] hand[i]) / 4 == meld.tiles@[0] / 4
}

/// The classes a kakan is offered for, in the order the melds were called.
pub open spec fn kakan_classes(hand: Seq<u32>, melds: Seq<Meld>) -> Seq<u32>
    decreases melds.len(),
{
    if melds.len() == 0 {
        seq![]
    } else {
        let earlier = kakan_classes(hand, melds.drop_last());
        if extends(hand, melds.last()) {
            earlier.push(melds.last().tiles@[0] / 4)
        } else {
            earlier
        }
    }
}

/// The classes below `bound` of which the hand holds all four copies,
/// ascending.
pub open spec fn ankan_classes(hand: Seq<u32>, bound: nat) -> Seq<u32>
    decreases bound,
{
    if bound == 0 {
        seq![]
    } else {
        let lower = ankan_classes(hand, (bound - 1) as nat);
        if copies(hand, bound - 1) == 4 {
            lower.push((bound - 1) as u32)
        } else {
            lower
        }
    }
}

/// The classes a kan is offered for, in the order the client offers them.
pub open spec fn kan_order(hand: Seq<u32>, melds: Seq<Meld>) -> Seq<u32> {
    kakan_classes(hand, melds) + ankan_classes(hand, 34)
}

/// The class a kan of the own turn is of.
pub open spec fn kan_class(action: MjaiEvent) -> Option<nat> {
    match action {
        MjaiEvent::Ankan { consumed, .. } => encode::class_of(consumed@[0]@),
        MjaiEvent::Kakan { pai, .. } => encode::class_of(pai@),
        _ => None,
    }
}

/// The slots of a kan of the own turn, in preference order.
pub open spec fn kan_slots_of(
    action: MjaiEvent,
    hand: Seq<u32>,
    melds: Seq<Meld>,
    in_riichi: bool,
) -> Seq<u8> {
    let family = seq![menu::KAN_FIRST, 11u8, 12u8];
    if in_riichi {
        seq![menu::KAN_FIRST]
    } else {
        match kan_class(action) {
            Some(class) => match kan_order(hand, melds).index_of_first(class as u32) {
                Some(i) => if i < 3 {
                    seq![family[i]]
                } else {
                    family
                },
                None => family,
            },
            None => family,
        }
    }
}

/// The slots of the buttons that perform an action, in preference order.
pub open spec fn slots_of(
    action: MjaiEvent,
    hand: Seq<u32>,
    melds: Seq<Meld>,
    in_riichi: bool,
) -> Option<Seq<u8>> {
    match action {
        MjaiEvent::Reach { .. } => Some(seq![menu::RIICHI]),
        MjaiEvent::Hora { actor, target, .. } => Some(
            seq![
                if actor == target {
                    menu::TSUMO_AGARI
                } else {
                    menu::RON
                },
            ],
        ),
        MjaiEvent::Ryukyoku { .. } => Some(seq![menu::KYUUSHU]),
        MjaiEvent::Pass => Some(seq![menu::PASS]),
        MjaiEvent::Daiminkan { .. } => Some(seq![menu::DAIMINKAN]),
        MjaiEvent::Pon { consumed, .. } => Some(pon_slots_of(consumed@)),
        MjaiEvent::Chi { pai, consumed, .. } => match chi_slot_of(pai@, consumed@) {
            Some(slot) => Some(seq![slot]),
            None => None,
        },
        MjaiEvent::Ankan { .. } | MjaiEvent::Kakan { .. } => Some(
            kan_slots_of(action, hand, melds, in_riichi),
        ),
        MjaiEvent::Kita { .. } => Some(seq![menu::KITA_FIRST, 6u8, 7u8, 8u8, 9u8]),
        _ => None,
    }
}

/// What the log calls the button of an action.
pub open spec fn button_label(action: MjaiEvent) -> Seq<char> {
    match action {
        MjaiEvent::Reach { .. } => "riichi"@,
        MjaiEvent::Hora { actor, target, .. } => if actor == target {
            "tsumo"@
        } else {
            "ron"@
        },
        MjaiEvent::Ryukyoku { .. } => "kyuushu"@,
        MjaiEvent::Pass => "pass"@,
        MjaiEvent::Daiminkan { .. } => "daiminkan"@,
        MjaiEvent::Pon { .. } => "pon"@,
        MjaiEvent::Chi { .. } => "chi"@,
        MjaiEvent::Ankan { .. } | MjaiEvent::Kakan { .. } => "kan"@,
        MjaiEvent::Kita { .. } => "kita"@,
        _ => ""@,
    }
}

/// The selectors of a list of slots.
pub open spec fn selectors_of(slots: Seq<u8>) -> Seq<Seq<char>> {
    slots.map_values(|slot: u8| menu::selector(slot))
}

/// Is this mjai tile a red five?
pub fn is_red(pai: &str) -> (r: bool)
    ensures
        r == red_five(pai@),
{
    text::same_text(pai, "5mr") || text::same_text(pai, "5pr") || text::same_text(pai, "5sr")
}

/// Rank of an mjai number tile within its suit (`1..=9`), honours excluded.
/// The digit and the suit decide; what stands behind them is not looked at.
pub fn rank(pai: &str) -> (r: Option<u32>)
    ensures
        r == rank_of(pai@),
        r matches Some(rank) ==> 1 <= rank <= 9,
{
    let len: usize = pai.unicode_len();
    let body_len: usize = if len > 0 && pai.get_char(len - 1) == 'r' {
        len - 1
    } else {
        len
    };
    if body_len < 2 {
        return None;
    }
    let digit = pai.get_char(0);
    let suit = pai.get_char(1);
    if '1' <= digit && digit <= '9' && (suit == 'm' || suit == 'p' || suit == 's') {
        Some(digit as u32 - '0' as u32)
    } else {
        None
    }
}

/// Whether one of the consumed tiles is a red five.
fn consumes_red(consumed: &[String; 2]) -> (r: bool)
    ensures
        r == spends_red(consumed@),
{
    is_red(consumed[0].as_str()) || is_red(consumed[1].as_str())
}

/// Menu slot for a chi.
///
/// Read off the client's menu builder, which walks the three shapes for each
/// of three "which tile is red" cases:
///
/// ```js
/// for(n=0;3>n;++n){ p=(n&1)<<8; q=(n&2)<<7;
///   (h=b[p|cls-2])&&(a=b[q|cls-1])&&f(n?20:21,h[0],a[0]);   // called tile highest
///   (h=b[p|cls-1])&&(a=b[q|cls+1])&&f(n?18:19,h[0],a[0]);   // called tile middle
///   (h=b[p|cls+1])&&(a=b[q|cls+2])&&f(n?16:17,h[0],a[0]); } // called tile lowest
/// ```
///
/// So the odd slot of each pair is the shape made of plain copies and the
/// even one below it is the same shape spending a red five. Either can exist
/// without the other — holding only `5mr`, a `4m` chi is drawn at the even
/// slot alone — so this resolves to exactly one slot and never falls back.
pub fn chi_slot(pai: &str, consumed: &[String; 2]) -> (r: Option<u8>)
    ensures
        r == chi_slot_of(pai@, consumed@),
{
    match (rank(pai), rank(consumed[0].as_str()), rank(consumed[1].as_str())) {
        (Some(called), Some(a), Some(b)) => {
            let (lo, hi): (u32, u32) = if a <= b {
                (a, b)
            } else {
                (b, a)
            };
            let plain: u8 = if called < lo {
                menu::CHI_FIRST + 1  // called tile lowest
            } else if called > hi {
                menu::CHI_FIRST + 5  // called tile highest
            } else {
                menu::CHI_FIRST + 3  // called tile in the middle
            };
            if consumes_red(consumed) {
                Some(plain - 1)
            } else {
                Some(plain)
            }
        },
        _ => None,
    }
}

/// Menu slots for a pon, in preference order.
///
/// The client draws at most two, and they are not "plain" and "red":
///
/// ```js
/// d&1&&(1==a.length&&2==h.length ? (f(14,h[0],h[1]),f(15,a[0],h[0]))  // keep red / spend it
///     : 2<=h.length ? f(15,h[0],h[1])                                  // two plain copies
///     : 1==a.length&&1==h.length && f(15,a[0],h[0]))                   // forced onto the red
/// ```
///
/// Slot 15 is always drawn and takes the red five whenever the hand holds
/// one. Slot 14 exists only when there is a choice — one red and two plain
/// copies — and it is the pair that leaves the red out.
///
/// So a pon that spends a red asks for 15 alone. One that does not asks for
/// 14 first and settles for 15, which is the same pon whenever 14 was not
/// drawn.
pub fn pon_slots(consumed: &[String; 2]) -> (r: Vec<u8>)
    ensures
        r@ == pon_slots_of(consumed@),
{
    if consumes_red(consumed) {
        vec![menu::PON]
    } else {
        vec![menu::PON_KEEP_RED, menu::PON]
    }
}

/// Whether the hand holds a tile of the class.
fn holds_class(hand: &Vec<u32>, class: u32) -> (r: bool)
    ensures
        r == exists|i: int| 0 <= i < hand@.len() && (#[trigger] hand@[i]) / 4 == class,
{
    let mut i: usize = 0;
    while i < hand.len()
        invariant
            i <= hand.len(),
            forall|k: int| 0 <= k < i ==> (#[trigger] hand@[k]) / 4 != class,
        decreases hand.len() - i,
    {
        if hand[i] / 4 == class {
            assert(hand@[i as int] / 4 == class);
            return true;
        }
        i += 1;
    }
    false
}

/// How many tiles of the class the hand holds.
fn count_class(hand: &Vec<u32>, class: u32) -> (r: usize)
    ensures
        r == copies(hand@, class as int),
{
    let mut n: usize = 0;
    let mut i: usize = 0;
    while i < hand.len()
        invariant
            i <= hand.len(),
            n <= i,
            n == copies(hand@.take(i as int), class as int),
        decreases hand.len() - i,
    {
        assert(hand@.take(i + 1).drop_last() =~= hand@.take(i as int));
        if hand[i] / 4 == class {
            n += 1;
        }
        i += 1;
    }
    assert(hand@.take(hand.len() as int) =~= hand@);
    n
}

/// The tile classes the client will offer a kan for, in the order it offers
/// them. See [`kan_slots`].
pub fn kan_candidates(state: &TenhouState) -> (r: Vec<u32>)
    ensures
        r@ == kan_order(state.hand@, state.melds@),
{
    let mut out: Vec<u32> = Vec::new();
    let mut i: usize = 0;
    while i < state.melds.len()
        invariant
            i <= state.melds.len(),
            out@ == kakan_classes(state.hand@, state.melds@.take(i as int)),
        decreases state.melds.len() - i,
    {
        assert(state.melds@.take(i + 1).drop_last() =~= state.melds@.take(i as int));
        let meld = &state.melds[i];
        if meld.kind == MeldKind::Pon && meld.tiles.len() > 0 {
            let class: u32 = meld.tiles[0] / 4;
            if holds_class(&state.hand, class) {
                out.push(class);
            }
        }
        i += 1;
    }
    assert(state.melds@.take(state.melds.len() as int) =~= state.melds@);
    let ghost kakans = out@;
    assert(kakans + ankan_classes(state.hand@, 0) =~= kakans);
    let mut class: u32 = 0;
    while class < 34
        invariant
            class <= 34,
            out@ == kakans + ankan_classes(state.hand@, class as nat),
        decreases 34 - class,
    {
        let ghost lower = ankan_classes(state.hand@, class as nat);
        if count_class(&state.hand, class) == 4 {
            assert((kakans + lower).push(class) =~= kakans + lower.push(class));
            out.push(class);
        }
        class += 1;
    }
    out
}

/// First position of a class among the candidates.
fn place_of(candidates: &Vec<u32>, class: u32) -> (r: Option<usize>)
    ensures
        (match r {
            Some(i) => Some(i as int),
            None => None,
        }) == candidates@.index_of_first(class),
{
    let mut i: usize = 0;
    while i < candidates.len()
        invariant
            i <= candidates.len(),
            forall|k: int| 0 <= k < i ==> candidates@[k] != class,
        decreases candidates.len() - i,
    {
        if candidates[i] == class {
            proof {
                candidates@.index_of_first_ensures(class);
            }
            return Some(i);
        }
        i += 1;
    }
    proof {
        candidates@.index_of_first_ensures(class);
    }
    None
}

/// Menu slots for a kan, in preference order.
///
/// Kan candidates share three slots and are packed into them densely, in the
/// order the client builds them: every pon we hold the fourth copy of, in the
/// order those melds were called, then every concealed set of four by
/// ascending tile class.
///
/// ```js
/// for(p in U.mc[0]) ... b.push({type:kakan, hai:<copy in hand>})
/// for(h=0;34>h;++h) if(4<=p[h]) b.push({type:ankan, hai:4*h})
/// b.length&&(k[10]=b[0],b.shift()); b.length&&(k[11]=b[0],b.shift()); b.length&&(k[12]=b[0],b.shift())
/// ```
///
/// Reproducing that list is the only way to tell two offered kans apart —
/// the slot carries no tile. When it cannot be reproduced, fall back to the
/// three slots in the order the client fills them, which is right whenever
/// only one kan is on offer (the ordinary case).
pub fn kan_slots(action: &MjaiEvent, state: &TenhouState, in_riichi: bool) -> (r: Vec<u8>)
    ensures
        r@ == kan_slots_of(*action, state.hand@, state.melds@, in_riichi),
{
    // Riichi restricts the offer to an ankan of the tile just drawn, and only
    // when it leaves the wait alone, so there is never a second candidate.
    if in_riichi {
        return vec![menu::KAN_FIRST];
    }
    let wanted = match action {
        MjaiEvent::Ankan { consumed, .. } => tile_class(consumed[0].as_str()),
        MjaiEvent::Kakan { pai, .. } => tile_class(pai.as_str()),
        _ => None,
    };
    if let Some(class) = wanted {
        if let Some(i) = place_of(&kan_candidates(state), class) {
            if i < 3 {
                return vec![menu::KAN_FIRST + i as u8];
            }
        }
    }
    vec![menu::KAN_FIRST, menu::KAN_FIRST + 1, menu::KAN_FIRST + 2]
}

/// Tenhou tile class (`0..=33`) for an mjai label. Red fives share the class
/// of their plain copy, which is what a kan is addressed by.
pub fn tile_class(pai: &str) -> (r: Option<u32>)
    ensures
        (match r {
            Some(class) => Some(class as nat),
            None => None,
        }) == encode::class_of(pai@),
{
    encode::tile_class_public(pai)
}

/// One selector per slot, in the order they should be tried.
///
/// Preference order, not document order: the client appends its buttons
/// highest slot first, so the list has to be walked by the caller rather than
/// handed to `querySelector` as one comma-joined selector.
pub fn selectors_for(slots: &[u8]) -> (r: Vec<String>)
    ensures
        platform::texts(r@) == selectors_of(slots@),
{
    let mut out: Vec<String> = Vec::new();
    let mut i: usize = 0;
    while i < slots.len()
        invariant
            i <= slots.len(),
            out.len() == i,
            forall|k: int| 0 <= k < i ==> (#[trigger] out@[k])@ == menu::selector(slots@[k]),
        decreases slots.len() - i,
    {
        out.push(menu::action_button_selector(slots[i]));
        i += 1;
    }
    assert(platform::texts(out@) =~= selectors_of(slots@));
    out
}

/// Which button performs `action`, if it is a button at all. Returns the
/// slots to try in preference order — see [`selectors_for`].
pub fn button_for(action: &MjaiEvent, state: &TenhouState, in_riichi: bool) -> (r: Option<
    (Vec<String>, String),
>)
    ensures
        match slots_of(*action, state.hand@, state.melds@, in_riichi) {
            Some(slots) => r matches Some((selectors, label)) && platform::texts(selectors@)
                == selectors_of(slots) && label@ == button_label(*action),
            None => r is None,
        },
{
    let (slots, label): (Vec<u8>, &str) = match action {
        MjaiEvent::Reach { .. } => (vec![menu::RIICHI], "riichi"),
        MjaiEvent::Hora { actor, target, .. } => if *actor == *target {
            (vec![menu::TSUMO_AGARI], "tsumo")
        } else {
            (vec![menu::RON], "ron")
        },
        MjaiEvent::Ryukyoku { .. } => (vec![menu::KYUUSHU], "kyuushu"),
        MjaiEvent::Pass => (vec![menu::PASS], "pass"),
        MjaiEvent::Daiminkan { .. } => (vec![menu::DAIMINKAN], "daiminkan"),
        MjaiEvent::Pon { consumed, .. } => (pon_slots(consumed), "pon"),
        MjaiEvent::Chi { pai, consumed, .. } => match chi_slot(pai.as_str(), consumed) {
            Some(slot) => (vec![slot], "chi"),
            None => {
                return None;
            },
        },
        MjaiEvent::Ankan { .. } | MjaiEvent::Kakan { .. } => (
            kan_slots(action, state, in_riichi),
            "kan",
        ),
        // Kita shares its slots with the sanma menu's other declarations, and
        // the client assigns the North first, so the family in its own fill
        // order resolves to it.
        MjaiEvent::Kita { .. } => (
            vec![
                menu::KITA_FIRST,
                menu::KITA_FIRST + 1,
                menu::KITA_FIRST + 2,
                menu::KITA_FIRST + 3,
                menu::KITA_FIRST + 4,
            ],
            "kita",
        ),
        _ => {
            return None;
        },
    };
    assert(Some(slots@) == slots_of(*action, state.hand@, state.melds@, in_riichi));
    Some((selectors_for(slots.as_slice()), label.to_owned()))
}

/// The order in which the consumed pair is named does not matter to a chi,
/// its slot is one of the six, and it is an even one exactly where the pair
/// spends a red five.
pub proof fn law_chi_slot_ignores_the_order_of_the_pair(pai: Seq<char>, a: String, b: String)
    ensures
        chi_slot_of(pai, seq![a, b]) == chi_slot_of(pai, seq![b, a]),
        chi_slot_of(pai, seq![a, b]) matches Some(slot) ==> {
            &&& menu::CHI_FIRST <= slot <= menu::CHI_FIRST + 5
            &&& slot % 2 == 0 <==> red_five(a@) || red_five(b@)
        },
{
}

/// Every pon ends with the slot that is always drawn, and asks for the pair
/// that keeps the red five first exactly where it spends none.
pub proof fn law_pon_settles_for_the_pon_slot(consumed: Seq<String>)
    ensures
        pon_slots_of(consumed).last() == menu::PON,
        pon_slots_of(consumed)[0] == menu::PON_KEEP_RED <==> !spends_red(consumed),
        pon_slots_of(consumed).len() == 1 <==> spends_red(consumed),
{
}

/// A class is among the concealed candidates exactly where it is below the
/// bound and all four copies are held, and those candidates ascend.
proof fn lemma_ankan_classes(hand: Seq<u32>, bound: nat)
    requires
        bound <= 34,
    ensures
        forall|class: u32| #[trigger]
            ankan_classes(hand, bound).contains(class) <==> class < bound && copies(
                hand,
                class as int,
            ) == 4,
        forall|i: int, j: int|
            0 <= i < j < ankan_classes(hand, bound).len() ==> ankan_classes(hand, bound)[i]
                < ankan_classes(hand, bound)[j],
    decreases bound,
{
    if bound > 0 {
        let top = (bound - 1) as nat;
        lemma_ankan_classes(hand, top);
        let lower = ankan_classes(hand, top);
        let all = ankan_classes(hand, bound);
        assert forall|i: int| 0 <= i < lower.len() implies #[trigger] lower[i] < top by {
            assert(lower.contains(lower[i]));
        }
        assert forall|class: u32| #[trigger]
            all.contains(class) <==> class < bound && copies(hand, class as int) == 4 by {
            if all.contains(class) {
                let k = choose|k: int| 0 <= k < all.len() && all[k] == class;
                if k < lower.len() {
                    assert(lower[k] == class);
                    assert(lower.contains(class));
                }
            }
            if class < bound && copies(hand, class as int) == 4 {
                if class < top {
                    assert(lower.contains(class));
                    let k = choose|k: int| 0 <= k < lower.len() && lower[k] == class;
                    assert(all[k] == class);
                } else {
                    assert(all[lower.len() as int] == class);
                }
            }
        }
    }
}

/// A kakan candidate is the class of a pon that a held tile extends.
proof fn lemma_kakan_classes(hand: Seq<u32>, melds: Seq<Meld>, class: u32)
    ensures
        kakan_classes(hand, melds).contains(class) <==> exists|i: int|
            0 <= i < melds.len() && extends(hand, #[trigger] melds[i]) && melds[i].tiles@[0] / 4
                == class,
    decreases melds.len(),
{
    if melds.len() > 0 {
        let front = melds.drop_last();
        lemma_kakan_classes(hand, front, class);
        let earlier = kakan_classes(hand, front);
        let all = kakan_classes(hand, melds);
        if all.contains(class) {
            let k = choose|k: int| 0 <= k < all.len() && all[k] == class;
            if k < earlier.len() {
                assert(earlier[k] == class);
                assert(earlier.contains(class));
                let i = choose|i: int|
                    0 <= i < front.len() && extends(hand, #[trigger] front[i])
                        && front[i].tiles@[0] / 4 == class;
                assert(melds[i] == front[i]);
            } else {
                assert(melds[melds.len() - 1] == melds.last());
            }
        }
        if exists|i: int|
            0 <= i < melds.len() && extends(hand, #[trigger] melds[i]) && melds[i].tiles@[0] / 4
                == class {
            let i = choose|i: int|
                0 <= i < melds.len() && extends(hand, #[trigger] melds[i]) && melds[i].tiles@[0] / 4
                    == class;
            if i < front.len() {
                assert(front[i] == melds[i]);
                assert(earlier.contains(class));
                let k = choose|k: int| 0 <= k < earlier.len() && earlier[k] == class;
                assert(all[k] == class);
            } else {
                assert(all[earlier.len() as int] == class);
            }
        }
    }
}

/// The kan candidates are exactly the pons a held tile extends and the sets
/// of four that are held, and of the latter the lower class comes first.
pub proof fn law_kan_candidates_are_the_kans_on_offer(
    hand: Seq<u32>,
    melds: Seq<Meld>,
    class: u32,
    other: u32,
)
    ensures
        kan_order(hand, melds).contains(class) <==> {
            ||| class < 34 && copies(hand, class as int) == 4
            ||| exists|i: int|
                0 <= i < melds.len() && extends(hand, #[trigger] melds[i]) && melds[i].tiles@[0] / 4
                    == class
        },
        class < other < 34 && copies(hand, class as int) == 4 && copies(hand, other as int) == 4
            && !kakan_classes(hand, melds).contains(other) ==> {
            &&& kan_order(hand, melds).index_of_first(class) is Some
            &&& kan_order(hand, melds).index_of_first(other) is Some
            &&& kan_order(hand, melds).index_of_first(class)->0 < kan_order(
                hand,
                melds,
            ).index_of_first(other)->0
        },
{
    let kakans = kakan_classes(hand, melds);
    let ankans = ankan_classes(hand, 34);
    let all = kan_order(hand, melds);
    lemma_ankan_classes(hand, 34);
    lemma_kakan_classes(hand, melds, class);
    lemma_joined(kakans, ankans, class);
    lemma_joined(kakans, ankans, other);
    assert(ankans.contains(class) <==> class < 34 && copies(hand, class as int) == 4);
    assert(ankans.contains(other) <==> other < 34 && copies(hand, other as int) == 4);
    all.index_of_first_ensures(class);
    all.index_of_first_ensures(other);
    if class < other < 34 && copies(hand, class as int) == 4 && copies(hand, other as int) == 4
        && !kakans.contains(other) {
        let i = choose|i: int| 0 <= i < ankans.len() && ankans[i] == class;
        let p = all.index_of_first(class)->0;
        let q = all.index_of_first(other)->0;
        assert(q >= kakans.len()) by {
            if q < kakans.len() {
                assert(kakans[q] == other);
            }
        }
        let j = q - kakans.len();
        assert(ankans[j] == other);
        assert(all[kakans.len() + i] == class);
        assert(i < j);
        assert(p <= kakans.len() + i);
    }
}

/// What a joined sequence contains.
proof fn lemma_joined(front: Seq<u32>, back: Seq<u32>, x: u32)
    ensures
        (front + back).contains(x) <==> front.contains(x) || back.contains(x),
{
    let all = front + back;
    if all.contains(x) {
        let k = choose|k: int| 0 <= k < all.len() && all[k] == x;
        if k < front.len() {
            assert(front[k] == x);
        } else {
            assert(back[k - front.len()] == x);
        }
    }
    if front.contains(x) {
        let k = choose|k: int| 0 <= k < front.len() && front[k] == x;
        assert(all[k] == x);
    }
    if back.contains(x) {
        let k = choose|k: int| 0 <= k < back.len() && back[k] == x;
        assert(all[front.len() + k] == x);
    }
}

/// A kakan on offer comes before every ankan that is not one too.
pub proof fn law_kakan_outranks_ankan(hand: Seq<u32>, melds: Seq<Meld>, kakan: u32, ankan: u32)
    requires
        kakan_classes(hand, melds).contains(kakan),
        ankan_classes(hand, 34).contains(ankan),
        !kakan_classes(hand, melds).contains(ankan),
    ensures
        kan_order(hand, melds).index_of_first(kakan) is Some,
        kan_order(hand, melds).index_of_first(ankan) is Some,
        kan_order(hand, melds).index_of_first(kakan)->0 < kan_order(hand, melds).index_of_first(
            ankan,
        )->0,
{
    let kakans = kakan_classes(hand, melds);
    let ankans = ankan_classes(hand, 34);
    let all = kan_order(hand, melds);
    lemma_joined(kakans, ankans, kakan);
    lemma_joined(kakans, ankans, ankan);
    all.index_of_first_ensures(kakan);
    all.index_of_first_ensures(ankan);
    let k = choose|k: int| 0 <= k < kakans.len() && kakans[k] == kakan;
    assert(all[k] == kakan);
    let q = all.index_of_first(ankan)->0;
    if q < kakans.len() {
        assert(kakans[q] == ankan);
    }
}

/// A kan asks for one slot of its family or for the whole family in fill
/// order. A single slot outside riichi is the place of the kan's own class
/// among the candidates.
pub proof fn law_kan_slots_stay_in_their_family(
    action: MjaiEvent,
    hand: Seq<u32>,
    melds: Seq<Meld>,
    in_riichi: bool,
)
    ensures
        ({
            let slots = kan_slots_of(action, hand, melds, in_riichi);
            ||| slots == seq![10u8, 11u8, 12u8]
            ||| slots.len() == 1 && 10 <= slots[0] <= 12 && (in_riichi ==> slots[0] == 10) && (
            !in_riichi ==> ({
                let place = slots[0] - 10;
                &&& place < kan_order(hand, melds).len()
                &&& kan_class(action) is Some
                &&& kan_order(hand, melds)[place] == kan_class(action)->0 as u32
                &&& forall|k: int|
                    0 <= k < place ==> kan_order(hand, melds)[k] != kan_class(action)->0 as u32
            }))
        }),
{
    if let Some(class) = kan_class(action) {
        kan_order(hand, melds).index_of_first_ensures(class as u32);
    }
}

/// A button is a real one: every action with a button has at least one slot
/// to try, no slot of the menu is named twice, and a discard has no button.
pub proof fn law_every_button_has_a_slot(
    action: MjaiEvent,
    hand: Seq<u32>,
    melds: Seq<Meld>,
    in_riichi: bool,
)
    ensures
        slots_of(action, hand, melds, in_riichi) matches Some(slots) ==> {
            &&& slots.len() > 0
            &&& slots.no_duplicates()
            &&& forall|i: int| 0 <= i < slots.len() ==> #[trigger] slots[i] <= 21
        },
        action is Dahai ==> slots_of(action, hand, melds, in_riichi) is None,
{
    law_kan_slots_stay_in_their_family(action, hand, melds, in_riichi);
}

/// A rank is the digit in front of a suit letter, from one to nine; whatever
/// does not start with such a digit and a suit letter has none.
pub proof fn law_rank_is_the_digit_before_the_suit(label: Seq<char>)
    ensures
        rank_of(label) is Some <==> label.len() >= 2 && '1' <= label[0] <= '9' && (label[1] == 'm'
            || label[1] == 'p' || label[1] == 's'),
        rank_of(label) matches Some(rank) ==> 1 <= rank <= 9 && label[0] as u32 == 0x30 + rank,
{
    if label.len() > 0 && label.last() == 'r' {
        let body = label.drop_last();
        if body.len() > 0 {
            assert(body[0] == label[0]);
        }
        if body.len() > 1 {
            assert(body[1] == label[1]);
        }
    }
}

/// The red fives are the fives with an `r`, one in each suit.
pub proof fn law_red_fives_letter_by_letter(label: Seq<char>)
    ensures
        red_five(label) <==> label.len() == 3 && label[0] == '5' && (label[1] == 'm' || label[1]
            == 'p' || label[1] == 's') && label[2] == 'r',
{
    reveal_strlit("5mr");
    reveal_strlit("5pr");
    reveal_strlit("5sr");
    if label.len() == 3 && label[0] == '5' && label[2] == 'r' {
        if label[1] == 'm' {
            assert(label =~= "5mr"@);
        }
        if label[1] == 'p' {
            assert(label =~= "5pr"@);
        }
        if label[1] == 's' {
            assert(label =~= "5sr"@);
        }
    }
}

/// The slot of a chi, by number: 16 or 17 where the called tile is lowest, 20
/// or 21 where it is highest, 18 or 19 otherwise, the even one where one of
/// the two spent tiles is red. There is none exactly where one of the three
/// tiles has no rank.
pub proof fn law_chi_slot_by_number(pai: Seq<char>, a: String, b: String)
    ensures
        ({
            let slot = chi_slot_of(pai, seq![a, b]);
            let red = red_five(a@) || red_five(b@);
            &&& slot is Some <==> rank_of(pai) is Some && rank_of(a@) is Some && rank_of(b@) is Some
            &&& slot is Some && rank_of(pai)->0 < rank_of(a@)->0 && rank_of(pai)->0 < rank_of(b@)->0
                ==> slot == Some(
                if red {
                    16u8
                } else {
                    17u8
                },
            )
            &&& slot is Some && rank_of(pai)->0 > rank_of(a@)->0 && rank_of(pai)->0 > rank_of(b@)->0
                ==> slot == Some(
                if red {
                    20u8
                } else {
                    21u8
                },
            )
            &&& slot is Some && !(rank_of(pai)->0 < rank_of(a@)->0 && rank_of(pai)->0 < rank_of(
                b@,
            )->0) && !(rank_of(pai)->0 > rank_of(a@)->0 && rank_of(pai)->0 > rank_of(b@)->0)
                ==> slot == Some(
                if red {
                    18u8
                } else {
                    19u8
                },
            )
        }),
{
}

/// The buttons of every action, by number, in the order they are tried: 0 and
/// 1 are the two wins, told apart by whose tile it is, 2 riichi, 3 the nine
/// terminals, 4 the pass, 5 to 9 kita, 13 the open kan, 15 the pon, after 14
/// where no red five is spent. A chi has one of 16 to 21, a kan of the own
/// turn some of 10 to 12. Everything else has no button.
pub proof fn law_buttons_by_number(
    action: MjaiEvent,
    hand: Seq<u32>,
    melds: Seq<Meld>,
    in_riichi: bool,
)
    ensures
        ({
            let slots = slots_of(action, hand, melds, in_riichi);
            &&& action matches MjaiEvent::Hora { actor, target, .. } ==> {
                &&& actor == target ==> slots == Some(seq![0u8])
                &&& actor != target ==> slots == Some(seq![1u8])
            }
            &&& action is Reach ==> slots == Some(seq![2u8])
            &&& action is Ryukyoku ==> slots == Some(seq![3u8])
            &&& action is Pass ==> slots == Some(seq![4u8])
            &&& action is Kita ==> slots == Some(seq![5u8, 6u8, 7u8, 8u8, 9u8])
            &&& action is Daiminkan ==> slots == Some(seq![13u8])
            &&& action matches MjaiEvent::Pon { consumed, .. } ==> {
                let red = red_five(consumed@[0]@) || red_five(consumed@[1]@);
                &&& red ==> slots == Some(seq![15u8])
                &&& !red ==> slots == Some(seq![14u8, 15u8])
            }
            &&& action matches MjaiEvent::Chi { pai, consumed, .. } ==> {
                let slot = chi_slot_of(pai@, seq![consumed@[0], consumed@[1]]);
                &&& slots is Some <==> slot is Some
                &&& slot is Some ==> slots == Some(seq![slot->0])
            }
            &&& action is Ankan || action is Kakan ==> slots == Some(
                kan_slots_of(action, hand, melds, in_riichi),
            ) && forall|i: int| 0 <= i < slots->0.len() ==> 10 <= #[trigger] slots->0[i] <= 12
            &&& slots is Some ==> action is Hora || action is Reach || action is Ryukyoku
                || action is Pass || action is Kita || action is Daiminkan || action is Pon
                || action is Chi || action is Ankan || action is Kakan
        }),
{
    law_kan_slots_stay_in_their_family(action, hand, melds, in_riichi);
    if let MjaiEvent::Chi { consumed, .. } = action {
        assert(consumed@ =~= seq![consumed@[0], consumed@[1]]);
    }
}

/// Whether two actions are pressed on the same family of buttons.
pub open spec fn same_family(a: MjaiEvent, b: MjaiEvent) -> bool {
    ||| a is Hora && b is Hora
    ||| a is Reach && b is Reach
    ||| a is Ryukyoku && b is Ryukyoku
    ||| a is Pass && b is Pass
    ||| a is Kita && b is Kita
    ||| a is Daiminkan && b is Daiminkan
    ||| a is Pon && b is Pon
    ||| a is Chi && b is Chi
    ||| (a is Ankan || a is Kakan) && (b is Ankan || b is Kakan)
}

/// Actions of different kinds never ask for a common button, whatever is
/// held: no action can be performed by the button of another. A win on the
/// own draw and one on another seat's tile have none in common either.
pub proof fn law_different_actions_share_no_button(
    a: MjaiEvent,
    b: MjaiEvent,
    hand: Seq<u32>,
    melds: Seq<Meld>,
    other_hand: Seq<u32>,
    other_melds: Seq<Meld>,
    in_riichi: bool,
    slot: u8,
)
    ensures
        slots_of(a, hand, melds, in_riichi) matches Some(mine) ==> slots_of(
            b,
            other_hand,
            other_melds,
            in_riichi,
        ) matches Some(theirs) ==> mine.contains(slot) && theirs.contains(slot) ==> {
            &&& same_family(a, b)
            &&& a matches MjaiEvent::Hora { actor, target, .. } ==> b matches MjaiEvent::Hora {
                actor: other_actor,
                target: other_target,
                ..
            } ==> (actor == target <==> other_actor == other_target)
        },
{
    law_buttons_by_number(a, hand, melds, in_riichi);
    law_buttons_by_number(b, other_hand, other_melds, in_riichi);
    lemma_button_range(a, hand, melds, in_riichi, slot);
    lemma_button_range(b, other_hand, other_melds, in_riichi, slot);
}

/// Between which numbers the buttons of an action lie.
proof fn lemma_button_range(
    action: MjaiEvent,
    hand: Seq<u32>,
    melds: Seq<Meld>,
    in_riichi: bool,
    slot: u8,
)
    ensures
        slots_of(action, hand, melds, in_riichi) matches Some(slots) ==> slots.contains(slot) ==> {
            &&& action matches MjaiEvent::Hora { actor, target, .. } ==> slot == if actor
                == target {
                0
            } else {
                1int
            }
            &&& action is Reach ==> slot == 2
            &&& action is Ryukyoku ==> slot == 3
            &&& action is Pass ==> slot == 4
            &&& action is Kita ==> 5 <= slot <= 9
            &&& action is Ankan || action is Kakan ==> 10 <= slot <= 12
            &&& action is Daiminkan ==> slot == 13
            &&& action is Pon ==> 14 <= slot <= 15
            &&& action is Chi ==> 16 <= slot <= 21
        },
{
    law_buttons_by_number(action, hand, melds, in_riichi);
    if let Some(slots) = slots_of(action, hand, melds, in_riichi) {
        if slots.contains(slot) {
            let i = choose|i: int| 0 <= i < slots.len() && slots[i] == slot;
            if let MjaiEvent::Chi { pai, consumed, .. } = action {
                law_chi_slot_by_number(pai@, consumed@[0], consumed@[1]);
            }
        }
    }
}

/// What the log calls a button, letter by letter.
pub proof fn law_button_labels(action: MjaiEvent)
    ensures
        ({
            let label = button_label(action);
            &&& action matches MjaiEvent::Hora { actor, target, .. } ==> label == if actor
                == target {
                seq!['t', 's', 'u', 'm', 'o']
            } else {
                seq!['r', 'o', 'n']
            }
            &&& action is Reach ==> label == seq!['r', 'i', 'i', 'c', 'h', 'i']
            &&& action is Ryukyoku ==> label == seq!['k', 'y', 'u', 'u', 's', 'h', 'u']
            &&& action is Pass ==> label == seq!['p', 'a', 's', 's']
            &&& action is Daiminkan ==> label == seq![
                'd',
                'a',
                'i',
                'm',
                'i',
                'n',
                'k',
                'a',
                'n',
            ]
            &&& action is Pon ==> label == seq!['p', 'o', 'n']
            &&& action is Chi ==> label == seq!['c', 'h', 'i']
            &&& action is Ankan || action is Kakan ==> label == seq!['k', 'a', 'n']
            &&& action is Kita ==> label == seq!['k', 'i', 't', 'a']
        }),
{
    reveal_strlit("tsumo");
    reveal_strlit("ron");
    reveal_strlit("riichi");
    reveal_strlit("kyuushu");
    reveal_strlit("pass");
    reveal_strlit("daiminkan");
    reveal_strlit("pon");
    reveal_strlit("chi");
    reveal_strlit("kan");
    reveal_strlit("kita");
}

/// Each slot has its own selector, in the order of the slots.
pub proof fn law_selectors_follow_the_slots(slots: Seq<u8>)
    ensures
        selectors_of(slots).len() == slots.len(),
        forall|i: int|
            0 <= i < slots.len() ==> #[trigger] selectors_of(slots)[i] == menu::selector(slots[i]),
{
}

/// How many tiles of a class are held is how many of the hand's indices, by
/// four, give the class.
pub proof fn law_copies_are_counted_by_four(hand: Seq<u32>, class: int)
    ensures
        copies(hand, class) == hand.filter(|t: u32| t / 4 == class).len(),
    decreases hand.len(),
{
    reveal(Seq::filter);
    if hand.len() > 0 {
        law_copies_are_counted_by_four(hand.drop_last(), class);
    }
}

/// The added kans on offer are the called pons of which a tile is held, by
/// their class, in the order they were called.
pub proof fn law_added_kans_follow_the_melds(hand: Seq<u32>, melds: Seq<Meld>)
    ensures
        kakan_classes(hand, melds) == melds.filter(
            |m: Meld|
                m.kind == MeldKind::Pon && m.tiles@.len() > 0 && exists|i: int|
                    0 <= i < hand.len() && (#[trigger] hand[i]) / 4 == m.tiles@[0] / 4,
        ).map_values(|m: Meld| m.tiles@[0] / 4),
    decreases melds.len(),
{
    reveal(Seq::filter);
    let offered = |m: Meld|
        m.kind == MeldKind::Pon && m.tiles@.len() > 0 && exists|i: int|
            0 <= i < hand.len() && (#[trigger] hand[i]) / 4 == m.tiles@[0] / 4;
    let class = |m: Meld| m.tiles@[0] / 4;
    if melds.len() > 0 {
        law_added_kans_follow_the_melds(hand, melds.drop_last());
        assert(extends(hand, melds.last()) == offered(melds.last()));
        let earlier = melds.drop_last().filter(offered);
        if offered(melds.last()) {
            assert(melds.filter(offered) == earlier.push(melds.last()));
            assert(earlier.push(melds.last()).map_values(class) =~= earlier.map_values(class).push(
                class(melds.last()),
            ));
        }
    }
    assert(kakan_classes(hand, melds) =~= melds.filter(offered).map_values(class));
}

/// The concealed kans on offer, and where they stand: a class below 34 of
/// which exactly four tiles are held, lower classes first, behind all the
/// added kans.
pub proof fn law_concealed_kans_ascend_behind_the_added_ones(
    hand: Seq<u32>,
    melds: Seq<Meld>,
    class: u32,
    i: int,
    j: int,
)
    ensures
        ({
            let added = kakan_classes(hand, melds).len() as int;
            let order = kan_order(hand, melds);
            &&& order.take(added) == kakan_classes(hand, melds)
            &&& order.skip(added).contains(class) <==> class < 34 && hand.filter(
                |t: u32| t / 4 == class as int,
            ).len() == 4
            &&& added <= i < j < order.len() ==> order[i] < order[j]
        }),
{
    lemma_ankan_classes(hand, 34);
    law_copies_are_counted_by_four(hand, class as int);
    let added = kakan_classes(hand, melds);
    let order = kan_order(hand, melds);
    assert(order.take(added.len() as int) =~= added);
    assert(order.skip(added.len() as int) =~= ankan_classes(hand, 34));
    if added.len() <= i < j < order.len() {
        assert(order[i] == ankan_classes(hand, 34)[i - added.len()]);
        assert(order[j] == ankan_classes(hand, 34)[j - added.len()]);
    }
}

/// The button of a kan, by number. In riichi it is 10. Otherwise it is 10, 11
/// or 12 where the named class is the first, second or third on offer, and
/// all three in turn where it is none of these. The class is that of the tile
/// added, or of the first tile of the concealed set.
pub proof fn law_kan_slots_by_number(
    action: MjaiEvent,
    hand: Seq<u32>,
    melds: Seq<Meld>,
    in_riichi: bool,
    place: int,
)
    ensures
        ({
            let slots = kan_slots_of(action, hand, melds, in_riichi);
            let order = kan_order(hand, melds);
            let class = match action {
                MjaiEvent::Ankan { consumed, .. } => encode::class_of(consumed@[0]@),
                MjaiEvent::Kakan { pai, .. } => encode::class_of(pai@),
                _ => None,
            };
            &&& in_riichi ==> slots == seq![10u8]
            &&& !in_riichi && class is Some && 0 <= place < 3 && place < order.len()
                && order[place] == class->0 && (forall|k: int|
                0 <= k < place ==> order[k] != class->0) ==> slots == seq![(10 + place) as u8]
            &&& !in_riichi && (class is None || forall|k: int|
                0 <= k < 3 && k < order.len() ==> order[k] != class->0) ==> slots == seq![
                10u8,
                11u8,
                12u8,
            ]
        }),
{
    let order = kan_order(hand, melds);
    if let Some(class) = kan_class(action) {
        lemma_class_is_small(action);
        order.index_of_first_ensures(class as u32);
        if !in_riichi && 0 <= place < 3 && place < order.len() && order[place] == class && (forall|
            k: int,
        |
            0 <= k < place ==> order[k] != class) {
            let first = order.index_of_first(class as u32)->0;
            assert(order.contains(class as u32));
            assert(first == place);
        }
    }
}

/// A class is a small number.
proof fn lemma_class_is_small(action: MjaiEvent)
    ensures
        kan_class(action) matches Some(class) ==> class < 34,
{
    match action {
        MjaiEvent::Ankan { consumed, .. } => label::law_labels_and_types_correspond(
            0,
            false,
            consumed@[0]@,
        ),
        MjaiEvent::Kakan { pai, .. } => label::law_labels_and_types_correspond(0, false, pai@),
        _ => {},
    }
}

} // verus!
