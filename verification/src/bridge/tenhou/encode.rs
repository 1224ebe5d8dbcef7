//! mjai action → Tenhou client frame.
//!
//! Takes the action a bot chose and produces the JSON frame the Tenhou client
//! would have sent for it.
//!
//! Autoplay does *not* send these frames — Tenhou's client owns its board
//! state and freezes if a discard reaches the server without going through
//! its own handler, so `autoplay::tenhou` drives the client's input instead.
//! The encoder is the executable statement of the protocol.
//!
//! # Frame inventory
//!
//! | mjai | frame |
//! |---|---|
//! | `dahai` | `{"tag":"D","p":<index>}` |
//! | `reach` | `{"tag":"REACH"}` |
//! | `chi` | `{"tag":"N","type":3,"hai0":<index>,"hai1":<index>}` |
//! | `pon` | `{"tag":"N","type":1,"hai0":<index>,"hai1":<index>}` |
//! | `daiminkan` | `{"tag":"N","type":2}` |
//! | `ankan` | `{"tag":"N","type":4,"hai":<type * 4>}` |
//! | `kakan` | `{"tag":"N","type":5,"hai":<index>}` |
//! | `kita` | `{"tag":"N","type":10}` (sanma; unverified — see below) |
//! | `hora` (tsumo) | `{"tag":"N","type":7}` |
//! | `hora` (ron) | `{"tag":"N","type":6}` |
//! | `ryukyoku` | `{"tag":"N","type":9}` |
//! | `none` | `{"tag":"N"}` |
//!
//! The members stand in the text in alphabetical order.
//!
//! Riichi is genuinely two frames: `{"tag":"REACH"}` first, then — once the
//! server echoes `<REACH who=... step="1"/>` — the discard as its own
//! `{"tag":"D"}`. Callers drive that sequencing; this module only encodes
//! whatever single action it is handed.
//!
//! # Not encoded here
//!
//! Session control (`JOIN`, `GOK`, `NEXTREADY`) is deliberately absent. Those
//! frames belong to a client that seats *itself* in a lobby; a real client
//! sends them on its own, and duplicating them would double-confirm menus the
//! user is driving.

use crate::bridge::label;
use crate::bridge::tenhou::meld::{Meld, MeldKind};
use crate::bridge::tenhou::tile;
use crate::schema::MjaiEvent;
use crate::text;
use vstd::prelude::*;
use vstd::array::array_as_slice;
use vstd::slice::slice_to_vec;
use vstd::string::StringExecFns;

verus! {

/// The subset of tracked state an encode needs: which physical tiles we hold
/// and which melds we have called. Tenhou addresses tiles by their index in
/// `0..=135` (the specific physical copy), so an mjai tile *string* can only
/// be resolved against a real hand.
#[derive(Debug, Clone, Copy)]
pub struct HandView<'a> {
    /// Our concealed hand as Tenhou tile indices.
    pub hand: &'a [u32],
    /// Melds we have called this kyoku.
    pub melds: &'a [Meld],
    /// True between our tsumo and our dahai — the drawn tile is the tail of
    /// `hand`.
    pub is_tsumo: bool,
}

/// Whether `index` is a copy of the type `ty`, and of the wanted redness
/// where one is wanted.
pub open spec fn fits(index: u32, ty: nat, red: Option<bool>) -> bool {
    &&& index / 4 == ty
    &&& red matches Some(wanted) ==> tile::red_index(index) == wanted
}

/// Whether `p` is the position of the greatest fitting index in `pool`, the
/// last one among equals.
pub open spec fn is_pick(pool: Seq<u32>, ty: nat, red: Option<bool>, p: int) -> bool {
    &&& 0 <= p < pool.len()
    &&& fits(pool[p], ty, red)
    &&& forall|q: int|
        0 <= q < pool.len() && fits(#[trigger] pool[q], ty, red) ==> pool[q] < pool[p] || (pool[q]
            == pool[p] && q <= p)
}

/// The position of the greatest fitting index in `pool`, if one fits.
pub open spec fn pick(pool: Seq<u32>, ty: nat, red: Option<bool>) -> Option<int> {
    if exists|p: int| is_pick(pool, ty, red, p) {
        Some(choose|p: int| is_pick(pool, ty, red, p))
    } else {
        None
    }
}

/// The position in `pool` of the copy that `label` names: one of the named
/// redness where the pool holds one, else any of the type.
pub open spec fn named_position(pool: Seq<u32>, label: Seq<char>) -> Option<int> {
    match label::label_type(label) {
        Some((ty, red)) => match pick(pool, ty, Some(red)) {
            Some(p) => Some(p),
            None => pick(pool, ty, None),
        },
        None => None,
    }
}

/// The index that a single label names in a hand.
pub open spec fn named_index(hand: Seq<u32>, label: Seq<char>) -> Option<u32> {
    match named_position(hand, label) {
        Some(p) => Some(hand[p]),
        None => None,
    }
}

/// The indices that several labels name in a pool, each taken out of the pool
/// before the next is looked up.
pub open spec fn named_indices(pool: Seq<u32>, labels: Seq<String>) -> Option<Seq<u32>>
    decreases labels.len(),
{
    if labels.len() == 0 {
        Some(seq![])
    } else {
        match named_position(pool, labels[0]@) {
            Some(p) => match named_indices(pool.remove(p), labels.drop_first()) {
                Some(rest) => Some(seq![pool[p]] + rest),
                None => None,
            },
            None => None,
        }
    }
}

/// The index that a discard of `pai` throws: the drawn copy for a tsumogiri
/// of the drawn tile, else the copy the label names.
pub open spec fn discard_index(
    hand: Seq<u32>,
    is_tsumo: bool,
    pai: Seq<char>,
    tsumogiri: bool,
) -> Option<u32> {
    if is_tsumo && tsumogiri && hand.len() > 0 && tile::index_label(hand.last()) == pai {
        Some(hand.last())
    } else {
        named_index(hand, pai)
    }
}

/// Whether one of the melds is a pon of the type of `index`.
pub open spec fn has_pon(melds: Seq<Meld>, index: u32) -> bool {
    exists|i: int|
        0 <= i < melds.len() && (#[trigger] melds[i]).kind == MeldKind::Pon && melds[i].tiles@.len()
            > 0 && melds[i].tiles@[0] / 4 == index / 4
}

/// A frame the client can send.
#[derive(Debug, Clone, Copy, PartialEq, Eq, Structural)]
pub enum ClientFrame {
    /// Throw the tile with index `p`.
    Discard { p: u32 },
    /// Declare riichi.
    Reach,
    /// A declaration that names no tile.
    Declare { kind: u32 },
    /// A declaration that names one tile.
    DeclareTile { kind: u32, hai: u32 },
    /// A call that names the two tiles it spends.
    CallPair { kind: u32, hai0: u32, hai1: u32 },
    /// Decline what was offered.
    Decline,
}

/// The frame that performs `action`, if there is one.
pub open spec fn frame_of(
    action: MjaiEvent,
    hand: Seq<u32>,
    melds: Seq<Meld>,
    is_tsumo: bool,
) -> Option<ClientFrame> {
    match action {
        MjaiEvent::Dahai { pai, tsumogiri, .. } => match discard_index(
            hand,
            is_tsumo,
            pai@,
            tsumogiri,
        ) {
            Some(p) => Some(ClientFrame::Discard { p }),
            None => None,
        },
        MjaiEvent::Reach { .. } => Some(ClientFrame::Reach),
        MjaiEvent::Chi { consumed, .. } => match named_indices(hand, consumed@) {
            Some(idx) => Some(ClientFrame::CallPair { kind: 3, hai0: idx[0], hai1: idx[1] }),
            None => None,
        },
        MjaiEvent::Pon { consumed, .. } => match named_indices(hand, consumed@) {
            Some(idx) => Some(ClientFrame::CallPair { kind: 1, hai0: idx[0], hai1: idx[1] }),
            None => None,
        },
        MjaiEvent::Daiminkan { .. } => Some(ClientFrame::Declare { kind: 2 }),
        MjaiEvent::Ankan { consumed, .. } => match named_index(hand, consumed@[0]@) {
            Some(index) => Some(
                ClientFrame::DeclareTile { kind: 4, hai: (index / 4 * 4) as u32 },
            ),
            None => None,
        },
        MjaiEvent::Kakan { pai, .. } => match named_index(hand, pai@) {
            Some(index) => if has_pon(melds, index) {
                Some(ClientFrame::DeclareTile { kind: 5, hai: index })
            } else {
                None
            },
            None => None,
        },
        MjaiEvent::Kita { .. } => Some(ClientFrame::Declare { kind: 10 }),
        MjaiEvent::Hora { actor, target, .. } => Some(
            ClientFrame::Declare {
                kind: if actor == target {
                    7
                } else {
                    6
                },
            },
        ),
        MjaiEvent::Ryukyoku { .. } => Some(ClientFrame::Declare { kind: 9 }),
        MjaiEvent::Pass => Some(ClientFrame::Decline),
        _ => None,
    }
}

/// The JSON text of a frame.
pub open spec fn frame_text(frame: ClientFrame) -> Seq<char> {
    match frame {
        ClientFrame::Discard { p } => "{\"p\":"@ + text::decimal(p as nat) + ",\"tag\":\"D\"}"@,
        ClientFrame::Reach => "{\"tag\":\"REACH\"}"@,
        ClientFrame::Declare { kind } => "{\"tag\":\"N\",\"type\":"@ + text::decimal(kind as nat)
            + "}"@,
        ClientFrame::DeclareTile { kind, hai } => "{\"hai\":"@ + text::decimal(hai as nat)
            + ",\"tag\":\"N\",\"type\":"@ + text::decimal(kind as nat) + "}"@,
        ClientFrame::CallPair { kind, hai0, hai1 } => "{\"hai0\":"@ + text::decimal(hai0 as nat)
            + ",\"hai1\":"@ + text::decimal(hai1 as nat) + ",\"tag\":\"N\",\"type\":"@
            + text::decimal(kind as nat) + "}"@,
        ClientFrame::Decline => "{\"tag\":\"N\"}"@,
    }
}

/// A fitting index means that one is picked.
proof fn lemma_pick_exists(pool: Seq<u32>, ty: nat, red: Option<bool>, q: int)
    requires
        0 <= q < pool.len(),
        fits(pool[q], ty, red),
    ensures
        pick(pool, ty, red) is Some,
        is_pick(pool, ty, red, pick(pool, ty, red)->0),
    decreases u32::MAX - pool[q], pool.len() - q,
{
    if exists|k: int|
        0 <= k < pool.len() && fits(#[trigger] pool[k], ty, red) && (pool[k] > pool[q] || (pool[k]
            == pool[q] && k > q)) {
        let k = choose|k: int|
            0 <= k < pool.len() && fits(#[trigger] pool[k], ty, red) && (pool[k] > pool[q] || (
            pool[k] == pool[q] && k > q));
        lemma_pick_exists(pool, ty, red, k);
    } else {
        assert(is_pick(pool, ty, red, q));
    }
}

/// At most one position is picked.
proof fn lemma_pick_unique(pool: Seq<u32>, ty: nat, red: Option<bool>, p: int)
    requires
        is_pick(pool, ty, red, p),
    ensures
        pick(pool, ty, red) == Some(p),
{
    let c = choose|c: int| is_pick(pool, ty, red, c);
    assert(is_pick(pool, ty, red, c));
    assert(pool[c] <= pool[p] && pool[p] <= pool[c]);
}

/// Position of the greatest fitting index in `pool`.
fn pick_position(pool: &Vec<u32>, ty: u32, red: Option<bool>) -> (r: Option<usize>)
    ensures
        (match r {
            Some(p) => Some(p as int),
            None => None,
        }) == pick(pool@, ty as nat, red),
        r matches Some(p) ==> p < pool.len(),
{
    let mut best: Option<usize> = None;
    let mut i: usize = 0;
    while i < pool.len()
        invariant
            i <= pool.len(),
            match best {
                Some(p) => is_pick(pool@.take(i as int), ty as nat, red, p as int),
                None => forall|q: int| 0 <= q < i ==> !fits(#[trigger] pool@[q], ty as nat, red),
            },
        decreases pool.len() - i,
    {
        let index: u32 = pool[i];
        let ghost before = pool@.take(i as int);
        let ghost after = pool@.take(i + 1);
        let redness = match red {
            Some(wanted) => tile::is_red_index(index) == wanted,
            None => true,
        };
        assert(forall|q: int| 0 <= q < i ==> #[trigger] after[q] == before[q]);
        assert(after[i as int] == index);
        if index / 4 == ty && redness {
            let better = match best {
                Some(p) => pool[p] <= index,
                None => true,
            };
            if better {
                best = Some(i);
            }
        }
        i += 1;
    }
    assert(pool@.take(pool.len() as int) =~= pool@);
    proof {
        match best {
            Some(p) => lemma_pick_unique(pool@, ty as nat, red, p as int),
            None => {},
        }
    }
    best
}

/// Resolve each mjai tile string to a distinct Tenhou index drawn from `pool`,
/// removing what it matches so two identical labels never collapse onto the
/// same physical tile — `hai0` and `hai1` of a pon must differ.
///
/// Red/plain is matched exactly first. If nothing matches exactly, any copy of
/// the same tile type will do: an exact match can only fail when the hand holds
/// no tile of the requested redness, so every remaining candidate has the
/// *same* redness as every other and the choice between them cannot be wrong.
/// That relaxation matters because some bots normalise red fives away and name
/// a held `5mr` as plain `5m`; refusing would stall autoplay over a distinction
/// that, by then, has only one possible answer.
///
/// Within either pass, the highest index wins, which prefers a non-red copy
/// for a plain request (the red five is always the 0-th copy of its type).
pub fn take_one(pool: &mut Vec<u32>, label: &str) -> (r: Option<u32>)
    ensures
        match named_position(old(pool)@, label@) {
            Some(p) => {
                &&& 0 <= p < old(pool)@.len()
                &&& r == Some(old(pool)@[p])
                &&& final(pool)@ == old(pool)@.remove(p)
            },
            None => r is None && final(pool)@ == old(pool)@,
        },
{
    match label::tile_type(label) {
        Some((ty, want_red)) => {
            let exact = pick_position(&*pool, ty, Some(want_red));
            let found = match exact {
                Some(p) => Some(p),
                None => pick_position(&*pool, ty, None),
            };
            match found {
                Some(p) => Some(pool.remove(p)),
                None => None,
            }
        },
        None => None,
    }
}

/// [`take_one`] across a list, threading one pool so repeated labels consume
/// distinct copies.
pub fn take_indices(hand: &[u32], labels: &[String]) -> (r: Option<Vec<u32>>)
    ensures
        match r {
            Some(idx) => named_indices(hand@, labels@) == Some(idx@) && idx.len() == labels.len(),
            None => named_indices(hand@, labels@) is None,
        },
{
    let mut pool = slice_to_vec(hand);
    let mut out: Vec<u32> = Vec::new();
    let mut i: usize = 0;
    assert(labels@.skip(0) =~= labels@);
    while i < labels.len()
        invariant
            i <= labels.len(),
            out.len() == i,
            named_indices(hand@, labels@) == match named_indices(pool@, labels@.skip(i as int)) {
                Some(rest) => Some(out@ + rest),
                None => None,
            },
        decreases labels.len() - i,
    {
        let ghost rest = labels@.skip(i as int);
        assert(rest.drop_first() =~= labels@.skip(i + 1));
        match take_one(&mut pool, labels[i].as_str()) {
            Some(index) => {
                proof {
                    match named_indices(pool@, rest.drop_first()) {
                        Some(tail) => {
                            assert(out@ + (seq![index] + tail) =~= out@.push(index) + tail);
                        },
                        None => {},
                    }
                }
                out.push(index);
            },
            None => {
                return None;
            },
        }
        i += 1;
    }
    assert(out@ + Seq::<u32>::empty() =~= out@);
    Some(out)
}

/// Resolve a single mjai tile string against the hand.
pub fn tile_index(hand: &[u32], label: &str) -> (r: Option<u32>)
    ensures
        r == named_index(hand@, label@),
{
    let mut pool = slice_to_vec(hand);
    take_one(&mut pool, label)
}

/// Resolve the physical copy a discard should throw.
///
/// Tenhou derives the tedashi/tsumogiri display from the index alone —
/// throwing the just-drawn copy *is* the tsumogiri — so which copy goes
/// matters even between functionally identical tiles: a tsumogiri must name
/// the drawn copy (the tail of `hand`), not whichever identical copy
/// [`take_one`]'s ranking would reach first. When the named tile is not the
/// drawn one, or nothing was drawn, the ordinary red-aware lookup applies.
///
/// Shared by [`encode`] and the autoplay planner so the frame the encoder
/// would build and the index the planner hands the client can never name
/// different copies.
pub fn dahai_index(view: HandView, pai: &str, tsumogiri: bool) -> (r: Option<u32>)
    ensures
        r == discard_index(view.hand@, view.is_tsumo, pai@, tsumogiri),
{
    if view.is_tsumo && tsumogiri && view.hand.len() > 0 {
        let drawn: u32 = view.hand[view.hand.len() - 1];
        if text::same_text(tile::tenhou_to_mjai_one(drawn), pai) {
            return Some(drawn);
        }
    }
    tile_index(view.hand, pai)
}

/// Tenhou tile class (`0..=33`) for an mjai label, exposed for the autoplay
/// planner: a kan is addressed by tile *type*, and red fives share the class
/// of their plain copies.
pub fn tile_class_public(label: &str) -> (r: Option<u32>)
    ensures
        (match r {
            Some(class) => Some(class as nat),
            None => None,
        }) == class_of(label@),
{
    match label::tile_type(label) {
        Some((ty, _)) => Some(ty),
        None => None,
    }
}

/// The tile type a label names, whichever copy it means.
pub open spec fn class_of(label: Seq<char>) -> Option<nat> {
    match label::label_type(label) {
        Some((ty, _)) => Some(ty),
        None => None,
    }
}

/// Whether a label names a red copy.
pub open spec fn names_red(label: Seq<char>) -> bool {
    match label::label_type(label) {
        Some((_, red)) => red,
        None => false,
    }
}

/// Whether one of the melds is a pon of the type of `index`.
fn holds_pon(melds: &[Meld], index: u32) -> (r: bool)
    ensures
        r == has_pon(melds@, index),
{
    let mut i: usize = 0;
    while i < melds.len()
        invariant
            i <= melds.len(),
            forall|k: int|
                0 <= k < i ==> !((#[trigger] melds@[k]).kind == MeldKind::Pon
                    && melds@[k].tiles@.len() > 0 && melds@[k].tiles@[0] / 4 == index / 4),
        decreases melds.len() - i,
    {
        let meld = &melds[i];
        if meld.kind == MeldKind::Pon && meld.tiles.len() > 0 && meld.tiles[0] / 4 == index / 4 {
            assert(melds@[i as int] == *meld);
            return true;
        }
        i += 1;
    }
    false
}

/// The frame for a call that spends the two tiles `consumed`.
fn pair_frame(kind: u32, hand: &[u32], consumed: &[String; 2]) -> (r: Option<ClientFrame>)
    ensures
        r == match named_indices(hand@, consumed@) {
            Some(idx) => Some(ClientFrame::CallPair { kind, hai0: idx[0], hai1: idx[1] }),
            None => None,
        },
{
    match take_indices(hand, array_as_slice(consumed)) {
        Some(idx) => Some(ClientFrame::CallPair { kind, hai0: idx[0], hai1: idx[1] }),
        None => None,
    }
}

/// The frame that performs one mjai action, if there is one.
pub fn client_frame(action: &MjaiEvent, view: HandView) -> (r: Option<ClientFrame>)
    ensures
        r == frame_of(*action, view.hand@, view.melds@, view.is_tsumo),
{
    match action {
        MjaiEvent::Dahai { pai, tsumogiri, .. } => {
            match dahai_index(view, pai.as_str(), *tsumogiri) {
                Some(p) => Some(ClientFrame::Discard { p }),
                None => None,
            }
        },
        MjaiEvent::Reach { .. } => Some(ClientFrame::Reach),
        MjaiEvent::Chi { consumed, .. } => pair_frame(3, view.hand, consumed),
        MjaiEvent::Pon { consumed, .. } => pair_frame(1, view.hand, consumed),
        // Daiminkan consumes every remaining copy, so there is nothing to
        // disambiguate and the frame carries no tile.
        MjaiEvent::Daiminkan { .. } => Some(ClientFrame::Declare { kind: 2 }),
        MjaiEvent::Ankan { consumed, .. } => {
            // The frame names the tile *type*, not a copy: index / 4 * 4.
            match tile_index(view.hand, consumed[0].as_str()) {
                Some(index) => Some(ClientFrame::DeclareTile { kind: 4, hai: index / 4 * 4 }),
                None => None,
            }
        },
        MjaiEvent::Kakan { pai, .. } => {
            // The added tile comes from hand; the existing pon supplies the
            // rest. Verify the pon is actually there so a desynced meld list
            // fails here instead of on the wire.
            match tile_index(view.hand, pai.as_str()) {
                Some(index) => if holds_pon(view.melds, index) {
                    Some(ClientFrame::DeclareTile { kind: 5, hai: index })
                } else {
                    None
                },
                None => None,
            }
        },
        // Sanma only. If the type is wrong the server ignores the frame and
        // the turn times out — a stall, not a misplay — but it is the one
        // line to suspect first if sanma autoplay never manages to declare
        // kita.
        MjaiEvent::Kita { .. } => Some(ClientFrame::Declare { kind: 10 }),
        // mjai emits both tsumo agari and ron as `hora`; Tenhou splits them.
        // Tsumo is the case where the winning tile came from our own draw,
        // which mjai marks by `actor == target`.
        MjaiEvent::Hora { actor, target, .. } => {
            let kind: u32 = if *actor == *target {
                7
            } else {
                6
            };
            Some(ClientFrame::Declare { kind })
        },
        // The only abortive draw a player declares is 九種九牌.
        MjaiEvent::Ryukyoku { .. } => Some(ClientFrame::Declare { kind: 9 }),
        // Decline whatever the server offered. Callers must only send this
        // while a decision window is actually open.
        MjaiEvent::Pass => Some(ClientFrame::Decline),
        _ => None,
    }
}

/// The JSON text of a frame.
pub fn render_frame(frame: ClientFrame) -> (r: String)
    ensures
        r@ == frame_text(frame),
{
    match frame {
        ClientFrame::Discard { p } => {
            let mut out = "{\"p\":".to_owned();
            text::push_decimal(&mut out, p);
            out.append(",\"tag\":\"D\"}");
            out
        },
        ClientFrame::Reach => "{\"tag\":\"REACH\"}".to_owned(),
        ClientFrame::Declare { kind } => {
            let mut out = "{\"tag\":\"N\",\"type\":".to_owned();
            text::push_decimal(&mut out, kind);
            out.append("}");
            out
        },
        ClientFrame::DeclareTile { kind, hai } => {
            let mut out = "{\"hai\":".to_owned();
            text::push_decimal(&mut out, hai);
            out.append(",\"tag\":\"N\",\"type\":");
            text::push_decimal(&mut out, kind);
            out.append("}");
            out
        },
        ClientFrame::CallPair { kind, hai0, hai1 } => {
            let mut out = "{\"hai0\":".to_owned();
            text::push_decimal(&mut out, hai0);
            out.append(",\"hai1\":");
            text::push_decimal(&mut out, hai1);
            out.append(",\"tag\":\"N\",\"type\":");
            text::push_decimal(&mut out, kind);
            out.append("}");
            out
        },
        ClientFrame::Decline => "{\"tag\":\"N\"}".to_owned(),
    }
}

/// Encode one mjai action as the Tenhou client frame that performs it.
///
/// Returns `None` when the action has no Tenhou frame (bridge-only events like
/// `tsumo` / `start_kyoku`) or when no tile of the named *type* is in
/// `view.hand` — the latter means our tracked hand and the bot's view disagree,
/// and sending a guessed index would discard the wrong tile.
pub fn encode(action: &MjaiEvent, view: HandView) -> (r: Option<String>)
    ensures
        (match r {
            Some(out) => Some(out@),
            None => None,
        }) == match frame_of(*action, view.hand@, view.melds@, view.is_tsumo) {
            Some(frame) => Some(frame_text(frame)),
            None => None,
        },
{
    match client_frame(action, view) {
        Some(frame) => Some(render_frame(frame)),
        None => None,
    }
}

/// A label resolves exactly where its type is held, to a held copy of that
/// type — never across types — and to a copy of the named redness whenever
/// one is held.
pub proof fn law_label_resolves_within_its_type(hand: Seq<u32>, label: Seq<char>)
    ensures
        named_index(hand, label) is Some <==> (class_of(label) is Some && exists|q: int|
            0 <= q < hand.len() && (#[trigger] hand[q]) / 4 == class_of(label)->0),
        named_index(hand, label) matches Some(index) ==> {
            &&& hand.contains(index)
            &&& class_of(label) == Some((index / 4) as nat)
            &&& forall|q: int|
                0 <= q < hand.len() && fits(
                    #[trigger] hand[q],
                    (index / 4) as nat,
                    Some(names_red(label)),
                ) ==> tile::red_index(index) == names_red(label)
        },
{
    if let Some((ty, red)) = label::label_type(label) {
        if exists|q: int| 0 <= q < hand.len() && (#[trigger] hand[q]) / 4 == ty {
            let q = choose|q: int| 0 <= q < hand.len() && (#[trigger] hand[q]) / 4 == ty;
            lemma_pick_exists(hand, ty, None, q);
        }
        if exists|q: int| 0 <= q < hand.len() && fits(#[trigger] hand[q], ty, Some(red)) {
            let q = choose|q: int| 0 <= q < hand.len() && fits(#[trigger] hand[q], ty, Some(red));
            lemma_pick_exists(hand, ty, Some(red), q);
        }
    }
}

/// Two labels never collapse onto one physical tile: in a hand of distinct
/// tiles the two tiles a call spends differ, and both are held.
pub proof fn law_a_call_spends_two_distinct_copies(hand: Seq<u32>, labels: Seq<String>)
    requires
        labels.len() == 2,
        hand.no_duplicates(),
    ensures
        named_indices(hand, labels) matches Some(idx) ==> {
            &&& idx.len() == 2
            &&& idx[0] != idx[1]
            &&& hand.contains(idx[0])
            &&& hand.contains(idx[1])
        },
{
    if let Some(idx) = named_indices(hand, labels) {
        reveal_with_fuel(named_indices, 3);
        let rest = labels.drop_first();
        let p = named_position(hand, labels[0]@)->0;
        law_label_resolves_within_its_type(hand, labels[0]@);
        let left = hand.remove(p);
        law_label_resolves_within_its_type(left, rest[0]@);
        let q = named_position(left, rest[0]@)->0;
        assert(idx == seq![hand[p]] + (seq![left[q]] + Seq::<u32>::empty()));
        lemma_position_in_range(hand, labels[0]@);
        lemma_position_in_range(left, rest[0]@);
        assert(left[q] == hand[if q < p {
            q
        } else {
            q + 1
        }]);
    }
}

/// A named position lies inside the pool.
proof fn lemma_position_in_range(pool: Seq<u32>, label: Seq<char>)
    ensures
        named_position(pool, label) matches Some(p) ==> 0 <= p < pool.len(),
{
}

/// A discard throws a tile that is held and of the named type, and a
/// tsumogiri of the drawn tile throws the drawn copy itself.
pub proof fn law_discard_throws_a_held_copy(
    hand: Seq<u32>,
    is_tsumo: bool,
    pai: Seq<char>,
    tsumogiri: bool,
)
    requires
        forall|i: int| 0 <= i < hand.len() ==> (#[trigger] hand[i]) < tile::TILE_COUNT,
    ensures
        discard_index(hand, is_tsumo, pai, tsumogiri) matches Some(index) ==> {
            &&& hand.contains(index)
            &&& class_of(pai) == Some((index / 4) as nat)
        },
        is_tsumo && tsumogiri && hand.len() > 0 && tile::index_label(hand.last()) == pai
            ==> discard_index(hand, is_tsumo, pai, tsumogiri) == Some(hand.last()),
{
    law_label_resolves_within_its_type(hand, pai);
    if hand.len() > 0 {
        assert(hand.last() == hand[hand.len() - 1]);
        tile::law_index_label_reads_back(hand.last());
    }
}

/// Whether a hand holds a tile of the type that a label names.
pub open spec fn holds_named(hand: Seq<u32>, label: Seq<char>) -> bool {
    class_of(label) matches Some(class) && exists|q: int|
        0 <= q < hand.len() && (#[trigger] hand[q]) / 4 == class
}

/// An action is refused only where it names a tile whose type is not held, or
/// extends a pon that is not there, or is not an action at all. Everything
/// else has a frame.
pub proof fn law_only_tiles_that_are_not_held_are_refused(
    action: MjaiEvent,
    hand: Seq<u32>,
    melds: Seq<Meld>,
    is_tsumo: bool,
)
    requires
        forall|i: int| 0 <= i < hand.len() ==> (#[trigger] hand[i]) < tile::TILE_COUNT,
    ensures
        frame_of(action, hand, melds, is_tsumo) is Some <==> match action {
            MjaiEvent::Dahai { pai, .. } => holds_named(hand, pai@),
            MjaiEvent::Ankan { consumed, .. } => holds_named(hand, consumed@[0]@),
            MjaiEvent::Kakan { pai, .. } => holds_named(hand, pai@) && exists|i: int|
                0 <= i < melds.len() && (#[trigger] melds[i]).kind == MeldKind::Pon
                    && melds[i].tiles@.len() > 0 && Some((melds[i].tiles@[0] / 4) as nat)
                    == class_of(pai@),
            MjaiEvent::Chi { consumed, .. } | MjaiEvent::Pon { consumed, .. } => named_indices(
                hand,
                consumed@,
            ) is Some,
            MjaiEvent::Reach { .. }
            | MjaiEvent::Daiminkan { .. }
            | MjaiEvent::Kita { .. }
            | MjaiEvent::Hora { .. }
            | MjaiEvent::Ryukyoku { .. }
            | MjaiEvent::Pass => true,
            _ => false,
        },
{
    match action {
        MjaiEvent::Dahai { pai, tsumogiri, .. } => {
            law_label_resolves_within_its_type(hand, pai@);
            law_discard_throws_a_held_copy(hand, is_tsumo, pai@, tsumogiri);
            if let Some(index) = discard_index(hand, is_tsumo, pai@, tsumogiri) {
                let q = choose|q: int| 0 <= q < hand.len() && hand[q] == index;
                assert(hand[q] / 4 == class_of(pai@)->0);
            }
        },
        MjaiEvent::Ankan { consumed, .. } => {
            law_label_resolves_within_its_type(hand, consumed@[0]@);
        },
        MjaiEvent::Kakan { pai, .. } => {
            law_label_resolves_within_its_type(hand, pai@);
        },
        _ => {},
    }
}

/// The index picked from one order of a pool is at most the one picked from
/// another.
proof fn lemma_pick_is_found_in_any_order(
    pool: Seq<u32>,
    other: Seq<u32>,
    ty: nat,
    red: Option<bool>,
)
    requires
        pool.to_multiset() == other.to_multiset(),
    ensures
        pick(pool, ty, red) matches Some(p) ==> {
            &&& 0 <= p < pool.len()
            &&& pick(other, ty, red) matches Some(q) && 0 <= q < other.len() && pool[p] <= other[q]
        },
{
    broadcast use vstd::seq_lib::group_to_multiset_ensures;

    if let Some(p) = pick(pool, ty, red) {
        assert(is_pick(pool, ty, red, p));
        assert(pool.contains(pool[p]));
        assert(other.to_multiset().count(pool[p]) > 0);
        assert(other.contains(pool[p]));
        let q = choose|q: int| 0 <= q < other.len() && other[q] == pool[p];
        lemma_pick_exists(other, ty, red, q);
    }
}

/// Which index a label names does not depend on the order of the pool.
proof fn lemma_named_index_in_any_order(pool: Seq<u32>, other: Seq<u32>, label: Seq<char>)
    requires
        pool.to_multiset() == other.to_multiset(),
    ensures
        named_index(pool, label) == named_index(other, label),
{
    if let Some((ty, red)) = label::label_type(label) {
        lemma_pick_is_found_in_any_order(pool, other, ty, Some(red));
        lemma_pick_is_found_in_any_order(other, pool, ty, Some(red));
        lemma_pick_is_found_in_any_order(pool, other, ty, None);
        lemma_pick_is_found_in_any_order(other, pool, ty, None);
    }
}

/// Which indices several labels name does not depend on the order of the pool.
proof fn lemma_named_indices_in_any_order(pool: Seq<u32>, other: Seq<u32>, labels: Seq<String>)
    requires
        pool.to_multiset() == other.to_multiset(),
    ensures
        named_indices(pool, labels) == named_indices(other, labels),
    decreases labels.len(),
{
    broadcast use vstd::seq_lib::group_to_multiset_ensures;

    if labels.len() > 0 {
        lemma_named_index_in_any_order(pool, other, labels[0]@);
        lemma_position_in_range(pool, labels[0]@);
        lemma_position_in_range(other, labels[0]@);
        if let Some(p) = named_position(pool, labels[0]@) {
            let q = named_position(other, labels[0]@)->0;
            assert(pool[p] == other[q]);
            assert(pool.remove(p).to_multiset() == pool.to_multiset().remove(pool[p]));
            assert(other.remove(q).to_multiset() == other.to_multiset().remove(other[q]));
            lemma_named_indices_in_any_order(pool.remove(p), other.remove(q), labels.drop_first());
        }
    }
}

/// The order of the hand matters only to a tsumogiri after a draw, which
/// looks for the drawn tile at the end: every other action has the same frame
/// for two hands of the same tiles.
pub proof fn law_hand_order_matters_only_to_a_tsumogiri(
    action: MjaiEvent,
    hand: Seq<u32>,
    other: Seq<u32>,
    melds: Seq<Meld>,
    is_tsumo: bool,
)
    requires
        hand.to_multiset() == other.to_multiset(),
        action matches MjaiEvent::Dahai { tsumogiri, .. } ==> !(tsumogiri && is_tsumo),
    ensures
        frame_of(action, hand, melds, is_tsumo) == frame_of(action, other, melds, is_tsumo),
{
    match action {
        MjaiEvent::Dahai { pai, .. } => lemma_named_index_in_any_order(hand, other, pai@),
        MjaiEvent::Chi { consumed, .. } => lemma_named_indices_in_any_order(
            hand,
            other,
            consumed@,
        ),
        MjaiEvent::Pon { consumed, .. } => lemma_named_indices_in_any_order(
            hand,
            other,
            consumed@,
        ),
        MjaiEvent::Ankan { consumed, .. } => lemma_named_index_in_any_order(
            hand,
            other,
            consumed@[0]@,
        ),
        MjaiEvent::Kakan { pai, .. } => lemma_named_index_in_any_order(hand, other, pai@),
        _ => {},
    }
}

/// Whether the tile at `p` is the best answer to a label among the tiles of
/// the hand but for the one at `without`: it is of the named type, a copy of
/// the named redness is preferred to one that is not, and among copies of one
/// redness the greater index.
pub open spec fn is_best_copy(hand: Seq<u32>, without: int, label: Seq<char>, p: int) -> bool {
    &&& 0 <= p < hand.len() && p != without
    &&& label::label_type(label) matches Some((ty, red)) && {
        &&& hand[p] / 4 == ty
        &&& forall|j: int|
            0 <= j < hand.len() && j != without && (#[trigger] hand[j]) / 4 == ty ==> {
                let red_p = hand[p] == 16 || hand[p] == 52 || hand[p] == 88;
                let red_j = hand[j] == 16 || hand[j] == 52 || hand[j] == 88;
                &&& red_j == red ==> red_p == red
                &&& red_j == red_p ==> hand[j] <= hand[p]
            }
    }
}

/// The lookup answers with the best copy, wherever the type is held.
proof fn lemma_named_position_is_best(pool: Seq<u32>, label: Seq<char>)
    ensures
        named_position(pool, label) matches Some(p) ==> is_best_copy(pool, -1, label, p),
        named_position(pool, label) is Some <==> holds_named(pool, label),
{
    law_label_resolves_within_its_type(pool, label);
    if let Some((ty, red)) = label::label_type(label) {
        if let Some(p) = named_position(pool, label) {
            let exact = pick(pool, ty, Some(red));
            assert forall|j: int| 0 <= j < pool.len() && (#[trigger] pool[j]) / 4 == ty implies {
                let red_p = pool[p] == 16 || pool[p] == 52 || pool[p] == 88;
                let red_j = pool[j] == 16 || pool[j] == 52 || pool[j] == 88;
                &&& red_j == red ==> red_p == red
                &&& red_j == red_p ==> pool[j] <= pool[p]
            } by {
                assert(fits(pool[j], ty, None));
                if tile::red_index(pool[j]) == red {
                    assert(fits(pool[j], ty, Some(red)));
                    lemma_pick_exists(pool, ty, Some(red), j);
                }
            }
        }
    }
}

/// The frame of a chi or pon names two tiles of the hand at different places:
/// the first the best copy for the first consumed label, the second the best
/// copy for the second among the tiles that are left. The frame is there
/// exactly where two different tiles of the two named types are held, and its
/// type is 3 for a chi and 1 for a pon.
pub proof fn law_a_call_names_two_tiles_of_the_hand(
    action: MjaiEvent,
    consumed: [String; 2],
    hand: Seq<u32>,
    melds: Seq<Meld>,
    is_tsumo: bool,
)
    requires
        match action {
            MjaiEvent::Chi { consumed: c, .. } => c == consumed,
            MjaiEvent::Pon { consumed: c, .. } => c == consumed,
            _ => false,
        },
    ensures
        frame_of(action, hand, melds, is_tsumo) is Some <==> exists|p: int, q: int|
            {
                &&& 0 <= p < hand.len() && 0 <= q < hand.len() && p != q
                &&& class_of(consumed@[0]@) == Some(((#[trigger] hand[p]) / 4) as nat)
                &&& class_of(consumed@[1]@) == Some(((#[trigger] hand[q]) / 4) as nat)
            },
        frame_of(action, hand, melds, is_tsumo) matches Some(frame) ==> exists|p: int, q: int|
            {
                &&& #[trigger] is_best_copy(hand, -1, consumed@[0]@, p)
                &&& #[trigger] is_best_copy(hand, p, consumed@[1]@, q)
                &&& p != q
                &&& frame == (ClientFrame::CallPair {
                    kind: if action is Chi {
                        3
                    } else {
                        1
                    },
                    hai0: hand[p],
                    hai1: hand[q],
                })
            },
        frame_of(action, hand, melds, is_tsumo) matches Some(
            ClientFrame::CallPair { hai0, hai1, .. },
        ) ==> {
            &&& hand.contains(hai0) && hand.contains(hai1)
            &&& class_of(consumed@[0]@) == Some((hai0 / 4) as nat)
            &&& class_of(consumed@[1]@) == Some((hai1 / 4) as nat)
            &&& hand.no_duplicates() ==> hai0 != hai1
        },
{
    let labels = consumed@;
    let rest = labels.drop_first();
    reveal_with_fuel(named_indices, 3);
    lemma_named_position_is_best(hand, labels[0]@);
    assert(rest[0] == labels[1]);
    if let Some(p) = named_position(hand, labels[0]@) {
        let left = hand.remove(p);
        lemma_named_position_is_best(left, labels[1]@);
        assert(forall|j: int|
            0 <= j < left.len() ==> #[trigger] left[j] == hand[if j < p {
                j
            } else {
                j + 1
            }]);
        if let Some(k) = named_position(left, labels[1]@) {
            let q = if k < p {
                k
            } else {
                k + 1
            };
            assert(named_indices(hand, labels) == Some(
                seq![hand[p]] + (seq![left[k]] + Seq::<u32>::empty()),
            ));
            assert(is_best_copy(hand, p, labels[1]@, q)) by {
                assert forall|j: int|
                    0 <= j < hand.len() && j != p && (#[trigger] hand[j]) / 4 == class_of(
                        labels[1]@,
                    )->0 implies {
                    let red = names_red(labels[1]@);
                    let red_q = hand[q] == 16 || hand[q] == 52 || hand[q] == 88;
                    let red_j = hand[j] == 16 || hand[j] == 52 || hand[j] == 88;
                    &&& red_j == red ==> red_q == red
                    &&& red_j == red_q ==> hand[j] <= hand[q]
                } by {
                    assert(left[if j < p {
                        j
                    } else {
                        j - 1
                    }] == hand[j]);
                }
            }
            assert(hand[p] / 4 == class_of(labels[0]@)->0 && hand[q] / 4 == class_of(
                labels[1]@,
            )->0);
        }
        if exists|a: int, b: int|
            {
                &&& 0 <= a < hand.len() && 0 <= b < hand.len() && a != b
                &&& class_of(labels[0]@) == Some(((#[trigger] hand[a]) / 4) as nat)
                &&& class_of(labels[1]@) == Some(((#[trigger] hand[b]) / 4) as nat)
            } {
            let (a, b) = choose|a: int, b: int|
                {
                    &&& 0 <= a < hand.len() && 0 <= b < hand.len() && a != b
                    &&& class_of(labels[0]@) == Some(((#[trigger] hand[a]) / 4) as nat)
                    &&& class_of(labels[1]@) == Some(((#[trigger] hand[b]) / 4) as nat)
                };
            let c = if b == p {
                a
            } else {
                b
            };
            assert(left[if c < p {
                c
            } else {
                c - 1
            }] == hand[c]);
        }
    } else {
        if exists|a: int, b: int|
            {
                &&& 0 <= a < hand.len() && 0 <= b < hand.len() && a != b
                &&& class_of(labels[0]@) == Some(((#[trigger] hand[a]) / 4) as nat)
                &&& class_of(labels[1]@) == Some(((#[trigger] hand[b]) / 4) as nat)
            } {
            assert(holds_named(hand, labels[0]@));
        }
    }
}

/// The class of a label is the type it names, and whether it names a red copy
/// is whether it ends in `r`.
pub proof fn law_class_and_redness_of_a_label(label: Seq<char>)
    ensures
        class_of(label) is Some <==> label::label_type(label) is Some,
        label::label_type(label) matches Some((ty, red)) ==> class_of(label) == Some(ty)
            && names_red(label) == red && (names_red(label) <==> label.last() == 'r'),
        label::label_type(label) is None ==> !names_red(label),
{
    label::law_labels_letter_by_letter(label);
}

/// The frame of a discard throws one tile of the hand, wherever the named type
/// is held and only there. A tsumogiri of exactly the tile that was drawn
/// throws that tile; everything else throws the best copy for the label.
pub proof fn law_a_discard_throws_one_tile_of_the_hand(
    action: MjaiEvent,
    actor: u8,
    pai: String,
    tsumogiri: bool,
    hand: Seq<u32>,
    melds: Seq<Meld>,
    is_tsumo: bool,
)
    requires
        action == (MjaiEvent::Dahai { actor, pai, tsumogiri }),
        forall|i: int| 0 <= i < hand.len() ==> (#[trigger] hand[i]) < 136,
    ensures
        ({
            let drawn = hand[hand.len() - 1];
            let throws_drawn = is_tsumo && tsumogiri && hand.len() > 0 && label::label_type(pai@)
                == Some(((drawn / 4) as nat, drawn == 16 || drawn == 52 || drawn == 88));
            let frame = frame_of(action, hand, melds, is_tsumo);
            &&& frame is Some <==> exists|q: int|
                0 <= q < hand.len() && Some(((#[trigger] hand[q]) / 4) as nat) == class_of(pai@)
            &&& throws_drawn ==> frame == Some(ClientFrame::Discard { p: drawn })
            &&& frame is Some && !throws_drawn ==> exists|q: int|
                #[trigger] is_best_copy(hand, -1, pai@, q) && frame == Some(
                    ClientFrame::Discard { p: hand[q] },
                )
        }),
{
    law_only_tiles_that_are_not_held_are_refused(action, hand, melds, is_tsumo);
    lemma_named_position_is_best(hand, pai@);
    if hand.len() > 0 {
        let drawn = hand[hand.len() - 1];
        assert(hand.last() == drawn);
        tile::law_index_label_reads_back(drawn);
        label::law_labels_and_types_correspond((drawn / 4) as nat, tile::red_index(drawn), pai@);
    }
    if let Some(q) = named_position(hand, pai@) {
        assert(is_best_copy(hand, -1, pai@, q));
    }
}

/// The frame of a kan from the own turn. A concealed one names the first index
/// of its type, whichever copy it was named by, wherever the type is held. An
/// added one names the best held copy, wherever one is held and a pon of the
/// same type has been called.
pub proof fn law_kan_frames(
    action: MjaiEvent,
    hand: Seq<u32>,
    melds: Seq<Meld>,
    is_tsumo: bool,
)
    ensures
        action matches MjaiEvent::Ankan { consumed, .. } ==> {
            let frame = frame_of(action, hand, melds, is_tsumo);
            &&& frame is Some <==> exists|q: int|
                0 <= q < hand.len() && Some(((#[trigger] hand[q]) / 4) as nat) == class_of(
                    consumed@[0]@,
                )
            &&& frame matches Some(f) ==> f matches ClientFrame::DeclareTile { kind, hai } && kind
                == 4 && class_of(consumed@[0]@) == Some((hai / 4) as nat) && hai % 4 == 0
        },
        action matches MjaiEvent::Kakan { pai, .. } ==> {
            let frame = frame_of(action, hand, melds, is_tsumo);
            &&& frame is Some <==> {
                &&& exists|q: int|
                    0 <= q < hand.len() && Some(((#[trigger] hand[q]) / 4) as nat) == class_of(pai@)
                &&& exists|i: int|
                    0 <= i < melds.len() && (#[trigger] melds[i]).kind == MeldKind::Pon
                        && melds[i].tiles@.len() > 0 && Some((melds[i].tiles@[0] / 4) as nat)
                        == class_of(pai@)
            }
            &&& frame is Some ==> exists|q: int|
                #[trigger] is_best_copy(hand, -1, pai@, q) && frame == Some(
                    ClientFrame::DeclareTile { kind: 5, hai: hand[q] },
                )
        },
{
    match action {
        MjaiEvent::Ankan { consumed, .. } => {
            lemma_named_position_is_best(hand, consumed@[0]@);
            law_label_resolves_within_its_type(hand, consumed@[0]@);
        },
        MjaiEvent::Kakan { pai, .. } => {
            lemma_named_position_is_best(hand, pai@);
            law_label_resolves_within_its_type(hand, pai@);
            if let Some(q) = named_position(hand, pai@) {
                assert(is_best_copy(hand, -1, pai@, q));
                assert(hand[q] / 4 == class_of(pai@)->0);
            }
        },
        _ => {},
    }
}

/// The declarations that name no tile, each by the number the server knows it
/// by, whatever is held. What is not an action has no frame.
pub proof fn law_declarations_by_number(
    action: MjaiEvent,
    hand: Seq<u32>,
    melds: Seq<Meld>,
    is_tsumo: bool,
)
    ensures
        ({
            let frame = frame_of(action, hand, melds, is_tsumo);
            &&& action is Reach ==> frame == Some(ClientFrame::Reach)
            &&& action is Pass ==> frame == Some(ClientFrame::Decline)
            &&& action is Daiminkan ==> frame == Some(ClientFrame::Declare { kind: 2 })
            &&& action is Ryukyoku ==> frame == Some(ClientFrame::Declare { kind: 9 })
            &&& action is Kita ==> frame == Some(ClientFrame::Declare { kind: 10 })
            &&& action matches MjaiEvent::Hora { actor, target, .. } ==> frame == Some(
                ClientFrame::Declare {
                    kind: if actor == target {
                        7
                    } else {
                        6
                    },
                },
            )
            &&& action is StartGame || action is StartKyoku || action is Tsumo || action is Dora
                || action is ReachAccepted || action is EndKyoku || action is EndGame
                ==> frame is None
        }),
{
}

/// The text of a JSON object with the given members, each a key and the text
/// of its value.
pub open spec fn object_text(members: Seq<(Seq<char>, Seq<char>)>) -> Seq<char> {
    seq!['{'] + members_text(members) + seq!['}']
}

/// The members of a JSON object, separated by commas.
pub open spec fn members_text(members: Seq<(Seq<char>, Seq<char>)>) -> Seq<char>
    decreases members.len(),
{
    if members.len() == 0 {
        seq![]
    } else {
        let (key, value) = members.last();
        let earlier = members_text(members.drop_last());
        let separated = if members.len() > 1 {
            earlier.push(',')
        } else {
            earlier
        };
        separated + seq!['"'] + key + seq!['"', ':'] + value
    }
}

/// The text of a frame is a JSON object: the tag, and next to it exactly the
/// numbers the frame carries, each under its own key, in the order of the
/// alphabet.
pub proof fn law_frame_text_is_a_json_object(frame: ClientFrame)
    ensures
        frame_text(frame) == object_text(
            match frame {
                ClientFrame::Discard { p } => seq![
                    (seq!['p'], text::decimal(p as nat)),
                    (seq!['t', 'a', 'g'], seq!['"', 'D', '"']),
                ],
                ClientFrame::Reach => seq![
                    (seq!['t', 'a', 'g'], seq!['"', 'R', 'E', 'A', 'C', 'H', '"']),
                ],
                ClientFrame::Declare { kind } => seq![
                    (seq!['t', 'a', 'g'], seq!['"', 'N', '"']),
                    (seq!['t', 'y', 'p', 'e'], text::decimal(kind as nat)),
                ],
                ClientFrame::DeclareTile { kind, hai } => seq![
                    (seq!['h', 'a', 'i'], text::decimal(hai as nat)),
                    (seq!['t', 'a', 'g'], seq!['"', 'N', '"']),
                    (seq!['t', 'y', 'p', 'e'], text::decimal(kind as nat)),
                ],
                ClientFrame::CallPair { kind, hai0, hai1 } => seq![
                    (seq!['h', 'a', 'i', '0'], text::decimal(hai0 as nat)),
                    (seq!['h', 'a', 'i', '1'], text::decimal(hai1 as nat)),
                    (seq!['t', 'a', 'g'], seq!['"', 'N', '"']),
                    (seq!['t', 'y', 'p', 'e'], text::decimal(kind as nat)),
                ],
                ClientFrame::Decline => seq![(seq!['t', 'a', 'g'], seq!['"', 'N', '"'])],
            },
        ),
{
    let tag = (seq!['t', 'a', 'g'], seq!['"', 'N', '"']);
    match frame {
        ClientFrame::Discard { p } => {
            let n = (seq!['p'], text::decimal(p as nat));
            let d = (seq!['t', 'a', 'g'], seq!['"', 'D', '"']);
            lemma_two_members(n, d);
            reveal_strlit("{\"p\":");
            reveal_strlit(",\"tag\":\"D\"}");
            assert(frame_text(frame) =~= object_text(seq![n, d]));
        },
        ClientFrame::Reach => {
            let r = (seq!['t', 'a', 'g'], seq!['"', 'R', 'E', 'A', 'C', 'H', '"']);
            lemma_one_member(r);
            reveal_strlit("{\"tag\":\"REACH\"}");
            assert(frame_text(frame) =~= object_text(seq![r]));
        },
        ClientFrame::Declare { kind } => {
            let k = (seq!['t', 'y', 'p', 'e'], text::decimal(kind as nat));
            lemma_two_members(tag, k);
            reveal_strlit("{\"tag\":\"N\",\"type\":");
            reveal_strlit("}");
            assert(frame_text(frame) =~= object_text(seq![tag, k]));
        },
        ClientFrame::DeclareTile { kind, hai } => lemma_tile_frame_text(kind, hai),
        ClientFrame::CallPair { kind, hai0, hai1 } => lemma_pair_frame_text(kind, hai0, hai1),
        ClientFrame::Decline => {
            lemma_one_member(tag);
            reveal_strlit("{\"tag\":\"N\"}");
            assert(frame_text(frame) =~= object_text(seq![tag]));
        },
    }
}

/// The text of a declaration that names one tile.
proof fn lemma_tile_frame_text(kind: u32, hai: u32)
    ensures
        frame_text(ClientFrame::DeclareTile { kind, hai }) == object_text(
            seq![
                (seq!['h', 'a', 'i'], text::decimal(hai as nat)),
                (seq!['t', 'a', 'g'], seq!['"', 'N', '"']),
                (seq!['t', 'y', 'p', 'e'], text::decimal(kind as nat)),
            ],
        ),
{
    let h = (seq!['h', 'a', 'i'], text::decimal(hai as nat));
    let tag = (seq!['t', 'a', 'g'], seq!['"', 'N', '"']);
    let k = (seq!['t', 'y', 'p', 'e'], text::decimal(kind as nat));
    let tail = ",\"tag\":\"N\",\"type\":"@;
    lemma_one_member(h);
    lemma_tag_and_type(seq![h], k.1);
    assert(seq![h].push(tag).push(k) =~= seq![h, tag, k]);
    reveal_strlit("{\"hai\":");
    assert("{\"hai\":"@ =~= seq!['{', '"'] + h.0 + seq!['"', ':']);
    assert("{\"hai\":"@ + h.1 =~= seq!['{'] + members_text(seq![h]));
    reveal_strlit("}");
    assert("}"@ =~= seq!['}']);
    assert(seq!['{'] + members_text(seq![h]) + tail + k.1 + seq!['}'] =~= object_text(
        seq![h, tag, k],
    ));
}

/// The text of a call that names two tiles.
proof fn lemma_pair_frame_text(kind: u32, hai0: u32, hai1: u32)
    ensures
        frame_text(ClientFrame::CallPair { kind, hai0, hai1 }) == object_text(
            seq![
                (seq!['h', 'a', 'i', '0'], text::decimal(hai0 as nat)),
                (seq!['h', 'a', 'i', '1'], text::decimal(hai1 as nat)),
                (seq!['t', 'a', 'g'], seq!['"', 'N', '"']),
                (seq!['t', 'y', 'p', 'e'], text::decimal(kind as nat)),
            ],
        ),
{
    let h = (seq!['h', 'a', 'i', '0'], text::decimal(hai0 as nat));
    let i = (seq!['h', 'a', 'i', '1'], text::decimal(hai1 as nat));
    let tag = (seq!['t', 'a', 'g'], seq!['"', 'N', '"']);
    let k = (seq!['t', 'y', 'p', 'e'], text::decimal(kind as nat));
    let pair = "{\"hai0\":"@ + h.1 + ",\"hai1\":"@ + i.1;
    assert(pair =~= seq!['{'] + members_text(seq![h, i])) by {
        lemma_two_members(h, i);
        reveal_strlit("{\"hai0\":");
        reveal_strlit(",\"hai1\":");
        assert("{\"hai0\":"@ =~= seq!['{', '"'] + h.0 + seq!['"', ':']);
        assert(",\"hai1\":"@ =~= seq![',', '"'] + i.0 + seq!['"', ':']);
    }
    let tail = ",\"tag\":\"N\",\"type\":"@;
    lemma_tag_and_type(seq![h, i], k.1);
    assert(seq![h, i].push(tag).push(k) =~= seq![h, i, tag, k]);
    reveal_strlit("}");
    assert("}"@ =~= seq!['}']);
    assert(frame_text(ClientFrame::CallPair { kind, hai0, hai1 }) == pair + tail + k.1 + "}"@);
    assert(pair + tail + k.1 + "}"@ =~= object_text(seq![h, i, tag, k]));
}

/// One member more in a row that has some.
proof fn lemma_one_member_more(
    members: Seq<(Seq<char>, Seq<char>)>,
    key: Seq<char>,
    value: Seq<char>,
)
    requires
        members.len() > 0,
    ensures
        members_text(members.push((key, value))) == members_text(members) + (seq![',', '"'] + key
            + seq!['"', ':'] + value),
{
    assert(members.push((key, value)).drop_last() =~= members);
    assert(members_text(members.push((key, value))) =~= members_text(members) + (seq![',', '"']
        + key + seq!['"', ':'] + value));
}

/// The tag and the type behind other members.
proof fn lemma_tag_and_type(members: Seq<(Seq<char>, Seq<char>)>, value: Seq<char>)
    requires
        members.len() > 0,
    ensures
        members_text(
            members.push((seq!['t', 'a', 'g'], seq!['"', 'N', '"'])).push(
                (seq!['t', 'y', 'p', 'e'], value),
            ),
        ) == members_text(members) + ",\"tag\":\"N\",\"type\":"@ + value,
{
    let tagged = members.push((seq!['t', 'a', 'g'], seq!['"', 'N', '"']));
    lemma_one_member_more(members, seq!['t', 'a', 'g'], seq!['"', 'N', '"']);
    lemma_one_member_more(tagged, seq!['t', 'y', 'p', 'e'], value);
    let first = seq![',', '"'] + seq!['t', 'a', 'g'] + seq!['"', ':'] + seq!['"', 'N', '"'];
    let second = seq![',', '"'] + seq!['t', 'y', 'p', 'e'] + seq!['"', ':'];
    reveal_strlit(",\"tag\":\"N\",\"type\":");
    assert(first + second =~= ",\"tag\":\"N\",\"type\":"@);
    assert(members_text(members) + first + (second + value) =~= members_text(members) + (first
        + second) + value);
}

/// One member in a row.
proof fn lemma_one_member(a: (Seq<char>, Seq<char>))
    ensures
        members_text(seq![a]) == seq!['"'] + a.0 + seq!['"', ':'] + a.1,
{
    reveal_with_fuel(members_text, 2);
    assert(seq![a].drop_last() =~= Seq::empty());
    assert(members_text(seq![a]) =~= seq!['"'] + a.0 + seq!['"', ':'] + a.1);
}

/// Two members in a row.
proof fn lemma_two_members(a: (Seq<char>, Seq<char>), b: (Seq<char>, Seq<char>))
    ensures
        members_text(seq![a, b]) == seq!['"'] + a.0 + seq!['"', ':'] + a.1 + seq![',', '"'] + b.0
            + seq!['"', ':'] + b.1,
{
    lemma_one_member(a);
    assert(seq![a, b].drop_last() =~= seq![a]);
    assert(members_text(seq![a, b]) =~= seq!['"'] + a.0 + seq!['"', ':'] + a.1 + seq![',', '"']
        + b.0 + seq!['"', ':'] + b.1);
}

/// A lookup finds the best copy for its label, wherever the named type is in
/// the pool and only there.
pub proof fn law_lookup_finds_the_best_copy(pool: Seq<u32>, label: Seq<char>)
    ensures
        named_position(pool, label) is Some <==> exists|q: int|
            0 <= q < pool.len() && Some(((#[trigger] pool[q]) / 4) as nat) == class_of(label),
        named_position(pool, label) matches Some(p) ==> is_best_copy(pool, -1, label, p)
            && named_index(pool, label) == Some(pool[p]),
        named_position(pool, label) is None ==> named_index(pool, label) is None,
{
    lemma_named_position_is_best(pool, label);
}

/// A list of labels takes one copy after another: the best one for the first
/// label leaves the pool, and the rest of the list is answered from what is
/// left. No labels take nothing, and one label without an answer leaves the
/// whole list without one.
pub proof fn law_a_list_takes_one_copy_after_another(pool: Seq<u32>, labels: Seq<String>)
    ensures
        labels.len() == 0 ==> named_indices(pool, labels) == Some(Seq::<u32>::empty()),
        named_indices(pool, labels) matches Some(idx) ==> {
            &&& idx.len() == labels.len()
            &&& labels.len() > 0 ==> exists|p: int|
                {
                    &&& #[trigger] is_best_copy(pool, -1, labels[0]@, p)
                    &&& idx[0] == pool[p]
                    &&& named_indices(pool.remove(p), labels.drop_first()) == Some(idx.drop_first())
                }
        },
        labels.len() > 0 && named_indices(pool, labels) is None ==> {
            ||| named_index(pool, labels[0]@) is None
            ||| exists|p: int|
                #[trigger] is_best_copy(pool, -1, labels[0]@, p) && named_indices(
                    pool.remove(p),
                    labels.drop_first(),
                ) is None
        },
    decreases labels.len(),
{
    if labels.len() > 0 {
        law_lookup_finds_the_best_copy(pool, labels[0]@);
        if let Some(p) = named_position(pool, labels[0]@) {
            law_a_list_takes_one_copy_after_another(pool.remove(p), labels.drop_first());
            assert(is_best_copy(pool, -1, labels[0]@, p));
            if let Some(rest) = named_indices(pool.remove(p), labels.drop_first()) {
                assert((seq![pool[p]] + rest).drop_first() =~= rest);
            }
        }
    }
}

} // verus!
