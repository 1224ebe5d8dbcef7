//! Tenhou hand + decision-window slot shared from the bridge to autoplay.
//!
//! Tenhou addresses tiles by index in `0..=135` — the specific physical copy —
//! so encoding a bot action into a client frame needs the hand at that
//! resolution. The riichi engine works in mjai tile strings and cannot supply
//! it, and the autoplay manager holds no bridge handle, so the bridge
//! publishes a snapshot here on every frame it parses.
//!
//! Bridge writes, manager reads, a `std::sync::RwLock` because the writer is
//! the bridge's synchronous parse path and the reader only takes a copy.
//!
//! # The decision window
//!
//! Tenhou's server marks what we may do with a `t` attribute on the frame that
//! opens a window — the same role Majsoul's `OptionalOperationList` plays. Its
//! bits mean different things depending on which frame carried it, but the two
//! sets do not overlap, so one mask covers both:
//!
//! | bit | on our draw (`T<n>`) | on a discard (`D`/`E`/`F`/`G<n>`) |
//! |---|---|---|
//! | 1 | — | pon |
//! | 2 | — | daiminkan |
//! | 4 | — | chi |
//! | 8 | — | ron |
//! | 16 | tsumo agari | — |
//! | 32 | riichi | — |
//! | 64 | 九種九牌 | — |
//!
//! An opponent's kakan `N` frame carries the same claim bits when the kan
//! can be robbed (chankan) — the client builds its ron menu straight from
//! that attribute, and so does the bridge.
//!
//! Ankan / kakan are not in the mask; the client derives them from the hand,
//! and so does the planner. A window opened by our own draw, our own call, or
//! an accepted riichi declaration carries `ops == 0` when the server offered
//! nothing beyond the discard we owe.

use crate::autoplay::clock;
use crate::bridge::tenhou::encode::HandView;
use crate::bridge::tenhou::meld::Meld;
use std::sync::{Arc, RwLock};
use std::time::Instant;
use vstd::prelude::*;

verus! {

pub const OP_PON: u32 = 1;

pub const OP_DAIMINKAN: u32 = 2;

pub const OP_CHI: u32 = 4;

pub const OP_RON: u32 = 8;

pub const OP_TSUMO: u32 = 16;

pub const OP_REACH: u32 = 32;

pub const OP_KYUUSHU: u32 = 64;

/// An open decision window for our seat.
#[derive(Debug, Clone, Copy, PartialEq, Eq)]
pub struct DecisionWindow {
    /// Raw `t` bitmask from the frame that opened the window. Zero when the
    /// server offered nothing beyond a discard we already owe (post-draw,
    /// post-call, post-riichi-declaration).
    pub ops: u32,
    /// When we decoded the frame that opened the window. Doubles as the
    /// window's identity: if the slot no longer holds the same instant, the
    /// window we planned against has been replaced.
    pub opened_at: Instant,
}

/// Whether the mask `ops` holds one of the bits `op`.
pub open spec fn offers(ops: u32, op: u32) -> bool {
    ops & op != 0
}

/// Whether the mask offers a claim on another seat's discard.
pub open spec fn offers_claim_on_discard(ops: u32) -> bool {
    offers(ops, OP_PON) || offers(ops, OP_DAIMINKAN) || offers(ops, OP_CHI) || offers(ops, OP_RON)
}

/// Milliseconds in 32 bits, the largest number standing for everything that
/// does not fit.
pub open spec fn saturated_ms(ms: int) -> u32 {
    if ms <= u32::MAX {
        ms as u32
    } else {
        u32::MAX
    }
}

/// Milliseconds from `opened_at` to `now`, saturating.
pub open spec fn elapsed_by(opened_at: Instant, now: Instant) -> u32 {
    saturated_ms(clock::millis_between(clock::clock_nanos(opened_at), clock::clock_nanos(now)))
}

/// `ms` in 32 bits, saturating.
pub fn saturate_ms(ms: u128) -> (r: u32)
    ensures
        r == saturated_ms(ms as int),
{
    if ms <= u32::MAX as u128 {
        ms as u32
    } else {
        u32::MAX
    }
}

impl DecisionWindow {
    /// Whether the server offered any *optional* claim. False for a window
    /// that only owes a discard, which is what gates sending a decline
    /// (`{"tag":"N"}`) — Tenhou has nothing to decline in that case.
    pub fn has_claim(&self) -> (r: bool)
        ensures
            r == (self.ops != 0),
    {
        self.ops != 0
    }

    /// Whether the window offers a claim on *someone else's* discard, which
    /// is the only kind that can be declined.
    ///
    /// The own-turn offers (tsumo agari, riichi, 九種九牌) share the same
    /// mask but are not declinable: not taking one just means discarding
    /// normally, and the client renders no pass button for them.
    pub fn has_declinable_claim(&self) -> (r: bool)
        ensures
            r == offers_claim_on_discard(self.ops),
    {
        let ops: u32 = self.ops;
        assert((ops & (1u32 | 2 | 4 | 8) != 0) == (ops & 1 != 0 || ops & 2 != 0 || ops & 4 != 0
            || ops & 8 != 0)) by (bit_vector);
        ops & (OP_PON | OP_DAIMINKAN | OP_CHI | OP_RON) != 0
    }

    /// Whether the window offers `op`.
    pub fn allows(&self, op: u32) -> (r: bool)
        ensures
            r == offers(self.ops, op),
    {
        self.ops & op != 0
    }

    /// Milliseconds since the window opened, saturating.
    pub fn elapsed_ms(&self) -> (r: u32)
        ensures
            exists|now: Instant| r == #[trigger] elapsed_by(self.opened_at, now),
    {
        self.elapsed_ms_at(clock::clock_now())
    }

    /// Milliseconds from the opening of the window to `now`, saturating.
    pub fn elapsed_ms_at(&self, now: Instant) -> (r: u32)
        ensures
            r == elapsed_by(self.opened_at, now),
    {
        saturate_ms(clock::millis_of(clock::span_from(self.opened_at, now)))
    }
}

/// Tenhou's per-turn allowance, in milliseconds.
///
/// Unlike Majsoul, Tenhou never states this on the wire — it is a property of
/// the lobby's rules. The standard allowance is 5 seconds per decision plus a
/// 10-second bank for the whole hand, and running past it does not merely
/// look inhuman: the client auto-discards and the decision is gone.
pub const TURN_BASE_MS: u32 = 5_000;

pub const TURN_BANK_MS: u32 = 10_000;

/// What the Tenhou bridge knows that the riichi engine cannot express.
#[derive(Debug, Clone)]
pub struct TenhouState {
    /// Our mjai-absolute seat.
    pub seat: u8,
    /// Concealed hand as Tenhou tile indices. The tile drawn this turn, when
    /// there is one, is the tail.
    pub hand: Vec<u32>,
    /// Melds we have called this kyoku.
    pub melds: Vec<Meld>,
    /// True between our tsumo and our dahai.
    pub is_tsumo: bool,
    /// Currently open decision window for our seat, if any.
    pub window: Option<DecisionWindow>,
}

impl Default for TenhouState {
    fn default() -> (r: Self)
        ensures
            r.seat == 0,
            r.hand@ == Seq::<u32>::empty(),
            r.melds@ == Seq::<Meld>::empty(),
            !r.is_tsumo,
            r.window is None,
    {
        TenhouState { seat: 0, hand: Vec::new(), melds: Vec::new(), is_tsumo: false, window: None }
    }
}

impl TenhouState {
    /// Borrow the parts [`crate::bridge::tenhou::encode::encode`] needs.
    pub fn hand_view(&self) -> (r: HandView<'_>)
        ensures
            r.hand@ == self.hand@,
            r.melds@ == self.melds@,
            r.is_tsumo == self.is_tsumo,
    {
        HandView {
            hand: self.hand.as_slice(),
            melds: self.melds.as_slice(),
            is_tsumo: self.is_tsumo,
        }
    }
}

/// A lock of `std`. What it guards at a given moment is not known here.
#[verifier::external_type_specification]
#[verifier::external_body]
#[verifier::reject_recursive_types(T)]
pub struct ExRwLock<T: ?Sized>(std::sync::RwLock<T>);

/// Whether a slot was created without a state in it.
pub uninterp spec fn created_empty(slot: RwLock<Option<TenhouState>>) -> bool;

/// Calls `std::sync::RwLock::new` on `None`. Believed: the slot it returns
/// was created empty.
#[verifier::external_body]
fn empty_slot() -> (r: RwLock<Option<TenhouState>>)
    ensures
        created_empty(r),
{
    RwLock::new(None)
}

/// Shared slot: bridge writes, autoplay manager reads.
pub type SharedTenhouState = Arc<RwLock<Option<TenhouState>>>;

/// Fresh empty slot.
pub fn new_shared() -> (r: SharedTenhouState)
    ensures
        created_empty(*r),
{
    Arc::new(empty_slot())
}

/// The bits for our own draw and the bits for a discard do not alias: an
/// offer made of the former is still an offer, but none that can be declined
/// and none of the latter.
pub proof fn law_own_turn_offers_are_not_declinable(ops: u32)
    requires
        ops & (OP_TSUMO | OP_REACH | OP_KYUUSHU) == ops,
    ensures
        !offers_claim_on_discard(ops),
{
    assert(ops & (16u32 | 32 | 64) == ops ==> ops & 1 == 0 && ops & 2 == 0 && ops & 4 == 0 && ops
        & 8 == 0) by (bit_vector);
}

/// The elapsed time never shrinks: a later moment gives no less, the moment of
/// opening and everything before it give zero, and a moment `ms` milliseconds
/// after the opening gives at least `ms`, up to the largest number.
pub proof fn law_elapsed_time_never_shrinks(
    opened_at: Instant,
    now: Instant,
    later: Instant,
    ms: u32,
)
    requires
        clock::clock_nanos(now) <= clock::clock_nanos(later),
    ensures
        elapsed_by(opened_at, now) <= elapsed_by(opened_at, later),
        clock::clock_nanos(now) <= clock::clock_nanos(opened_at) ==> elapsed_by(opened_at, now)
            == 0,
        clock::clock_nanos(now) >= clock::clock_nanos(opened_at) + ms * 1_000_000 ==> elapsed_by(
            opened_at,
            now,
        ) >= ms,
{
}

/// What can be declined was offered, and each bit is read by itself: adding
/// another bit to the mask changes nothing about it.
pub proof fn law_each_offer_is_read_by_itself(ops: u32, op: u32, other: u32)
    ensures
        offers_claim_on_discard(ops) ==> ops != 0,
        op & other == 0 ==> offers(ops | other, op) == offers(ops, op),
        op != 0 ==> offers(ops | op, op),
{
    assert(0u32 & 1 == 0 && 0u32 & 2 == 0 && 0u32 & 4 == 0 && 0u32 & 8 == 0) by (bit_vector);
    assert(op & other == 0 ==> (ops | other) & op == ops & op) by (bit_vector);
    assert(op != 0 ==> (ops | op) & op != 0) by (bit_vector);
}

/// The bits of the wire: 1 pon, 2 open kan, 4 chi and 8 ron on another seat's
/// discard, 16 tsumo, 32 riichi and 64 the nine terminals on the own draw. What
/// can be declined is exactly what one of the first four is in.
pub proof fn law_bits_of_the_wire(ops: u32, op: u32)
    ensures
        OP_PON == 1 && OP_DAIMINKAN == 2 && OP_CHI == 4 && OP_RON == 8,
        OP_TSUMO == 16 && OP_REACH == 32 && OP_KYUUSHU == 64,
        offers_claim_on_discard(ops) <==> ops % 16 != 0,
        offers(ops, op) <==> ops & op != 0,
        offers(ops, op) ==> ops != 0 && op != 0,
{
    assert((ops & 1 != 0 || ops & 2 != 0 || ops & 4 != 0 || ops & 8 != 0) == (ops % 16 != 0))
        by (bit_vector);
    assert(0u32 & op == 0 && ops & 0u32 == 0) by (bit_vector);
}

/// The elapsed time in numbers: the nanoseconds from the opening to the moment,
/// by a million, none where the moment comes first, and the largest number
/// where it does not fit. The allowance of a turn is 5 seconds and its bank 10.
pub proof fn law_elapsed_time_in_numbers(opened_at: Instant, now: Instant)
    ensures
        ({
            let passed = clock::clock_nanos(now) - clock::clock_nanos(opened_at);
            let ms = elapsed_by(opened_at, now) as int;
            &&& passed < 1_000_000 ==> ms == 0
            &&& 0 <= passed && passed / 1_000_000 <= 0xffff_ffff ==> ms * 1_000_000 <= passed < (ms
                + 1) * 1_000_000
            &&& passed / 1_000_000 > 0xffff_ffff ==> ms == 0xffff_ffff
        }),
        TURN_BASE_MS == 5000,
        TURN_BANK_MS == 10000,
{
}

} // verus!
