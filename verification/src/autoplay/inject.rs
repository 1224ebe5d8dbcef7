//! Shared state between the Riichi City bridge, the autoplay manager, and
//! the proxy's client→server relay: injected frames travel through the
//! broadcast channel; the rest is observation state (windows, settlements)
//! the bridge writes and autoplay reads.
//!
//! Broadcast because every client→server flow subscribes and only the
//! gameplay flow should carry gameplay frames — the `gameplay` flag plus the
//! bridge's `in_game` gate enforce that in the relay.
//!
//! The bus is one value with exclusive access to itself; an application that
//! shares it between tasks puts it behind a lock.

use crate::autoplay::clock;
use crate::bridge::riichi_city::packet;
use std::time::Instant;
use tokio::sync::broadcast;
use vstd::arithmetic::power2::{lemma2_to64, lemma_pow2_strictly_increases, pow2};
use vstd::prelude::*;

verus! {

/// How many frames the channel keeps for a slow subscriber.
pub const CHANNEL_CAPACITY: usize = 64;

/// One frame to transmit. `gameplay` frames are gated on `in_game`.
#[derive(Debug)]
pub struct InjectFrame {
    pub gameplay: bool,
    pub bytes: Vec<u8>,
}

impl Clone for InjectFrame {
    fn clone(&self) -> (r: Self)
        ensures
            r.gameplay == self.gameplay,
            r.bytes@ == self.bytes@,
    {
        let bytes = self.bytes.clone();
        assert(bytes@ =~= self.bytes@);
        InjectFrame { gameplay: self.gameplay, bytes }
    }
}

/// The sending half of a `tokio` broadcast channel.
#[verifier::external_type_specification]
#[verifier::external_body]
#[verifier::reject_recursive_types(T)]
pub struct ExSender<T>(tokio::sync::broadcast::Sender<T>);

/// The receiving half of a `tokio` broadcast channel.
#[verifier::external_type_specification]
#[verifier::external_body]
#[verifier::reject_recursive_types(T)]
pub struct ExReceiver<T>(tokio::sync::broadcast::Receiver<T>);

/// The frames the channel has accepted through this sender, oldest first,
/// each as its `gameplay` flag and its bytes.
pub uninterp spec fn accepted_frames(tx: broadcast::Sender<InjectFrame>) -> Seq<(bool, Seq<u8>)>;

/// Whether a receiver has ever been taken from this sender.
pub uninterp spec fn ever_subscribed(tx: broadcast::Sender<InjectFrame>) -> bool;

/// Which channel a sender feeds: two handles of one channel have one number.
pub uninterp spec fn fed_channel(tx: broadcast::Sender<InjectFrame>) -> int;

/// Which channel a receiver reads.
pub uninterp spec fn read_channel(rx: broadcast::Receiver<InjectFrame>) -> int;

/// What the channel had accepted when a receiver was taken. The receiver
/// reads what comes after.
pub uninterp spec fn joined_after(rx: broadcast::Receiver<InjectFrame>) -> Seq<(bool, Seq<u8>)>;

/// How many frames a sender's channel keeps for subscribers that lag behind.
pub uninterp spec fn kept_frames(tx: broadcast::Sender<InjectFrame>) -> nat;

/// Whether `n` is a power of two.
pub open spec fn is_power_of_two(n: nat) -> bool {
    exists|k: nat| #[trigger] pow2(k) == n
}

/// Calls `tokio::sync::broadcast::channel` and drops the receiver that comes
/// with it. Believed: the channel starts without frames and, with its only
/// receiver gone, without subscribers, and it keeps as many frames as the
/// capacity rounded up to a power of two. The call panics on a capacity of
/// zero or above half of `usize::MAX`, so those are left out.
#[verifier::external_body]
fn frame_channel(capacity: usize) -> (tx: broadcast::Sender<InjectFrame>)
    requires
        0 < capacity <= usize::MAX / 2,
    ensures
        accepted_frames(tx) == Seq::<(bool, Seq<u8>)>::empty(),
        !ever_subscribed(tx),
        is_power_of_two(kept_frames(tx)),
        capacity <= kept_frames(tx) < 2 * capacity,
{
    let (tx, _) = broadcast::channel(capacity);
    tx
}

/// Calls `tokio::sync::broadcast::Sender::send`; `true` stands for `Ok`.
/// Believed: a frame goes out whole, behind all frames before it, or not at
/// all, it goes out on the sender's own channel, it cannot go out where no
/// receiver was ever taken, and it does go out where a receiver of the channel
/// is alive, as one that is handed over with the frame is. Whether one of the
/// receivers that are not at hand is still alive depends on their owners, so
/// nothing is claimed beyond that.
#[verifier::external_body]
fn send_frame(
    tx: &mut broadcast::Sender<InjectFrame>,
    frame: InjectFrame,
    _alive: Option<&broadcast::Receiver<InjectFrame>>,
) -> (sent: bool)
    ensures
        _alive matches Some(rx) ==> (read_channel(*rx) == fed_channel(*old(tx)) ==> sent),
        accepted_frames(*final(tx)) == if sent {
            accepted_frames(*old(tx)).push((frame.gameplay, frame.bytes@))
        } else {
            accepted_frames(*old(tx))
        },
        ever_subscribed(*final(tx)) == ever_subscribed(*old(tx)),
        fed_channel(*final(tx)) == fed_channel(*old(tx)),
        kept_frames(*final(tx)) == kept_frames(*old(tx)),
        sent ==> ever_subscribed(*old(tx)),
{
    tx.send(frame).is_ok()
}

/// Calls `tokio::sync::broadcast::Sender::subscribe`. Believed: the receiver
/// reads the sender's own channel, from behind the frames already accepted,
/// which are left alone. When it hands a frame out, and whether it is quick
/// enough to see every one before the channel drops it, is its owner's to say
/// and not claimed. The call panics past a quarter of `usize::MAX` receivers
/// alive at once, which no memory holds.
#[verifier::external_body]
fn take_receiver(tx: &mut broadcast::Sender<InjectFrame>) -> (rx: broadcast::Receiver<InjectFrame>)
    ensures
        accepted_frames(*final(tx)) == accepted_frames(*old(tx)),
        ever_subscribed(*final(tx)),
        fed_channel(*final(tx)) == fed_channel(*old(tx)),
        kept_frames(*final(tx)) == kept_frames(*old(tx)),
        read_channel(rx) == fed_channel(*old(tx)),
        joined_after(rx) == accepted_frames(*old(tx)),
{
    tx.subscribe()
}

/// What an [`InjectBus`] holds.
#[verifier::ext_equal]
pub struct BusState {
    /// The channel that the frames go out on.
    pub channel: int,
    /// How many frames the channel keeps for subscribers that lag behind.
    pub kept: nat,
    /// Frames handed to the subscribers, oldest first, each as its `gameplay`
    /// flag and its bytes.
    pub accepted: Seq<(bool, Seq<u8>)>,
    /// Whether anyone has ever subscribed.
    pub subscribed: bool,
    pub in_game: bool,
    pub rsp_seen: u64,
    pub last_rsp_code: i64,
    pub window_open: bool,
    pub window_opened_at: Option<Instant>,
    pub settlement: (u32, u32),
    pub up_index: u32,
}

pub struct InjectBus {
    tx: broadcast::Sender<InjectFrame>,
    in_game: bool,
    /// Count of `rsp_game_action` responses and the latest code (0 = ok).
    /// The count moving after a send proves the server processed the
    /// frame — the injection counterpart of the Majsoul input watch.
    rsp_seen: u64,
    last_rsp_code: i64,
    /// Whether a decision window for us is currently open, set by the
    /// bridge on `cmd_send_current_action`/`cmd_send_other_action` and
    /// cleared when any action broadcast / settlement / room transition
    /// arrives. State, not a timestamp: acting before the window opens
    /// is rejected (`rsp code 1`), and manager-side clock comparisons
    /// against window-open times drift once plans queue up.
    window_open: bool,
    window_opened_at: Option<Instant>,
    /// (han, yaku count) of the last settlement; (0, 0) on a draw. The
    /// round-advance reading beat scales with it — bigger hands render
    /// longer.
    settlement: (u32, u32),
    /// Highest `message_index` seen on the client's uplink; `send`
    /// re-stamps injected frames past it so the connection's request
    /// counter never rewinds.
    up_index: u32,
}

impl View for InjectBus {
    type V = BusState;

    closed spec fn view(&self) -> BusState {
        BusState {
            channel: fed_channel(self.tx),
            kept: kept_frames(self.tx),
            accepted: accepted_frames(self.tx),
            subscribed: ever_subscribed(self.tx),
            in_game: self.in_game,
            rsp_seen: self.rsp_seen,
            last_rsp_code: self.last_rsp_code,
            window_open: self.window_open,
            window_opened_at: self.window_opened_at,
            settlement: self.settlement,
            up_index: self.up_index,
        }
    }
}

/// `bytes` as they leave the bus when the highest index so far is `up_index`:
/// a packet carries the next index in bytes 8..12, anything else is
/// untouched.
pub open spec fn stamped_bytes(bytes: Seq<u8>, up_index: u32) -> Seq<u8> {
    if packet::has_header(bytes) {
        bytes.take(8) + packet::be32_bytes(next_index(up_index)) + bytes.skip(12)
    } else {
        bytes
    }
}

/// The highest index once `bytes` have left the bus.
pub open spec fn stamped_up_index(bytes: Seq<u8>, up_index: u32) -> u32 {
    if packet::has_header(bytes) {
        next_index(up_index)
    } else {
        up_index
    }
}

/// The index after `i`. Indices wrap at 2^32.
pub open spec fn next_index(i: u32) -> u32 {
    ((i + 1) % 0x1_0000_0000) as u32
}

/// The bus after it was handed `frame`, `sent` telling whether the channel
/// took it.
pub open spec fn after_send(bus: BusState, frame: InjectFrame, sent: bool) -> BusState {
    BusState {
        accepted: if sent {
            bus.accepted.push((frame.gameplay, stamped_bytes(frame.bytes@, bus.up_index)))
        } else {
            bus.accepted
        },
        up_index: stamped_up_index(frame.bytes@, bus.up_index),
        ..bus
    }
}

/// The bus after a response with `code`. The count wraps at 2^64.
pub open spec fn after_rsp(bus: BusState, code: i64) -> BusState {
    BusState {
        rsp_seen: ((bus.rsp_seen + 1) % 0x1_0000_0000_0000_0000) as u64,
        last_rsp_code: code,
        ..bus
    }
}

/// The bus after the client used message index `idx`.
pub open spec fn after_up_index(bus: BusState, idx: u32) -> BusState {
    BusState {
        up_index: if idx > bus.up_index {
            idx
        } else {
            bus.up_index
        },
        ..bus
    }
}

/// The message index in a packet's header.
pub open spec fn carried_index(bytes: Seq<u8>) -> nat {
    packet::be32_value(bytes.subrange(8, 12))
}

/// Between 64 and 127 there is one power of two.
proof fn lemma_64_is_kept_as_it_is(n: nat)
    requires
        is_power_of_two(n),
        64 <= n < 128,
    ensures
        n == 64,
{
    let k = choose|k: nat| pow2(k) == n;
    lemma2_to64();
    if k < 6 {
        lemma_pow2_strictly_increases(k, 6);
    } else if k > 7 {
        lemma_pow2_strictly_increases(7, k);
    }
}

impl Default for InjectBus {
    fn default() -> (r: Self)
        ensures
            r@.accepted == Seq::<(bool, Seq<u8>)>::empty(),
            r@.kept == CHANNEL_CAPACITY,
            !r@.subscribed && !r@.in_game && !r@.window_open,
            r@.rsp_seen == 0 && r@.last_rsp_code == 0 && r@.up_index == 0,
            r@.window_opened_at is None,
            r@.settlement == (0u32, 0u32),
    {
        InjectBus::new()
    }
}

impl InjectBus {
    /// A bus without subscribers, outside a game, with nothing observed yet.
    pub fn new() -> (r: Self)
        ensures
            r@.accepted == Seq::<(bool, Seq<u8>)>::empty(),
            r@.kept == CHANNEL_CAPACITY,
            !r@.subscribed && !r@.in_game && !r@.window_open,
            r@.rsp_seen == 0 && r@.last_rsp_code == 0 && r@.up_index == 0,
            r@.window_opened_at is None,
            r@.settlement == (0u32, 0u32),
    {
        let tx = frame_channel(CHANNEL_CAPACITY);
        proof {
            lemma_64_is_kept_as_it_is(kept_frames(tx));
        }
        InjectBus {
            tx,
            in_game: false,
            rsp_seen: 0,
            last_rsp_code: 0,
            window_open: false,
            window_opened_at: None,
            settlement: (0, 0),
            up_index: 0,
        }
    }

    /// A `rsp_game_action` arrived with `code`. The count wraps at 2^64.
    pub fn note_rsp(&mut self, code: i64)
        ensures
            final(self)@ == after_rsp(old(self)@, code),
    {
        self.rsp_seen = self.rsp_seen.wrapping_add(1);
        self.last_rsp_code = code;
    }

    /// The response count so far, to be handed to [`InjectBus::rsp_since`].
    pub fn rsp_ticket(&self) -> (r: u64)
        ensures
            r == self@.rsp_seen,
    {
        self.rsp_seen
    }

    /// Whether a response arrived after `ticket` was taken.
    pub fn rsp_since(&self, ticket: u64) -> (r: bool)
        ensures
            r == (self@.rsp_seen > ticket),
    {
        self.rsp_seen > ticket
    }

    /// The client sent a frame with message index `idx`.
    pub fn note_up_index(&mut self, idx: u32)
        ensures
            final(self)@ == after_up_index(old(self)@, idx),
    {
        if idx > self.up_index {
            self.up_index = idx;
        }
    }

    /// A decision window for us opened just now.
    pub fn note_window(&mut self)
        ensures
            final(self)@.window_opened_at is Some,
            final(self)@ == (BusState {
                window_open: true,
                window_opened_at: final(self)@.window_opened_at,
                ..old(self)@
            }),
    {
        self.open_window_at(clock::clock_now());
    }

    /// A decision window for us opened at `at`.
    pub fn open_window_at(&mut self, at: Instant)
        ensures
            final(self)@ == (BusState {
                window_open: true,
                window_opened_at: Some(at),
                ..old(self)@
            }),
    {
        self.window_opened_at = Some(at);
        self.window_open = true;
    }

    /// When the last decision window opened, also after it closed.
    pub fn window_opened_at(&self) -> (r: Option<Instant>)
        ensures
            r == self@.window_opened_at,
    {
        self.window_opened_at
    }

    /// The decision window closed.
    pub fn note_window_closed(&mut self)
        ensures
            final(self)@ == (BusState { window_open: false, ..old(self)@ }),
    {
        self.window_open = false;
    }

    /// Whether a decision window for us is open.
    pub fn window_is_open(&self) -> (r: bool)
        ensures
            r == self@.window_open,
    {
        self.window_open
    }

    /// A hand was settled.
    pub fn note_settlement(&mut self, han: u32, yakus: u32)
        ensures
            final(self)@ == (BusState { settlement: (han, yakus), ..old(self)@ }),
    {
        self.settlement = (han, yakus);
    }

    /// (han, yaku count) of the last settlement.
    pub fn settlement(&self) -> (r: (u32, u32))
        ensures
            r == self@.settlement,
    {
        self.settlement
    }

    /// The code of the latest response.
    pub fn last_rsp_code(&self) -> (r: i64)
        ensures
            r == self@.last_rsp_code,
    {
        self.last_rsp_code
    }

    /// Queue a wire frame for the game server. `false` when no relay is
    /// subscribed (capture not running). Re-stamps the frame's
    /// `message_index` past the client's live uplink counter — the
    /// builder encodes offline and cannot know it.
    pub fn send(&mut self, frame: InjectFrame) -> (sent: bool)
        ensures
            final(self)@ == after_send(old(self)@, frame, sent),
            !old(self)@.subscribed ==> !sent,
    {
        self.stamp_and_send(frame, None)
    }

    /// [`InjectBus::send`] by an owner of one of the bus's receivers: the
    /// frame goes out, since that receiver is there to take it.
    pub fn send_heard_by(
        &mut self,
        frame: InjectFrame,
        rx: &broadcast::Receiver<InjectFrame>,
    ) -> (sent: bool)
        ensures
            final(self)@ == after_send(old(self)@, frame, sent),
            !old(self)@.subscribed ==> !sent,
            read_channel(*rx) == old(self)@.channel ==> sent,
    {
        self.stamp_and_send(frame, Some(rx))
    }

    /// Stamp a frame and hand it to the channel.
    fn stamp_and_send(
        &mut self,
        frame: InjectFrame,
        alive: Option<&broadcast::Receiver<InjectFrame>>,
    ) -> (sent: bool)
        ensures
            final(self)@ == after_send(old(self)@, frame, sent),
            !old(self)@.subscribed ==> !sent,
            alive matches Some(rx) ==> (read_channel(*rx) == old(self)@.channel ==> sent),
    {
        let gameplay = frame.gameplay;
        let mut bytes = frame.bytes;
        stamp_message_index(&mut bytes, &mut self.up_index);
        send_frame(&mut self.tx, InjectFrame { gameplay, bytes }, alive)
    }

    /// Receiver side for the proxy's client→server WS relay loops: it reads
    /// this bus's channel, and every frame that is accepted from now on is
    /// owed to it ([`owed`]).
    pub fn subscribe(&mut self) -> (rx: broadcast::Receiver<InjectFrame>)
        ensures
            final(self)@ == (BusState { subscribed: true, ..old(self)@ }),
            read_channel(rx) == old(self)@.channel,
            joined_after(rx) == old(self)@.accepted,
    {
        take_receiver(&mut self.tx)
    }

    /// Maintained by the bridge: `cmd_enter_room` … `cmd_room_end`.
    pub fn set_in_game(&mut self, v: bool)
        ensures
            final(self)@ == (BusState { in_game: v, ..old(self)@ }),
    {
        self.in_game = v;
    }

    /// Whether a game is running.
    pub fn in_game(&self) -> (r: bool)
        ensures
            r == self@.in_game,
    {
        self.in_game
    }
}

/// Rewrite a WPacket's `message_index` (header bytes 8..12, big-endian) to
/// the next value past `counter`, bumping it. Non-WPacket bytes pass
/// through untouched.
pub fn stamp_message_index(bytes: &mut Vec<u8>, counter: &mut u32)
    ensures
        final(bytes)@ == stamped_bytes(old(bytes)@, *old(counter)),
        *final(counter) == stamped_up_index(old(bytes)@, *old(counter)),
{
    if !packet::starts_with_header(bytes.as_slice()) {
        return ;
    }
    let idx: u32 = counter.wrapping_add(1);
    *counter = idx;
    bytes.set(8, (idx / 0x100_0000) as u8);
    bytes.set(9, (idx / 0x1_0000 % 0x100) as u8);
    bytes.set(10, (idx / 0x100 % 0x100) as u8);
    bytes.set(11, (idx % 0x100) as u8);
    assert(bytes@ =~= old(bytes)@.take(8) + packet::be32_bytes(idx) + old(bytes)@.skip(12));
}

/// Stamping changes nothing but the message index: a packet decodes to the
/// same command, body and size before and after, and its index is the next
/// one past `up_index`.
pub proof fn law_stamping_only_moves_the_index(bytes: Seq<u8>, up_index: u32)
    ensures
        stamped_bytes(bytes, up_index).len() == bytes.len(),
        packet::has_header(bytes) ==> carried_index(stamped_bytes(bytes, up_index)) == next_index(
            up_index,
        ),
        packet::front_packet(stamped_bytes(bytes, up_index)) == match packet::front_packet(bytes) {
            Some((p, size)) => Some(
                (packet::WPacket { message_index: next_index(up_index), ..p }, size),
            ),
            None => None,
        },
{
    if packet::has_header(bytes) {
        let out = stamped_bytes(bytes, up_index);
        assert(out.subrange(8, 12) =~= packet::be32_bytes(next_index(up_index)));
        packet::law_be32_round_trip(next_index(up_index));
        assert(out.subrange(0, 4) =~= bytes.subrange(0, 4));
        assert(out.subrange(4, 8) =~= bytes.subrange(4, 8));
        assert(out.subrange(12, 14) =~= bytes.subrange(12, 14));
        if packet::well_framed(bytes) {
            let size = packet::announced_size(bytes) as int;
            assert(out.subrange(packet::HEADER_LEN as int, size) =~= bytes.subrange(
                packet::HEADER_LEN as int,
                size,
            ));
        }
    }
}

/// A stamped packet carries the next index.
proof fn lemma_stamped_index(bytes: Seq<u8>, up_index: u32)
    requires
        packet::has_header(bytes),
    ensures
        carried_index(stamped_bytes(bytes, up_index)) == next_index(up_index),
{
    let out = stamped_bytes(bytes, up_index);
    assert(out.subrange(8, 12) =~= packet::be32_bytes(next_index(up_index)));
    packet::law_be32_round_trip(next_index(up_index));
}

/// An injected packet is indexed past whatever the client has sent, and two
/// packets in a row never share an index, whatever the client sends between
/// them. Holds until the 32-bit index runs out.
pub proof fn law_injected_indices_only_grow(
    bus: BusState,
    seen: u32,
    first: InjectFrame,
    first_sent: bool,
    between: u32,
    second: InjectFrame,
    second_sent: bool,
)
    requires
        packet::has_header(first.bytes@),
        packet::has_header(second.bytes@),
        bus.up_index < u32::MAX - 1,
        seen < u32::MAX - 1,
        between < u32::MAX,
    ensures
        ({
            let before_first = after_up_index(bus, seen);
            let before_second = after_up_index(
                after_send(before_first, first, first_sent),
                between,
            );
            let first_index = carried_index(
                stamped_bytes(first.bytes@, before_first.up_index),
            );
            let second_index = carried_index(
                stamped_bytes(second.bytes@, before_second.up_index),
            );
            &&& first_index > seen
            &&& second_index > between
            &&& second_index > first_index
            &&& after_send(before_second, second, second_sent).up_index == second_index
        }),
{
    let before_first = after_up_index(bus, seen);
    let before_second = after_up_index(after_send(before_first, first, first_sent), between);
    lemma_stamped_index(first.bytes@, before_first.up_index);
    lemma_stamped_index(second.bytes@, before_second.up_index);
}

/// Whether the packets handed to the subscribers carry growing indices, none
/// of them above the highest index the bus knows.
pub open spec fn indices_in_order(bus: BusState) -> bool {
    &&& forall|i: int, j: int|
        0 <= i < j < bus.accepted.len() && packet::has_header((#[trigger] bus.accepted[i]).1)
            && packet::has_header((#[trigger] bus.accepted[j]).1) ==> carried_index(
            bus.accepted[i].1,
        ) < carried_index(bus.accepted[j].1)
    &&& forall|i: int|
        0 <= i < bus.accepted.len() && packet::has_header((#[trigger] bus.accepted[i]).1)
            ==> carried_index(bus.accepted[i].1) <= bus.up_index
}

/// The packets on the wire stay in order of their indices, whatever is sent
/// and whatever the client does in between, until the 32-bit index runs out.
/// A bus that has accepted nothing is in order.
pub proof fn law_indices_stay_in_order(bus: BusState, frame: InjectFrame, sent: bool, idx: u32)
    requires
        bus.accepted.len() == 0 || indices_in_order(bus),
        bus.up_index < u32::MAX,
    ensures
        indices_in_order(bus),
        indices_in_order(after_send(bus, frame, sent)),
        indices_in_order(after_up_index(bus, idx)),
{
    law_stamping_only_moves_the_index(frame.bytes@, bus.up_index);
    let after = after_send(bus, frame, sent);
    if sent {
        let n = bus.accepted.len();
        assert(forall|i: int| 0 <= i < n ==> #[trigger] after.accepted[i] == bus.accepted[i]);
        assert(after.accepted[n as int].1 == stamped_bytes(frame.bytes@, bus.up_index));
        if !packet::has_header(frame.bytes@) {
            assert(!packet::has_header(after.accepted[n as int].1));
        }
    }
}

/// The frames that are owed to a subscriber who joined after `joined`: all
/// that the channel has accepted since.
pub open spec fn owed(bus: BusState, joined: Seq<(bool, Seq<u8>)>) -> Seq<(bool, Seq<u8>)> {
    bus.accepted.skip(joined.len() as int)
}

/// Whether a subscriber who joined after `joined` on `channel` is one of this
/// bus.
pub open spec fn serves(bus: BusState, channel: int, joined: Seq<(bool, Seq<u8>)>) -> bool {
    bus.channel == channel && joined.is_prefix_of(bus.accepted)
}

/// A frame that the bus accepts is owed to every subscriber, behind all that
/// was owed before, with its flag and its stamped bytes; one that it does not
/// accept is owed to none. A subscriber starts with nothing owed, and stays
/// with its bus through every send.
pub proof fn law_an_accepted_frame_is_owed_to_every_subscriber(
    bus: BusState,
    channel: int,
    joined: Seq<(bool, Seq<u8>)>,
    frame: InjectFrame,
    sent: bool,
)
    requires
        serves(bus, channel, joined),
    ensures
        serves(bus, bus.channel, bus.accepted),
        owed(bus, bus.accepted) == Seq::<(bool, Seq<u8>)>::empty(),
        serves(after_send(bus, frame, sent), channel, joined),
        owed(after_send(bus, frame, sent), joined) == if sent {
            owed(bus, joined).push((frame.gameplay, stamped_bytes(frame.bytes@, bus.up_index)))
        } else {
            owed(bus, joined)
        },
{
    let after = after_send(bus, frame, sent);
    assert(owed(bus, bus.accepted) =~= Seq::empty());
    if sent {
        assert(after.accepted.take(joined.len() as int) =~= bus.accepted.take(joined.len() as int));
        assert(owed(after, joined) =~= owed(bus, joined).push(
            (frame.gameplay, stamped_bytes(frame.bytes@, bus.up_index)),
        ));
    }
}

/// The bus after responses with `codes`, one by one.
pub open spec fn after_rsps(bus: BusState, codes: Seq<i64>) -> BusState
    decreases codes.len(),
{
    if codes.len() == 0 {
        bus
    } else {
        after_rsp(after_rsps(bus, codes.drop_last()), codes.last())
    }
}

/// After any number of responses the count is the ticket taken before them
/// plus their number, so the ticket reports a response exactly where one
/// arrived; the last code stands, and nothing else has changed. Holds until
/// the 64-bit count wraps.
pub proof fn law_ticket_counts_later_responses(bus: BusState, codes: Seq<i64>)
    requires
        bus.rsp_seen + codes.len() <= u64::MAX,
    ensures
        ({
            let ticket = bus.rsp_seen;
            let later = after_rsps(bus, codes);
            &&& later.rsp_seen == ticket + codes.len()
            &&& later.rsp_seen > ticket <==> codes.len() > 0
            &&& later.last_rsp_code == if codes.len() > 0 {
                codes.last()
            } else {
                bus.last_rsp_code
            }
            &&& later == (BusState {
                rsp_seen: later.rsp_seen,
                last_rsp_code: later.last_rsp_code,
                ..bus
            })
        }),
    decreases codes.len(),
{
    if codes.len() > 0 {
        law_ticket_counts_later_responses(bus, codes.drop_last());
    }
}

/// Whether bytes are those of a packet: fifteen or more, with 0, 15, 0 and 1
/// at places four to seven.
pub open spec fn looks_like_a_packet(bytes: Seq<u8>) -> bool {
    bytes.len() >= 15 && bytes[4] == 0 && bytes[5] == 15 && bytes[6] == 0 && bytes[7] == 1
}

/// Stamping, byte by byte. A packet keeps every byte but those at places eight
/// to eleven, which then write the next index with the most significant byte
/// first; that index is one more than the highest so far, and becomes the
/// highest, until it wraps. Bytes that are no packet stay as they are and use
/// up no index.
pub proof fn law_stamping_byte_by_byte(bytes: Seq<u8>, up_index: u32, k: int)
    ensures
        ({
            let out = stamped_bytes(bytes, up_index);
            &&& out.len() == bytes.len()
            &&& 0 <= k < bytes.len() && !(8 <= k < 12) ==> out[k] == bytes[k]
            &&& looks_like_a_packet(bytes) ==> {
                &&& out[8] * 16777216 + out[9] * 65536 + out[10] * 256 + out[11]
                    == stamped_up_index(bytes, up_index)
                &&& up_index < u32::MAX ==> stamped_up_index(bytes, up_index) == up_index + 1
                &&& up_index == u32::MAX ==> stamped_up_index(bytes, up_index) == 0
            }
            &&& !looks_like_a_packet(bytes) ==> out == bytes && stamped_up_index(bytes, up_index)
                == up_index
        }),
{
    if bytes.len() >= 15 {
        let m = bytes.subrange(4, 8);
        assert(m[0] == bytes[4] && m[1] == bytes[5] && m[2] == bytes[6] && m[3] == bytes[7]);
        if looks_like_a_packet(bytes) {
            assert(m =~= packet::magic());
        }
    }
    if packet::has_header(bytes) {
        let out = stamped_bytes(bytes, up_index);
        let n = packet::be32_bytes(next_index(up_index));
        assert(out[8] == n[0] && out[9] == n[1] && out[10] == n[2] && out[11] == n[3]);
        packet::law_be32_round_trip(next_index(up_index));
    }
}

/// What a send does to the bus. A frame that goes out is the last of the
/// accepted ones, with its flag, and stamped; one that does not is none of
/// them. The index moves either way, and nothing else does.
pub proof fn law_a_send_moves_the_index_and_the_queue(
    bus: BusState,
    frame: InjectFrame,
    sent: bool,
)
    ensures
        ({
            let after = after_send(bus, frame, sent);
            let out = stamped_bytes(frame.bytes@, bus.up_index);
            &&& sent ==> after.accepted.len() == bus.accepted.len() + 1
                && after.accepted.drop_last() == bus.accepted && after.accepted.last() == (
                frame.gameplay,
                out,
            )
            &&& !sent ==> after.accepted == bus.accepted
            &&& after.up_index == stamped_up_index(frame.bytes@, bus.up_index)
            &&& after.channel == bus.channel && after.kept == bus.kept && after.subscribed
                == bus.subscribed
            &&& after.in_game == bus.in_game && after.window_open == bus.window_open
                && after.window_opened_at == bus.window_opened_at
            &&& after.rsp_seen == bus.rsp_seen && after.last_rsp_code == bus.last_rsp_code
                && after.settlement == bus.settlement
        }),
{
    if sent {
        assert(after_send(bus, frame, sent).accepted.drop_last() =~= bus.accepted);
    }
}

/// What the client's own index does to the bus: it raises the highest index
/// where it is higher, never lowers it, and changes nothing else.
pub proof fn law_a_client_index_only_raises_the_highest(bus: BusState, idx: u32)
    ensures
        ({
            let after = after_up_index(bus, idx);
            &&& after.up_index >= bus.up_index && after.up_index >= idx
            &&& after.up_index == bus.up_index || after.up_index == idx
            &&& after.accepted == bus.accepted && after.channel == bus.channel && after.kept
                == bus.kept && after.subscribed == bus.subscribed
            &&& after.in_game == bus.in_game && after.window_open == bus.window_open
                && after.window_opened_at == bus.window_opened_at
            &&& after.rsp_seen == bus.rsp_seen && after.last_rsp_code == bus.last_rsp_code
                && after.settlement == bus.settlement
        }),
{
}

/// Each response adds one to the count and leaves its code; past the largest
/// count the count starts over.
pub proof fn law_each_response_is_counted(bus: BusState, code: i64)
    ensures
        bus.rsp_seen < 0xffff_ffff_ffff_ffff ==> after_rsp(bus, code).rsp_seen == bus.rsp_seen + 1,
        bus.rsp_seen == 0xffff_ffff_ffff_ffff ==> after_rsp(bus, code).rsp_seen == 0,
        after_rsp(bus, code).last_rsp_code == code,
{
}

} // verus!
