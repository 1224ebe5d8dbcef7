//! Riichi City round advance: after each hand's settlement the client waits
//! on a "ready" (`req_user_prepare`) before dealing the next round. Majsoul
//! and Tenhou have no equivalent step, so this lives with the Riichi City
//! autoplay rather than in the platform-agnostic manager.
//!
//! The advance is timed off the protocol (`EndKyoku`) with no screen
//! capture: wait a human-like delay past the settlement animation, then
//! inject the ready frame — aborting if the round moves on first.
//!
//! [`Watcher`] decides; the application performs what it says on its own
//! subscription, so end-of-hand plan backlogs cannot delay it, and hands
//! back what happened.

use crate::autoplay::clock;
use crate::config::Platform;
use crate::schema::MjaiEvent;
use std::time::Duration;
use vstd::prelude::*;

verus! {

/// Floor covering the settlement animation; the press never lands sooner.
pub const FLOOR_MS: u64 = 15_000;

/// Uniform jitter added on top of the floor.
pub const JITTER_MS: u64 = 2_000;

/// Extra reading time for bigger hands, capped.
pub const READ_CAP_MS: u64 = 2_500;

/// The client's own countdown to the next round.
pub const COUNTDOWN_MS: u64 = 59_000;

/// Extra reading time: half a second for each yaku line past two, capped.
pub open spec fn reading_ms(yakus: u32) -> int {
    let lines = if yakus > 2 {
        yakus - 2
    } else {
        0
    };
    if lines * 500 <= READ_CAP_MS {
        lines * 500
    } else {
        READ_CAP_MS as int
    }
}

/// The wait that a random number makes of a settlement with `yakus` lines.
pub open spec fn advance_ms(random: u64, yakus: u32) -> int {
    FLOOR_MS + random as int % (JITTER_MS + 1) + reading_ms(yakus)
}

/// Whether the round may be advanced on this platform.
pub fn autoplay_enabled_for_riichi(autoplay_enabled: bool, platform: Platform) -> (r: bool)
    ensures
        r == (autoplay_enabled && platform == Platform::RiichiCity),
{
    autoplay_enabled && platform == Platform::RiichiCity
}

/// Calls `rand::random`. Nothing is claimed of the number. The generator
/// panics where the operating system has no randomness to seed it with.
#[verifier::external_body]
fn random_u64() -> u64 {
    rand::random::<u64>()
}

/// The wait, in milliseconds, that a random number makes of a settlement.
pub fn round_advance_ms(random: u64, yakus: u32) -> (r: u64)
    ensures
        r == advance_ms(random, yakus),
{
    let jitter: u64 = random % (JITTER_MS + 1);
    let lines: u64 = yakus.saturating_sub(2) as u64;
    let read: u64 = if lines * 500 <= READ_CAP_MS {
        lines * 500
    } else {
        READ_CAP_MS
    };
    FLOOR_MS + jitter + read
}

/// Human-like wait before injecting the settlement OK (`req_user_prepare`),
/// timed off `EndKyoku` with no screen capture. A 15s floor first, because
/// the settlement animation (win reveal, score tally, ura-dora flip) plays
/// out over several seconds after `cmd_game_end` and the OK press must land
/// after it, not during. On top of the floor: uniform jitter so the timing
/// is not a fixed signature, plus a reading beat that grows with the number
/// of yaku lines in the winning hand (each line past two adds half a second,
/// capped; draws add nothing). The total stays well below the client's ~59s
/// auto-advance countdown, so we press before it, never after.
pub fn round_advance_delay(yakus: u32) -> (r: Duration)
    ensures
        exists|random: u64| clock::whole_millis(r) == #[trigger] advance_ms(random, yakus),
        FLOOR_MS + reading_ms(yakus) <= clock::whole_millis(r) <= FLOOR_MS + JITTER_MS
            + reading_ms(yakus),
{
    let random: u64 = random_u64();
    let ms: u64 = round_advance_ms(random, yakus);
    assert(ms == advance_ms(random, yakus));
    clock::span_of_millis(ms)
}

/// Where the watcher stands between two events.
#[derive(Debug, Clone, Copy, PartialEq, Eq, Structural)]
pub enum Watcher {
    /// Listening for the end of a hand.
    Idle,
    /// A hand has ended; the settings decide whether to act on it.
    Asking,
    /// The delay is running.
    Waiting,
    /// The bus is closed.
    Stopped,
}

/// What the watcher is told.
#[derive(Debug, Clone, PartialEq, Eq)]
pub enum WatchEvent {
    /// An event arrived on the bus.
    Mjai(MjaiEvent),
    /// The bus skipped events we were too slow for.
    Lagged,
    /// The bus is closed.
    Closed,
    /// The settings that were asked for.
    Settings { autoplay_enabled: bool, platform: Platform },
    /// The delay has run out, and nothing arrived on the bus before.
    Elapsed,
}

/// What the watcher wants done next.
#[derive(Debug, Clone, Copy, PartialEq, Eq, Structural)]
pub enum WatchAction {
    /// Wait for the bus.
    Listen,
    /// Read the settings.
    ReadSettings,
    /// Wait for the bus and for [`round_advance_delay`], whichever is first.
    Delay,
    /// Inject the ready frame, then wait for the bus.
    SendReady,
    /// Leave.
    Stop,
}

/// What one event makes of the watcher, and what it wants done.
///
/// Advancing past the scoring screen is one `req_user_prepare` per
/// `EndKyoku`. If anything further arrives before the delay elapses, the
/// round already moved on (the server countdown fired, the user clicked
/// through, or the game ended) — the cycle is voided so a stale advance never
/// lands.
pub open spec fn watch(state: Watcher, event: WatchEvent) -> (Watcher, WatchAction) {
    match (state, event) {
        (Watcher::Stopped, _) => (Watcher::Stopped, WatchAction::Stop),
        (_, WatchEvent::Closed) => (Watcher::Stopped, WatchAction::Stop),
        (Watcher::Idle, WatchEvent::Mjai(MjaiEvent::EndKyoku)) => (
            Watcher::Asking,
            WatchAction::ReadSettings,
        ),
        (
            Watcher::Asking,
            WatchEvent::Settings { autoplay_enabled: true, platform: Platform::RiichiCity },
        ) => (Watcher::Waiting, WatchAction::Delay),
        (Watcher::Waiting, WatchEvent::Elapsed) => (Watcher::Idle, WatchAction::SendReady),
        _ => (Watcher::Idle, WatchAction::Listen),
    }
}

impl Watcher {
    /// A watcher that has seen nothing yet.
    pub fn new() -> (r: Self)
        ensures
            r == Watcher::Idle,
    {
        Watcher::Idle
    }

    /// Take one event and say what to do next.
    pub fn step(&mut self, event: &WatchEvent) -> (r: WatchAction)
        ensures
            (*final(self), r) == watch(*old(self), *event),
    {
        let (next, action): (Watcher, WatchAction) = match (*self, event) {
            (Watcher::Stopped, _) => (Watcher::Stopped, WatchAction::Stop),
            (_, WatchEvent::Closed) => (Watcher::Stopped, WatchAction::Stop),
            (Watcher::Idle, WatchEvent::Mjai(MjaiEvent::EndKyoku)) => (
                Watcher::Asking,
                WatchAction::ReadSettings,
            ),
            (Watcher::Asking, WatchEvent::Settings { autoplay_enabled, platform }) => {
                if autoplay_enabled_for_riichi(*autoplay_enabled, *platform) {
                    (Watcher::Waiting, WatchAction::Delay)
                } else {
                    (Watcher::Idle, WatchAction::Listen)
                }
            },
            (Watcher::Waiting, WatchEvent::Elapsed) => (Watcher::Idle, WatchAction::SendReady),
            // Anything that arrives while the delay runs voids the cycle:
            // the round already moved on. `EndGame` needs nothing on its own:
            // the client tears its end screens down when the next match's
            // `cmd_enter_room` arrives.
            _ => (Watcher::Idle, WatchAction::Listen),
        };
        *self = next;
        action
    }
}

/// Where a fresh watcher stands after a run of events.
pub open spec fn watcher_after(events: Seq<WatchEvent>) -> Watcher
    decreases events.len(),
{
    if events.len() == 0 {
        Watcher::Idle
    } else {
        let (next, _) = watch(watcher_after(events.drop_last()), events.last());
        next
    }
}

/// What a fresh watcher wants done after the event at `k` of a run.
pub open spec fn action_at(events: Seq<WatchEvent>, k: int) -> WatchAction {
    let (_, action) = watch(watcher_after(events.take(k)), events[k]);
    action
}

/// The ready frame goes out only where the delay of a hand's end ran out with
/// nothing in between, and autoplay was on for this platform: one press per
/// `EndKyoku`, and never a stale one.
pub proof fn law_ready_is_sent_only_after_an_undisturbed_delay(events: Seq<WatchEvent>, k: int)
    requires
        0 <= k < events.len(),
        action_at(events, k) == WatchAction::SendReady,
    ensures
        k >= 2,
        events[k] is Elapsed,
        events[k - 1] == (WatchEvent::Settings {
            autoplay_enabled: true,
            platform: Platform::RiichiCity,
        }),
        events[k - 2] == WatchEvent::Mjai(MjaiEvent::EndKyoku),
{
    let before = events.take(k);
    assert(watcher_after(before) == Watcher::Waiting);
    assert(before.drop_last() =~= events.take(k - 1));
    assert(watcher_after(events.take(k - 1)) == Watcher::Asking);
    assert(events.take(k - 1).drop_last() =~= events.take(k - 2));
}

/// A hand's end whose delay runs out undisturbed is answered, wherever in a
/// run it comes, so long as the watcher was listening.
pub proof fn law_an_undisturbed_delay_is_answered(events: Seq<WatchEvent>, k: int)
    requires
        2 <= k < events.len(),
        watcher_after(events.take(k - 2)) == Watcher::Idle,
        events[k - 2] == WatchEvent::Mjai(MjaiEvent::EndKyoku),
        events[k - 1] == (WatchEvent::Settings {
            autoplay_enabled: true,
            platform: Platform::RiichiCity,
        }),
        events[k] is Elapsed,
    ensures
        action_at(events, k) == WatchAction::SendReady,
        watcher_after(events.take(k + 1)) == Watcher::Idle,
{
    assert(events.take(k - 1).drop_last() =~= events.take(k - 2));
    assert(watcher_after(events.take(k - 1)) == Watcher::Asking);
    assert(events.take(k).drop_last() =~= events.take(k - 1));
    assert(watcher_after(events.take(k)) == Watcher::Waiting);
    assert(events.take(k + 1).drop_last() =~= events.take(k));
}

/// Once the bus is closed the watcher stops and stays stopped.
pub proof fn law_a_closed_bus_stops_the_watcher(events: Seq<WatchEvent>, k: int, n: int)
    requires
        0 <= k < n <= events.len(),
        events[k] is Closed,
    ensures
        watcher_after(events.take(n)) == Watcher::Stopped,
    decreases n,
{
    assert(events.take(n).drop_last() =~= events.take(n - 1));
    if n - 1 > k {
        law_a_closed_bus_stops_the_watcher(events, k, n - 1);
    }
}

/// The press never lands during the settlement animation and always before
/// the client's own countdown, whatever the random number; two random numbers
/// move it by at most the jitter, and more yaku lines never bring it forward.
pub proof fn law_press_lands_between_animation_and_countdown(
    random: u64,
    other: u64,
    yakus: u32,
    more: u32,
)
    requires
        yakus <= more,
    ensures
        FLOOR_MS <= advance_ms(random, yakus) < COUNTDOWN_MS,
        advance_ms(random, yakus) - advance_ms(other, yakus) <= JITTER_MS,
        advance_ms(random, yakus) <= advance_ms(random, more),
        yakus <= 2 && more >= 7 ==> advance_ms(random, yakus) < advance_ms(other, more),
{
}

/// Only the closing of the bus ends the watch: after a run of events the
/// watcher is stopped exactly where the run holds a `Closed`, and it asks to
/// leave at an event exactly where one has come by then.
pub proof fn law_only_a_closed_bus_stops_the_watcher(events: Seq<WatchEvent>, k: int)
    ensures
        watcher_after(events) == Watcher::Stopped <==> exists|i: int|
            0 <= i < events.len() && (#[trigger] events[i]) is Closed,
        0 <= k < events.len() ==> (action_at(events, k) == WatchAction::Stop <==> exists|i: int|
            0 <= i <= k && (#[trigger] events[i]) is Closed),
{
    lemma_stopped_iff_closed(events);
    if 0 <= k < events.len() {
        let before = events.take(k);
        lemma_stopped_iff_closed(before);
        if exists|i: int| 0 <= i <= k && (#[trigger] events[i]) is Closed {
            let i = choose|i: int| 0 <= i <= k && (#[trigger] events[i]) is Closed;
            if i < k {
                assert(before[i] is Closed);
            }
        }
        if watcher_after(before) == Watcher::Stopped {
            let i = choose|i: int| 0 <= i < before.len() && (#[trigger] before[i]) is Closed;
            assert(events[i] is Closed);
        }
    }
}

/// The watcher is stopped exactly where the run holds a `Closed`.
proof fn lemma_stopped_iff_closed(events: Seq<WatchEvent>)
    ensures
        watcher_after(events) == Watcher::Stopped <==> exists|i: int|
            0 <= i < events.len() && (#[trigger] events[i]) is Closed,
    decreases events.len(),
{
    if events.len() > 0 {
        let front = events.drop_last();
        lemma_stopped_iff_closed(front);
        if exists|i: int| 0 <= i < events.len() && (#[trigger] events[i]) is Closed {
            let i = choose|i: int| 0 <= i < events.len() && (#[trigger] events[i]) is Closed;
            if i < front.len() {
                assert(front[i] is Closed);
            }
        }
        if watcher_after(front) == Watcher::Stopped {
            let i = choose|i: int| 0 <= i < front.len() && (#[trigger] front[i]) is Closed;
            assert(events[i] is Closed);
        }
        if events.last() is Closed {
            assert(events[events.len() - 1] is Closed);
        }
    }
}

/// Whether an event says that autoplay is on for this platform.
pub open spec fn says_enabled(event: WatchEvent) -> bool {
    event matches WatchEvent::Settings { autoplay_enabled, platform } && autoplay_enabled
        && platform == Platform::RiichiCity
}

/// While the bus is open, an event after which nothing is under way leaves
/// the watcher listening: any event but the end of a hand and the settings
/// that switch the advance on. So the end of a game, a lag, an event that
/// voids a delay and a delay that has run out all leave it ready for the next
/// hand, and the end of that hand is acted on.
pub proof fn law_the_watch_goes_on_to_the_next_hand(events: Seq<WatchEvent>, k: int)
    requires
        0 <= k < events.len(),
        forall|i: int| 0 <= i < events.len() ==> !((#[trigger] events[i]) is Closed),
        k > 0 ==> events[k - 1] != WatchEvent::Mjai(MjaiEvent::EndKyoku) && !says_enabled(
            events[k - 1],
        ),
    ensures
        watcher_after(events.take(k)) == Watcher::Idle,
        events[k] == WatchEvent::Mjai(MjaiEvent::EndKyoku) ==> action_at(events, k)
            == WatchAction::ReadSettings,
        events[k] != WatchEvent::Mjai(MjaiEvent::EndKyoku) ==> action_at(events, k)
            == WatchAction::Listen && watcher_after(events.take(k + 1)) == Watcher::Idle,
{
    if k > 0 {
        let before = events.take(k);
        lemma_stopped_iff_closed(before.drop_last());
        assert(before.last() == events[k - 1]);
        assert(watcher_after(before.drop_last()) != Watcher::Stopped) by {
            if watcher_after(before.drop_last()) == Watcher::Stopped {
                let i = choose|i: int|
                    0 <= i < before.drop_last().len() && (#[trigger] before.drop_last()[i]) is Closed;
                assert(events[i] is Closed);
            }
        }
    }
    assert(events.take(k + 1).drop_last() =~= events.take(k));
    assert(events.take(k + 1).last() == events[k]);
}

/// From listening, the end of a hand is answered by a look at the settings,
/// and by a delay where they are on; whatever else they say, and whatever else
/// arrives while they are read or while the delay runs, leaves the watcher
/// listening. The ready frame goes out when the delay has run out.
pub proof fn law_a_hand_is_followed_to_its_end(event: WatchEvent, next: WatchEvent, last: WatchEvent)
    ensures
        ({
            let (asking, first) = watch(Watcher::Idle, event);
            let (waiting, second) = watch(asking, next);
            let (after, third) = watch(waiting, last);
            &&& first == WatchAction::ReadSettings <==> event == WatchEvent::Mjai(
                MjaiEvent::EndKyoku,
            )
            &&& first == WatchAction::ReadSettings ==> {
                &&& second == WatchAction::Delay <==> says_enabled(next)
                &&& !says_enabled(next) && !(next is Closed) ==> second == WatchAction::Listen
                    && waiting == Watcher::Idle
                &&& second == WatchAction::Delay ==> {
                    &&& third == WatchAction::SendReady <==> last is Elapsed
                    &&& !(last is Closed) ==> after == Watcher::Idle
                    &&& !(last is Elapsed) && !(last is Closed) ==> third == WatchAction::Listen
                }
            }
            &&& event is Closed ==> first == WatchAction::Stop
            &&& !(event is Closed) && event != WatchEvent::Mjai(MjaiEvent::EndKyoku) ==> first
                == WatchAction::Listen && asking == Watcher::Idle
        }),
{
}

/// The wait in numbers: between 15 and 17 seconds for up to two yaku lines,
/// by the random number alone, half a second more for each line from the
/// third to the seventh, and no more after that.
pub proof fn law_the_wait_in_numbers(random: u64, yakus: u32)
    ensures
        yakus <= 2 ==> advance_ms(random, yakus) == 15000 + random % 2001,
        3 <= yakus <= 7 ==> advance_ms(random, yakus) == advance_ms(random, (yakus - 1) as u32)
            + 500,
        yakus >= 7 ==> advance_ms(random, yakus) == advance_ms(random, 2) + 2500,
{
}

} // verus!
