//! Advancing past a settlement.

use akagi::autoplay::riichi_city::round_advance::{
    autoplay_enabled_for_riichi, round_advance_delay, round_advance_ms, WatchAction, WatchEvent,
    Watcher,
};
use akagi::config::Platform;
use akagi::schema::MjaiEvent;

/// The round-advance delay = a 15s animation floor + jitter [0,2000] + a
/// reading beat that is zero for ≤2 yaku lines and grows half a second
/// per extra line (capped at 2500). Randomized, so assert the bounds over
/// samples, that nothing ever fires under the 15s floor, that more yaku
/// lines shift the window up, and that everything stays under the
/// client's ~59s countdown.
#[test]
fn round_advance_delay_bounds_scale_with_yaku_count() {
    let bounds = |yakus: u32| -> (u64, u64) {
        let read = (u64::from(yakus.saturating_sub(2)) * 500).min(2_500);
        (15_000 + read, 17_000 + read)
    };
    for yakus in [0u32, 2, 3, 5, 9, 20] {
        let (lo, hi) = bounds(yakus);
        for _ in 0..200 {
            let ms = round_advance_delay(yakus).as_millis() as u64;
            assert!(
                (lo..=hi).contains(&ms),
                "yakus={yakus}: {ms} not in [{lo},{hi}]"
            );
            assert!(
                ms >= 15_000,
                "yakus={yakus}: {ms} under the animation floor"
            );
        }
        assert!(
            hi < 59_000,
            "yakus={yakus}: must fire before the server countdown"
        );
    }
    // A draw (0 yaku) reads faster than a big hand.
    assert!(bounds(0).1 < bounds(9).0);
}

#[test]
fn the_wait_is_floor_jitter_and_reading() {
    assert_eq!(round_advance_ms(0, 0), 15_000);
    assert_eq!(round_advance_ms(2_000, 2), 17_000);
    assert_eq!(round_advance_ms(2_001, 2), 15_000);
    assert_eq!(round_advance_ms(5, 3), 15_505);
    assert_eq!(round_advance_ms(0, 7), 17_500);
    assert_eq!(round_advance_ms(0, 8), 17_500);
    assert_eq!(round_advance_ms(2_000, u32::MAX), 19_500);
}

#[test]
fn only_riichi_city_is_advanced() {
    assert!(autoplay_enabled_for_riichi(true, Platform::RiichiCity));
    assert!(!autoplay_enabled_for_riichi(false, Platform::RiichiCity));
    assert!(!autoplay_enabled_for_riichi(true, Platform::Tenhou));
    assert!(!autoplay_enabled_for_riichi(true, Platform::Majsoul));
}

fn enabled() -> WatchEvent {
    WatchEvent::Settings {
        autoplay_enabled: true,
        platform: Platform::RiichiCity,
    }
}

fn actions(events: &[WatchEvent]) -> Vec<WatchAction> {
    let mut watcher = Watcher::new();
    events.iter().map(|e| watcher.step(e)).collect()
}

#[test]
fn an_undisturbed_delay_sends_the_ready_frame_once() {
    let end = WatchEvent::Mjai(MjaiEvent::EndKyoku);
    assert_eq!(
        actions(&[
            end.clone(),
            enabled(),
            WatchEvent::Elapsed,
            WatchEvent::Elapsed,
            end,
        ]),
        vec![
            WatchAction::ReadSettings,
            WatchAction::Delay,
            WatchAction::SendReady,
            WatchAction::Listen,
            WatchAction::ReadSettings,
        ]
    );
}

/// Whatever arrives while the delay runs voids the cycle, another end of a
/// hand among it.
#[test]
fn a_message_during_the_delay_voids_the_cycle() {
    let end = WatchEvent::Mjai(MjaiEvent::EndKyoku);
    for disturbance in [
        WatchEvent::Mjai(MjaiEvent::StartKyoku),
        WatchEvent::Mjai(MjaiEvent::EndGame),
        end.clone(),
        WatchEvent::Lagged,
    ] {
        assert_eq!(
            actions(&[end.clone(), enabled(), disturbance, WatchEvent::Elapsed]),
            vec![
                WatchAction::ReadSettings,
                WatchAction::Delay,
                WatchAction::Listen,
                WatchAction::Listen,
            ]
        );
    }
}

#[test]
fn nothing_is_sent_while_autoplay_is_off() {
    let off = WatchEvent::Settings {
        autoplay_enabled: false,
        platform: Platform::RiichiCity,
    };
    assert_eq!(
        actions(&[
            WatchEvent::Mjai(MjaiEvent::EndKyoku),
            off,
            WatchEvent::Elapsed
        ]),
        vec![
            WatchAction::ReadSettings,
            WatchAction::Listen,
            WatchAction::Listen,
        ]
    );
}

#[test]
fn a_closed_bus_stops_the_watcher() {
    let end = WatchEvent::Mjai(MjaiEvent::EndKyoku);
    assert_eq!(
        actions(&[WatchEvent::Lagged, WatchEvent::Closed, end.clone()]),
        vec![WatchAction::Listen, WatchAction::Stop, WatchAction::Stop]
    );
    assert_eq!(
        actions(&[end, enabled(), WatchEvent::Closed]),
        vec![
            WatchAction::ReadSettings,
            WatchAction::Delay,
            WatchAction::Stop
        ]
    );
}
