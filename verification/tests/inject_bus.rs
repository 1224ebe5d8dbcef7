//! The injection bus.

use akagi::autoplay::inject::{stamp_message_index, InjectBus, InjectFrame};
use akagi::bridge::riichi_city::packet::WPacket;
use std::time::Instant;

/// The packet that asks for the next round.
fn ready_frame() -> Vec<u8> {
    let body: serde_json::Value =
        serde_json::from_str(r#"{"cmd":"req_user_prepare"}"#).unwrap();
    WPacket::encode(0, 18, &body)
}

#[test]
fn send_without_subscribers_reports_false() {
    let mut bus = InjectBus::new();
    assert!(!bus.send(InjectFrame {
        gameplay: true,
        bytes: vec![1, 2, 3],
    }));
}

#[test]
fn subscribed_round_trip_and_in_game_flag() {
    let mut bus = InjectBus::new();
    let mut rx = bus.subscribe();
    let frame = InjectFrame {
        gameplay: true,
        bytes: vec![9],
    };
    assert!(bus.send(frame.clone()));
    assert_eq!(rx.try_recv().unwrap().bytes, frame.bytes);

    assert!(!bus.in_game());
    bus.set_in_game(true);
    assert!(bus.in_game());
}

#[test]
fn window_state_opens_and_closes() {
    let mut bus = InjectBus::new();
    assert!(
        !bus.window_is_open(),
        "no window before the server offers one"
    );
    bus.note_window();
    assert!(bus.window_is_open());
    bus.note_window_closed();
    assert!(!bus.window_is_open(), "resolved by an action broadcast");
}

#[test]
fn rsp_tickets_track_responses() {
    let mut bus = InjectBus::new();
    let t = bus.rsp_ticket();
    assert!(!bus.rsp_since(t), "nothing arrived yet");
    bus.note_rsp(0);
    bus.note_rsp(0);
    assert!(bus.rsp_since(t));
    assert_eq!(bus.rsp_ticket(), 2);
    assert_eq!(bus.last_rsp_code(), 0);

    bus.note_rsp(4001);
    assert_eq!(bus.last_rsp_code(), 4001);
}

/// Injected frames must be indexed past whatever the client has already
/// sent, and must never reuse an index themselves.
#[test]
fn injected_frames_are_indexed_past_the_client() {
    let mut bus = InjectBus::new();
    let mut rx = bus.subscribe();
    bus.note_up_index(40); // the client just sent #40

    let frame = ready_frame();
    assert!(bus.send(InjectFrame {
        gameplay: true,
        bytes: frame
    }));
    let sent = rx.try_recv().unwrap();
    let be = |b: &[u8]| u32::from_be_bytes(b[8..12].try_into().unwrap());
    assert_eq!(be(&sent.bytes), 41, "past the client's 40");

    // The client advances underneath us; our next frame clears that too.
    bus.note_up_index(100);
    let mut again = sent.bytes.clone();
    again[8..12].copy_from_slice(&0u32.to_be_bytes()); // stale index
    assert!(bus.send(InjectFrame {
        gameplay: true,
        bytes: again
    }));
    let sent2 = rx.try_recv().unwrap();
    assert_eq!(be(&sent2.bytes), 101);
}

/// Stamping a packet changes its index and nothing else.
#[test]
fn stamping_keeps_command_and_body() {
    let mut bus = InjectBus::new();
    let mut rx = bus.subscribe();
    bus.note_up_index(6);
    let frame = ready_frame();
    assert!(bus.send(InjectFrame {
        gameplay: false,
        bytes: frame.clone(),
    }));
    let sent = rx.try_recv().unwrap();
    assert!(!sent.gameplay);
    assert_eq!(sent.bytes[..8], frame[..8]);
    assert_eq!(sent.bytes[8..12], [0, 0, 0, 7]);
    assert_eq!(sent.bytes[12..], frame[12..]);
    let (packet, size) = WPacket::parse_one(&sent.bytes).unwrap();
    assert_eq!(packet.message_index, 7);
    assert_eq!(packet.cmd, 18);
    assert_eq!(packet.method_label(), "req_user_prepare");
    assert_eq!(size, frame.len());
}

#[test]
fn bytes_that_are_no_packet_are_not_stamped() {
    let mut bytes = vec![7u8; 20];
    let mut counter: u32 = 3;
    stamp_message_index(&mut bytes, &mut counter);
    assert_eq!(bytes, vec![7u8; 20]);
    assert_eq!(counter, 3);
    let mut short = vec![0, 0, 0, 14, 0, 15, 0, 1, 0, 0, 0, 0, 0, 0];
    stamp_message_index(&mut short, &mut counter);
    assert_eq!(counter, 3);
}

#[test]
fn the_index_wraps_at_its_end() {
    let mut bytes = ready_frame();
    let mut counter: u32 = u32::MAX;
    stamp_message_index(&mut bytes, &mut counter);
    assert_eq!(counter, 0);
    assert_eq!(bytes[8..12], [0, 0, 0, 0]);
}

#[test]
fn a_lower_client_index_is_ignored() {
    let mut bus = InjectBus::new();
    let mut rx = bus.subscribe();
    bus.note_up_index(10);
    bus.note_up_index(4);
    assert!(bus.send(InjectFrame {
        gameplay: true,
        bytes: ready_frame(),
    }));
    assert_eq!(rx.try_recv().unwrap().bytes[8..12], [0, 0, 0, 11]);
}

#[test]
fn a_fresh_bus_has_observed_nothing() {
    let bus = InjectBus::default();
    assert_eq!(bus.rsp_ticket(), 0);
    assert_eq!(bus.last_rsp_code(), 0);
    assert_eq!(bus.settlement(), (0, 0));
    assert!(bus.window_opened_at().is_none());
    assert!(!bus.in_game());
}

#[test]
fn a_window_is_remembered_after_it_closes() {
    let mut bus = InjectBus::new();
    let before = Instant::now();
    bus.note_window();
    let opened = bus.window_opened_at().unwrap();
    assert!(opened >= before && opened <= Instant::now());
    bus.note_window_closed();
    assert_eq!(bus.window_opened_at(), Some(opened));
    bus.open_window_at(before);
    assert!(bus.window_is_open());
    assert_eq!(bus.window_opened_at(), Some(before));
}

#[test]
fn a_settlement_is_read_back() {
    let mut bus = InjectBus::new();
    bus.note_settlement(5, 3);
    assert_eq!(bus.settlement(), (5, 3));
}

#[test]
fn a_send_after_the_last_receiver_left_reports_false() {
    let mut bus = InjectBus::new();
    let rx = bus.subscribe();
    drop(rx);
    assert!(!bus.send(InjectFrame {
        gameplay: true,
        bytes: ready_frame(),
    }));
}

/// Packets leave in order of their indices, whatever the client sends between.
#[test]
fn indices_stay_in_order_across_sends() {
    let mut bus = InjectBus::new();
    let mut rx = bus.subscribe();
    let mut last = 0;
    for client in [0u32, 5, 3, 90, 7] {
        bus.note_up_index(client);
        assert!(bus.send(InjectFrame {
            gameplay: true,
            bytes: ready_frame(),
        }));
        let sent = rx.try_recv().unwrap();
        let (packet, _) = WPacket::parse_one(&sent.bytes).unwrap();
        assert!(packet.message_index > last && packet.message_index > client);
        last = packet.message_index;
    }
    assert_eq!(last, 92);
}

/// What is accepted after a subscription is owed to it, to each one from its
/// own start, in order and with the bytes as they were stamped.
#[test]
fn every_subscriber_gets_what_is_accepted_after_it_joined() {
    let mut bus = InjectBus::new();
    let mut early = bus.subscribe();
    let send = |bus: &mut InjectBus, gameplay: bool| {
        assert!(bus.send(InjectFrame {
            gameplay,
            bytes: ready_frame(),
        }));
    };
    send(&mut bus, true);
    let mut late = bus.subscribe();
    send(&mut bus, false);
    let index = |frame: &InjectFrame| frame.bytes[11];
    let first = early.try_recv().unwrap();
    let second = early.try_recv().unwrap();
    assert_eq!((first.gameplay, index(&first)), (true, 1));
    assert_eq!((second.gameplay, index(&second)), (false, 2));
    assert!(early.try_recv().is_err());
    let only = late.try_recv().unwrap();
    assert_eq!((only.gameplay, only.bytes), (false, second.bytes));
    assert!(late.try_recv().is_err());
}

#[test]
fn a_ticket_counts_the_responses_after_it() {
    let mut bus = InjectBus::new();
    bus.note_rsp(1);
    let ticket = bus.rsp_ticket();
    for code in [5, -3, 12] {
        bus.note_rsp(code);
    }
    assert_eq!(bus.rsp_ticket(), ticket + 3);
    assert_eq!(bus.last_rsp_code(), 12);
}

/// A frame goes out while a receiver of the bus is alive, and only there.
#[test]
fn a_frame_goes_out_while_a_receiver_lives() {
    let mut bus = InjectBus::new();
    let mut other = InjectBus::new();
    let stranger = other.subscribe();
    let frame = || InjectFrame {
        gameplay: true,
        bytes: ready_frame(),
    };
    assert!(!bus.send_heard_by(frame(), &stranger));
    let mut rx = bus.subscribe();
    assert!(bus.send_heard_by(frame(), &rx));
    // The first frame took an index although it did not go out.
    assert_eq!(rx.try_recv().unwrap().bytes[8..12], [0, 0, 0, 2]);
    assert!(bus.send_heard_by(frame(), &stranger));
}

/// The channel keeps 64 frames for a subscriber that lags behind.
#[test]
fn a_slow_subscriber_finds_the_last_64_frames() {
    let mut bus = InjectBus::new();
    let mut rx = bus.subscribe();
    for _ in 0..65 {
        assert!(bus.send(InjectFrame {
            gameplay: true,
            bytes: ready_frame(),
        }));
    }
    assert!(rx.try_recv().is_err(), "one frame was lost");
    for index in 2..=65u8 {
        assert_eq!(rx.try_recv().unwrap().bytes[11], index);
    }
    assert!(rx.try_recv().is_err());
}
