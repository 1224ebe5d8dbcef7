//! Riichi City packets.

use akagi::bridge::riichi_city::packet::{
    encode_text, is_plain, label_for, starts_with_header, RequestCounter, WPacket, CMD_AUTH, HEADER_LEN,
};
use serde_json::Value;

/// Build a WPacket on the wire: 15-byte big-endian header + JSON body.
fn frame(message_index: u32, cmd: u16, json: &[u8]) -> Vec<u8> {
    let packet_size = (HEADER_LEN + json.len()) as u32;
    let mut v = Vec::new();
    v.extend_from_slice(&packet_size.to_be_bytes());
    v.extend_from_slice(&[0x00, 0x0f, 0x00, 0x01]);
    v.extend_from_slice(&message_index.to_be_bytes());
    v.extend_from_slice(&cmd.to_be_bytes());
    v.push(if json.is_empty() { 0 } else { 1 });
    v.extend_from_slice(json);
    v
}

#[test]
fn decodes_auth_handshake() {
    // An auth handshake with a made-up uid.
    let json = br#"{"platform":"pc","uid":"123456789","lang":"en","sid":"deadbeef"}"#;
    let buf = frame(14, CMD_AUTH, json);
    let (pkt, consumed) = WPacket::parse_one(&buf).expect("auth decodes");
    assert_eq!(consumed, buf.len());
    assert_eq!(pkt.message_index, 14);
    assert_eq!(pkt.cmd, CMD_AUTH);
    assert_eq!(pkt.body["uid"], "123456789");
    assert_eq!(pkt.method_label(), "auth");
}

#[test]
fn empty_body_is_null() {
    let buf = frame(1, 0, b"");
    let (pkt, _) = WPacket::parse_one(&buf).expect("empty body decodes");
    assert!(pkt.body.is_null());
}

#[test]
fn gameplay_cmd_label_comes_from_json() {
    let json = br#"{"cmd":"cmd_room_end","data":{}}"#;
    let buf = frame(7, 18, json);
    let (pkt, _) = WPacket::parse_one(&buf).unwrap();
    assert_eq!(pkt.method_label(), "cmd_room_end");
}

#[test]
fn rejects_bad_magic() {
    let mut buf = frame(1, CMD_AUTH, b"{}");
    buf[5] = 0xFF; // corrupt header_size
    assert!(WPacket::parse_one(&buf).is_none());
}

#[test]
fn rejects_incomplete() {
    let buf = frame(1, CMD_AUTH, b"{\"uid\":\"1\"}");
    // Truncate so packet_size > available bytes.
    assert!(WPacket::parse_one(&buf[..buf.len() - 3]).is_none());
}

#[test]
fn parses_concatenated_packets() {
    let mut buf = frame(1, 0, br#"{"cmd":"a"}"#);
    buf.extend(frame(2, 0, br#"{"cmd":"b"}"#));
    let pkts = WPacket::parse_frame(&buf);
    assert_eq!(pkts.len(), 2);
    assert_eq!(pkts[0].method_label(), "a");
    assert_eq!(pkts[1].method_label(), "b");
}

fn json(text: &str) -> Value {
    serde_json::from_str(text).unwrap()
}

/// The bytes of a frame, field by field.
#[test]
fn encode_writes_the_header_in_big_endian_order() {
    let out = WPacket::encode(0x0102_0304, 0x0506, &json(r#"{"a":1}"#));
    assert_eq!(out[..4], [0, 0, 0, 22]);
    assert_eq!(out[4..8], [0, 15, 0, 1]);
    assert_eq!(out[8..12], [1, 2, 3, 4]);
    assert_eq!(out[12..14], [5, 6]);
    assert_eq!(out[14], 1);
    assert_eq!(&out[15..], br#"{"a":1}"#);
}

#[test]
fn a_text_frame_without_a_body_has_no_body_flag() {
    let out = encode_text(9, 2, b"");
    assert_eq!(out, vec![0, 0, 0, 15, 0, 15, 0, 1, 0, 0, 0, 9, 0, 2, 0]);
    let (packet, size) = WPacket::parse_one(&out).unwrap();
    assert_eq!((packet.message_index, packet.cmd, size), (9, 2, 15));
    assert!(packet.body.is_null());
}

/// What was encoded decodes to the same packet, whatever follows it.
#[test]
fn decoding_inverts_encoding() {
    let body = json(r#"{"cmd":"x","data":{"n":[1,-2,true,null,"y"]}}"#);
    let mut buf = WPacket::encode(77, 300, &body);
    let len = buf.len();
    buf.extend_from_slice(&[1, 2, 3]);
    let (packet, size) = WPacket::parse_one(&buf).unwrap();
    assert_eq!(packet.message_index, 77);
    assert_eq!(packet.cmd, 300);
    assert_eq!(packet.body, body);
    assert_eq!(size, len);
    assert_eq!(packet.clone().body, body);
}

#[test]
fn requests_are_numbered_from_one() {
    let mut counter = RequestCounter::new();
    let first = WPacket::encode_request(&mut counter, 18, &json("{}"));
    let second = WPacket::encode_request(&mut counter, 18, &json("{}"));
    assert_eq!(first[8..12], [0, 0, 0, 1]);
    assert_eq!(second[8..12], [0, 0, 0, 2]);
    let mut last = RequestCounter { next: u32::MAX };
    WPacket::encode_request(&mut last, 18, &json("{}"));
    assert_eq!(last.next, 0);
}

#[test]
fn labels_fall_back_to_the_binary_command() {
    let packet = WPacket {
        message_index: 0,
        cmd: 18,
        body: json(r#"{"cmd":7}"#),
    };
    assert_eq!(packet.method_label(), "cmd#18");
    assert_eq!(label_for(None, 65535), "cmd#65535");
    assert_eq!(label_for(None, CMD_AUTH), "auth");
    assert_eq!(label_for(Some("z"), CMD_AUTH), "z");
}

#[test]
fn rejects_a_size_below_the_header() {
    let mut buf = frame(1, 0, b"");
    buf[3] = 14;
    assert!(WPacket::parse_one(&buf).is_none());
    assert!(WPacket::parse_one(&buf[..14]).is_none());
}

#[test]
fn rejects_a_body_that_is_not_json() {
    assert!(WPacket::parse_one(&frame(1, 0, b"{")).is_none());
}

/// Decoding stops at the first packet that fails and keeps what came before.
#[test]
fn a_bad_packet_ends_the_frame() {
    let mut buf = frame(1, 0, br#"{"cmd":"a"}"#);
    buf.extend(frame(2, 0, b"{"));
    buf.extend(frame(3, 0, br#"{"cmd":"c"}"#));
    let packets = WPacket::parse_frame(&buf);
    assert_eq!(packets.len(), 1);
    assert_eq!(packets[0].message_index, 1);
    assert!(WPacket::parse_frame(b"").is_empty());
}

#[test]
fn the_header_is_recognised_by_its_magic() {
    assert!(starts_with_header(&frame(1, 0, b"")));
    assert!(!starts_with_header(&frame(1, 0, b"")[..14]));
    let mut buf = frame(1, 0, b"");
    buf[7] = 2;
    assert!(!starts_with_header(&buf));
}

fn nested(depth: usize) -> Value {
    let mut value = json("1");
    for level in 0..depth {
        value = if level % 2 == 0 {
            Value::Array(vec![json("null"), value])
        } else {
            let mut map = serde_json::Map::new();
            map.insert("k".to_string(), value);
            Value::Object(map)
        };
    }
    value
}

/// A plain body comes back from the wire as it was sent.
#[test]
fn plain_bodies_come_back() {
    for body in [
        json("null"),
        json(r#""""#),
        json(r#"{"a":[{"b":18446744073709551615,"c":-9223372036854775808}],"d":"\u0007é\"\\"}"#),
        nested(127),
    ] {
        assert!(is_plain(&body));
        let frame = WPacket::encode(3, 4, &body);
        let (packet, size) = WPacket::parse_one(&frame).unwrap();
        assert_eq!((packet.message_index, packet.cmd), (3, 4));
        assert_eq!(packet.body, body);
        assert_eq!(size, frame.len());
    }
}

/// Floating-point numbers and values nested past the reader's limit are not
/// plain.
#[test]
fn floats_and_deep_nesting_are_not_plain() {
    assert!(!is_plain(&json("1.5")));
    assert!(!is_plain(&json(r#"{"a":[1,2.0]}"#)));
    assert!(!is_plain(&json(r#"[[],{"x":1e3}]"#)));
    let deep = nested(128);
    assert!(!is_plain(&deep));
    assert!(WPacket::parse_one(&WPacket::encode(1, 1, &deep)).is_none());
}
