//! Riichi City WebSocket packet (WPacket) framing.
//!
//! Riichi City frames its WebSocket messages with a fixed 15-byte header
//! followed by an optional UTF-8 JSON body. All multi-byte header fields are
//! **big-endian** on the wire:
//!
//! ```text
//! [0..4]  packet_size    u32  total bytes incl. header
//! [4..6]  header_size    u16  always 15
//! [6..8]  version        u16  always 1
//! [8..12] message_index  u32  request/response correlation counter
//! [12..14] cmd           u16  binary command enum (e.g. CMDAuth = 1)
//! [14]    has_body       u8   0 or 1
//! [15..]  json_payload   UTF-8 JSON (present when packet_size > 15)
//! ```
//!
//! Bytes `[4..8]` must equal `00 0f 00 01` (header_size = 15, version = 1).
//! One WebSocket message normally carries exactly one WPacket;
//! [`WPacket::parse_frame`] additionally tolerates several concatenated
//! packets in a single frame.

use crate::text;
use serde_json::Value;
use vstd::prelude::*;
use vstd::slice::slice_subrange;
use vstd::string::StringExecFns;

verus! {

/// Binary command: the client's WebSocket auth handshake. Carries our `uid`.
pub const CMD_AUTH: u16 = 1;

/// Minimum packet length: the 15-byte header with an empty body.
pub const HEADER_LEN: usize = 15;

/// A JSON value, as `serde_json` holds it. Nothing is assumed of its inside.
#[verifier::external_type_specification]
#[verifier::external_body]
pub struct ExValue(serde_json::Value);

/// What `serde_json::from_slice` reads from `text`: the JSON value, or `None`
/// where the text is not one JSON document.
pub uninterp spec fn json_value(text: Seq<u8>) -> Option<Value>;

/// What `serde_json::to_vec` writes for `value`.
pub uninterp spec fn json_text(value: Value) -> Seq<u8>;

/// What `serde_json::Value::get` finds under `key`: the member of an object,
/// or `None` where there is none or `value` is no object.
pub uninterp spec fn json_member(value: Value, key: Seq<char>) -> Option<Value>;

/// What `serde_json::Value::as_str` gives: the characters of a JSON string,
/// `None` for every other value.
pub uninterp spec fn json_str(value: Value) -> Option<Seq<char>>;

/// What `serde_json::Value::is_f64` gives: whether the value is a
/// floating-point number.
pub uninterp spec fn json_is_float(value: Value) -> bool;

/// What `serde_json::Value::as_array` gives: the elements of an array, `None`
/// for every other value.
pub uninterp spec fn json_items(value: Value) -> Option<Seq<Value>>;

/// What `serde_json::Map::values` lists for an object: its members without
/// their keys, in the map's own order; `None` for every other value.
pub uninterp spec fn json_fields(value: Value) -> Option<Seq<Value>>;

/// How many arrays and objects may stand inside one another for the JSON
/// reader to take them.
pub const MAX_DEPTH: u32 = 127;

/// Whether a value holds no floating-point number and has at most `depth`
/// arrays and objects inside one another.
pub open spec fn plain_within(value: Value, depth: nat) -> bool
    decreases depth, 1nat,
{
    &&& !json_is_float(value)
    &&& json_items(value) matches Some(items) ==> all_plain(items, depth)
    &&& json_fields(value) matches Some(fields) ==> all_plain(fields, depth)
}

/// Whether the members of an array or object are plain, where the array or
/// object itself takes one of `depth` levels.
pub open spec fn all_plain(members: Seq<Value>, depth: nat) -> bool
    decreases depth, 0nat,
{
    depth > 0 && forall|i: int|
        0 <= i < members.len() ==> plain_within(#[trigger] members[i], (depth - 1) as nat)
}

/// Whether a value is one whose JSON text reads back as the same value.
pub open spec fn plain(value: Value) -> bool {
    plain_within(value, MAX_DEPTH as nat)
}

/// `clone` of a `serde_json::Value`. Believed: the copy is the same value.
pub assume_specification[ <serde_json::Value as Clone>::clone ](value: &serde_json::Value) -> (r:
    serde_json::Value)
    ensures
        r == *value,
;

/// Calls `serde_json::from_slice::<Value>` and drops its error. Believed: the
/// result is a function of the text alone, the one named [`json_value`].
#[verifier::external_body]
fn read_json(text: &[u8]) -> (r: Option<Value>)
    ensures
        r == json_value(text@),
{
    serde_json::from_slice(text).ok()
}

/// Calls `serde_json::to_vec`, with an empty result in place of an error.
/// Believed: the bytes are a function of the value alone, the one named
/// [`json_text`], there is at least one of them, and a [`plain`] value comes
/// back from its text as it was. Of the others nothing is claimed: a number
/// with a fraction may come back rounded, and a value nested deeper than the
/// reader's limit does not come back at all.
#[verifier::external_body]
fn write_json(value: &Value) -> (r: Vec<u8>)
    ensures
        r@ == json_text(*value),
        r@.len() > 0,
        plain(*value) ==> json_value(r@) == Some(*value),
{
    serde_json::to_vec(value).unwrap_or_default()
}

/// Calls `serde_json::Value::get` with a string key. Believed: the result is
/// a function of the value and the key, the one named [`json_member`].
#[verifier::external_body]
fn get_member<'a>(value: &'a Value, key: &str) -> (r: Option<&'a Value>)
    ensures
        (match r {
            Some(m) => Some(*m),
            None => None,
        }) == json_member(*value, key@),
{
    value.get(key)
}

/// Calls `serde_json::Value::as_str`. Believed: the result is a function of
/// the value, the one named [`json_str`].
#[verifier::external_body]
fn string_of<'a>(value: &'a Value) -> (r: Option<&'a str>)
    ensures
        (match r {
            Some(s) => Some(s@),
            None => None,
        }) == json_str(*value),
{
    value.as_str()
}

/// Calls `serde_json::Value::is_f64`. Believed: the result is a function of
/// the value, the one named [`json_is_float`].
#[verifier::external_body]
fn is_float(value: &Value) -> (r: bool)
    ensures
        r == json_is_float(*value),
{
    value.is_f64()
}

/// Calls `serde_json::Value::as_array`. Believed: the result is a function of
/// the value, the one named [`json_items`].
#[verifier::external_body]
fn items_of<'a>(value: &'a Value) -> (r: Option<&'a Vec<Value>>)
    ensures
        (match r {
            Some(items) => Some(items@),
            None => None,
        }) == json_items(*value),
{
    value.as_array()
}

/// Calls `serde_json::Map::values` on an object's map and lists what comes.
/// Believed: the result is a function of the value, the one named
/// [`json_fields`].
#[verifier::external_body]
fn fields_of<'a>(value: &'a Value) -> (r: Option<Vec<&'a Value>>)
    ensures
        (match r {
            Some(fields) => Some(fields@.map_values(|field: &'a Value| *field)),
            None => None,
        }) == json_fields(*value),
{
    match value.as_object() {
        Some(map) => Some(map.values().collect()),
        None => None,
    }
}

/// Builds `serde_json::Value::Null`. Believed: it is the value that
/// `serde_json` reads from the four letters `null`.
#[verifier::external_body]
fn null_value() -> (r: Value)
    ensures
        json_value(null_text()) == Some(r),
{
    Value::Null
}

/// The letters `null`.
pub open spec fn null_text() -> Seq<u8> {
    seq![0x6eu8, 0x75u8, 0x6cu8, 0x6cu8]
}

/// The fixed `header_size (15) || version (1)` magic, big-endian.
pub open spec fn magic() -> Seq<u8> {
    seq![0x00u8, 0x0fu8, 0x00u8, 0x01u8]
}

/// The number that four bytes write in big-endian order.
pub open spec fn be32_value(b: Seq<u8>) -> nat {
    (b[0] * 0x100_0000 + b[1] * 0x1_0000 + b[2] * 0x100 + b[3]) as nat
}

/// The number that two bytes write in big-endian order.
pub open spec fn be16_value(b: Seq<u8>) -> nat {
    (b[0] * 0x100 + b[1]) as nat
}

/// `n` as four bytes in big-endian order.
pub open spec fn be32_bytes(n: u32) -> Seq<u8> {
    seq![
        (n / 0x100_0000) as u8,
        (n / 0x1_0000 % 0x100) as u8,
        (n / 0x100 % 0x100) as u8,
        (n % 0x100) as u8,
    ]
}

/// `n` as two bytes in big-endian order.
pub open spec fn be16_bytes(n: u16) -> Seq<u8> {
    seq![(n / 0x100) as u8, (n % 0x100) as u8]
}

/// The packet size that a header announces.
pub open spec fn announced_size(buf: Seq<u8>) -> nat {
    be32_value(buf.subrange(0, 4))
}

/// Whether `buf` starts with the header of a packet: long enough, with the
/// magic bytes in place.
pub open spec fn has_header(buf: Seq<u8>) -> bool {
    buf.len() >= HEADER_LEN && buf.subrange(4, 8) == magic()
}

/// Whether `buf` starts with a complete packet: a header, and as many bytes
/// as it announces.
pub open spec fn well_framed(buf: Seq<u8>) -> bool {
    has_header(buf) && HEADER_LEN <= announced_size(buf) <= buf.len()
}

/// The body that `text` carries. An empty text carries JSON `null`.
pub open spec fn body_value(text: Seq<u8>) -> Option<Value> {
    if text.len() == 0 {
        json_value(null_text())
    } else {
        json_value(text)
    }
}

/// The packet at the front of `buf` and the number of bytes it takes.
pub open spec fn front_packet(buf: Seq<u8>) -> Option<(WPacket, nat)> {
    if !well_framed(buf) {
        None
    } else {
        let size = announced_size(buf);
        match body_value(buf.subrange(HEADER_LEN as int, size as int)) {
            Some(body) => Some(
                (
                    WPacket {
                        message_index: be32_value(buf.subrange(8, 12)) as u32,
                        cmd: be16_value(buf.subrange(12, 14)) as u16,
                        body,
                    },
                    size,
                ),
            ),
            None => None,
        }
    }
}

/// Every packet from the front of `buf` on, up to the first that does not
/// decode.
pub open spec fn all_packets(buf: Seq<u8>) -> Seq<WPacket>
    decreases buf.len(),
{
    match front_packet(buf) {
        Some((packet, size)) => if 0 < size <= buf.len() {
            seq![packet] + all_packets(buf.skip(size as int))
        } else {
            seq![]
        },
        None => seq![],
    }
}

/// The wire frame of a packet whose body has the JSON text `json`. The size
/// field holds the size modulo 2^32.
pub open spec fn frame_bytes(message_index: u32, cmd: u16, json: Seq<u8>) -> Seq<u8> {
    be32_bytes(((HEADER_LEN + json.len()) % 0x1_0000_0000) as u32) + magic() + be32_bytes(
        message_index,
    ) + be16_bytes(cmd) + seq![if json.len() != 0 { 1u8 } else { 0u8 }] + json
}

/// Whether `frame` is one packet with exactly these parts.
pub open spec fn parses_as(frame: Seq<u8>, message_index: u32, cmd: u16, body: Value) -> bool {
    front_packet(frame) == Some((WPacket { message_index, cmd, body }, frame.len()))
}

/// What a frame made for a packet parses back to, where its size fits the
/// size field: that packet, exactly where the JSON text of the body reads back
/// as the body, which it does for every plain one.
pub open spec fn sent_packet_comes_back(
    frame: Seq<u8>,
    message_index: u32,
    cmd: u16,
    body: Value,
) -> bool {
    frame.len() <= u32::MAX ==> {
        &&& parses_as(frame, message_index, cmd, body) <==> json_value(json_text(body)) == Some(
            body,
        )
        &&& plain(body) ==> parses_as(frame, message_index, cmd, body)
    }
}

/// The label of a packet: the JSON `"cmd"` where there is one, else a name
/// made from the binary command.
pub open spec fn label_text(json_cmd: Option<Seq<char>>, cmd: u16) -> Seq<char> {
    match json_cmd {
        Some(name) => name,
        None => if cmd == CMD_AUTH {
            "auth"@
        } else {
            "cmd#"@ + text::decimal(cmd as nat)
        },
    }
}

/// The string under `"cmd"` in a JSON body, if there is one.
pub open spec fn cmd_member(body: Value) -> Option<Seq<char>> {
    match json_member(body, "cmd"@) {
        Some(m) => json_str(m),
        None => None,
    }
}

/// Whether a value holds no floating-point number and has at most `depth`
/// arrays and objects inside one another.
fn is_plain_within(value: &Value, depth: u32) -> (r: bool)
    ensures
        r == plain_within(*value, depth as nat),
    decreases depth,
{
    if is_float(value) {
        return false;
    }
    if let Some(items) = items_of(value) {
        if depth == 0 {
            return false;
        }
        let mut i: usize = 0;
        while i < items.len()
            invariant
                i <= items.len(),
                depth > 0,
                json_items(*value) == Some(items@),
                forall|k: int|
                    0 <= k < i ==> plain_within(#[trigger] items@[k], (depth - 1) as nat),
            decreases items.len() - i,
        {
            if !is_plain_within(&items[i], depth - 1) {
                return false;
            }
            i += 1;
        }
    }
    if let Some(fields) = fields_of(value) {
        let ghost members = fields@.map_values(|field: &Value| *field);
        if depth == 0 {
            return false;
        }
        let mut i: usize = 0;
        while i < fields.len()
            invariant
                i <= fields.len(),
                depth > 0,
                members == fields@.map_values(|field: &Value| *field),
                json_fields(*value) == Some(members),
                forall|k: int|
                    0 <= k < i ==> plain_within(#[trigger] members[k], (depth - 1) as nat),
            decreases fields.len() - i,
        {
            if !is_plain_within(fields[i], depth - 1) {
                assert(members[i as int] == *fields@[i as int]);
                return false;
            }
            i += 1;
        }
    }
    true
}

/// Whether a body is sure to come back from the wire as it was sent: it holds
/// no floating-point number and is nested no deeper than the reader allows.
pub fn is_plain(value: &Value) -> (r: bool)
    ensures
        r == plain(*value),
{
    is_plain_within(value, MAX_DEPTH)
}

/// Read the big-endian number in `buf[at..at + 4]`.
fn read_be32(buf: &[u8], at: usize) -> (r: u32)
    requires
        at + 4 <= buf.len(),
    ensures
        r == be32_value(buf@.subrange(at as int, at + 4)),
{
    (buf[at] as u32) * 0x100_0000 + (buf[at + 1] as u32) * 0x1_0000 + (buf[at + 2] as u32) * 0x100
        + (buf[at + 3] as u32)
}

/// Read the big-endian number in `buf[at..at + 2]`.
fn read_be16(buf: &[u8], at: usize) -> (r: u16)
    requires
        at + 2 <= buf.len(),
    ensures
        r == be16_value(buf@.subrange(at as int, at + 2)),
{
    (buf[at] as u16) * 0x100 + (buf[at + 1] as u16)
}

/// Append `n` in big-endian order.
fn push_be32(out: &mut Vec<u8>, n: u32)
    ensures
        final(out)@ == old(out)@ + be32_bytes(n),
{
    out.push((n / 0x100_0000) as u8);
    out.push((n / 0x1_0000 % 0x100) as u8);
    out.push((n / 0x100 % 0x100) as u8);
    out.push((n % 0x100) as u8);
}

/// Append `n` in big-endian order.
fn push_be16(out: &mut Vec<u8>, n: u16)
    ensures
        final(out)@ == old(out)@ + be16_bytes(n),
{
    out.push((n / 0x100) as u8);
    out.push((n % 0x100) as u8);
}

/// Append the magic bytes.
fn push_magic(out: &mut Vec<u8>)
    ensures
        final(out)@ == old(out)@ + magic(),
{
    out.push(0x00);
    out.push(0x0f);
    out.push(0x00);
    out.push(0x01);
}

/// Append the has_body byte.
fn push_flag(out: &mut Vec<u8>, has_body: bool)
    ensures
        final(out)@ == old(out)@ + seq![if has_body { 1u8 } else { 0u8 }],
{
    out.push(
        if has_body {
            1
        } else {
            0
        },
    );
}

/// Append `bytes`.
fn push_bytes(out: &mut Vec<u8>, bytes: &[u8])
    ensures
        final(out)@ == old(out)@ + bytes@,
{
    out.extend_from_slice(bytes);
}

/// The size field of a packet whose body has `json_len` bytes.
fn size_field(json_len: usize) -> (r: u32)
    ensures
        r == (HEADER_LEN + json_len) % 0x1_0000_0000,
{
    ((json_len as u64 % 0x1_0000_0000 + 15) % 0x1_0000_0000) as u32
}

/// Whether `buf` starts with the header of a packet.
pub fn starts_with_header(buf: &[u8]) -> (r: bool)
    ensures
        r == has_header(buf@),
{
    if buf.len() < HEADER_LEN {
        return false;
    }
    let r = buf[4] == 0x00 && buf[5] == 0x0f && buf[6] == 0x00 && buf[7] == 0x01;
    proof {
        let mid = buf@.subrange(4, 8);
        assert(mid[0] == buf[4] && mid[1] == buf[5] && mid[2] == buf[6] && mid[3] == buf[7]);
        if r {
            assert(mid =~= magic());
        }
    }
    r
}

/// One decoded Riichi City packet.
#[derive(Debug)]
pub struct WPacket {
    /// Sequence/correlation counter echoed between request and response.
    pub message_index: u32,
    /// Binary command enum value.
    pub cmd: u16,
    /// JSON body. An empty body decodes to JSON `null`.
    pub body: Value,
}

impl Clone for WPacket {
    fn clone(&self) -> (r: Self)
        ensures
            r == *self,
    {
        WPacket { message_index: self.message_index, cmd: self.cmd, body: self.body.clone() }
    }
}

/// The running message index of the requests we build ourselves.
#[derive(Debug)]
pub struct RequestCounter {
    /// Index of the next request.
    pub next: u32,
}

impl RequestCounter {
    /// A counter whose first request has index 1.
    pub fn new() -> (r: Self)
        ensures
            r.next == 1,
    {
        RequestCounter { next: 1 }
    }
}

/// The label for a packet with the JSON `"cmd"` `json_cmd` and the binary
/// command `cmd`.
pub fn label_for(json_cmd: Option<&str>, cmd: u16) -> (r: String)
    ensures
        r@ == label_text(
            match json_cmd {
                Some(name) => Some(name@),
                None => None,
            },
            cmd,
        ),
{
    if let Some(name) = json_cmd {
        name.to_owned()
    } else if cmd == CMD_AUTH {
        "auth".to_owned()
    } else {
        let mut out = "cmd#".to_owned();
        text::push_decimal(&mut out, cmd as u32);
        out
    }
}

impl WPacket {
    /// Inspector-facing label: the JSON `"cmd"` discriminator when present
    /// (gameplay messages), else a synthetic name from the binary command.
    pub fn method_label(&self) -> (r: String)
        ensures
            r@ == label_text(cmd_member(self.body), self.cmd),
    {
        let json_cmd = match get_member(&self.body, "cmd") {
            Some(member) => string_of(member),
            None => None,
        };
        label_for(json_cmd, self.cmd)
    }

    /// Decode a single WPacket from the front of `buf`.
    ///
    /// Returns the packet plus the number of bytes it consumed
    /// (`packet_size`), or `None` if the buffer is too short, the magic bytes
    /// are wrong, or the body is not valid JSON.
    pub fn parse_one(buf: &[u8]) -> (r: Option<(WPacket, usize)>)
        ensures
            (match r {
                Some((packet, size)) => Some((packet, size as nat)),
                None => None,
            }) == front_packet(buf@),
            well_framed(buf@) && announced_size(buf@) == HEADER_LEN ==> r is Some,
    {
        if !starts_with_header(buf) {
            return None;
        }
        let packet_size: usize = read_be32(buf, 0) as usize;
        if packet_size < HEADER_LEN || packet_size > buf.len() {
            // Incomplete or nonsensical length: the caller drops it.
            return None;
        }
        // buf[14] is has_body (0/1); presence is inferred from packet_size
        // instead, which is robust to clients that always set the flag.
        let body = if packet_size > HEADER_LEN {
            match read_json(slice_subrange(buf, HEADER_LEN, packet_size)) {
                Some(body) => body,
                None => {
                    return None;
                },
            }
        } else {
            null_value()
        };
        let message_index: u32 = read_be32(buf, 8);
        let cmd: u16 = read_be16(buf, 12);
        Some((WPacket { message_index, cmd, body }, packet_size))
    }

    /// Serialize into a full wire frame: 15-byte big-endian header + JSON
    /// body. The inverse of [`WPacket::parse_one`] for frames we build
    /// ourselves: a frame parses back to the packet it was made for, whole,
    /// wherever the JSON text of its body reads back as that body, and it does
    /// for every [`plain`] one.
    pub fn encode(message_index: u32, cmd: u16, body: &Value) -> (r: Vec<u8>)
        ensures
            r@ == frame_bytes(message_index, cmd, json_text(*body)),
            sent_packet_comes_back(r@, message_index, cmd, *body),
    {
        let json = write_json(body);
        let out = encode_text(message_index, cmd, json.as_slice());
        assert(sent_packet_comes_back(out@, message_index, cmd, *body)) by {
            lemma_sent_packet_comes_back(message_index, cmd, *body);
        }
        out
    }

    /// [`WPacket::encode`] with the counter's next message index and the
    /// given binary command. The message index is a placeholder: the inject
    /// bus re-stamps it past the client's live counter before transmission
    /// (see `autoplay::inject`).
    pub fn encode_request(counter: &mut RequestCounter, bin_cmd: u16, body: &Value) -> (r: Vec<u8>)
        ensures
            r@ == frame_bytes(old(counter).next, bin_cmd, json_text(*body)),
            sent_packet_comes_back(r@, old(counter).next, bin_cmd, *body),
            final(counter).next == (old(counter).next + 1) % 0x1_0000_0000,
    {
        let index: u32 = counter.next;
        counter.next = index.wrapping_add(1);
        WPacket::encode(index, bin_cmd, body)
    }

    /// Decode every WPacket in a WebSocket frame. Stops at the first packet
    /// that fails to decode (returning whatever decoded cleanly before it).
    pub fn parse_frame(buf: &[u8]) -> (r: Vec<WPacket>)
        ensures
            r@ == all_packets(buf@),
    {
        let mut out: Vec<WPacket> = Vec::new();
        let mut off: usize = 0;
        assert(buf@.skip(0) =~= buf@);
        while off < buf.len()
            invariant_except_break
                off <= buf.len(),
                out@ + all_packets(buf@.skip(off as int)) == all_packets(buf@),
            ensures
                out@ == all_packets(buf@),
            decreases buf.len() - off,
        {
            let ghost rest = buf@.skip(off as int);
            let tail = slice_subrange(buf, off, buf.len());
            assert(tail@ =~= rest);
            match WPacket::parse_one(tail) {
                Some((packet, size)) => {
                    assert(out@ + (seq![packet] + all_packets(rest.skip(size as int)))
                        =~= out@.push(packet) + all_packets(rest.skip(size as int)));
                    assert(rest.skip(size as int) =~= buf@.skip(off + size));
                    out.push(packet);
                    off += size;
                },
                None => {
                    assert(out@ + seq![] =~= out@);
                    break;
                },
            }
        }
        out
    }
}

/// The size field of a written frame.
proof fn lemma_size_field(message_index: u32, cmd: u16, json: Seq<u8>, rest: Seq<u8>)
    requires
        HEADER_LEN + json.len() <= u32::MAX,
    ensures
        announced_size(frame_bytes(message_index, cmd, json) + rest) == HEADER_LEN + json.len(),
{
    let buf = frame_bytes(message_index, cmd, json) + rest;
    let size = (HEADER_LEN + json.len()) as u32;
    assert(buf.subrange(0, 4) =~= be32_bytes(size));
    law_be32_round_trip(size);
}

/// The magic bytes of a written frame.
proof fn lemma_magic_field(message_index: u32, cmd: u16, json: Seq<u8>, rest: Seq<u8>)
    ensures
        has_header(frame_bytes(message_index, cmd, json) + rest),
{
    let buf = frame_bytes(message_index, cmd, json) + rest;
    assert(buf.subrange(4, 8) =~= magic());
}

/// The index field of a written frame.
proof fn lemma_index_field(message_index: u32, cmd: u16, json: Seq<u8>, rest: Seq<u8>)
    ensures
        be32_value((frame_bytes(message_index, cmd, json) + rest).subrange(8, 12))
            == message_index,
{
    let buf = frame_bytes(message_index, cmd, json) + rest;
    assert(buf.subrange(8, 12) =~= be32_bytes(message_index));
    law_be32_round_trip(message_index);
}

/// The command field of a written frame.
proof fn lemma_cmd_field(message_index: u32, cmd: u16, json: Seq<u8>, rest: Seq<u8>)
    ensures
        be16_value((frame_bytes(message_index, cmd, json) + rest).subrange(12, 14)) == cmd,
{
    let buf = frame_bytes(message_index, cmd, json) + rest;
    assert(buf.subrange(12, 14) =~= be16_bytes(cmd));
    law_be16_round_trip(cmd);
}

/// The length of a written frame, its body and what stands behind it.
proof fn lemma_body_and_rest(message_index: u32, cmd: u16, json: Seq<u8>, rest: Seq<u8>)
    ensures
        frame_bytes(message_index, cmd, json).len() == HEADER_LEN + json.len(),
        (frame_bytes(message_index, cmd, json) + rest).subrange(
            HEADER_LEN as int,
            HEADER_LEN + json.len(),
        ) == json,
        (frame_bytes(message_index, cmd, json) + rest).skip((HEADER_LEN + json.len()) as int)
            == rest,
{
    let buf = frame_bytes(message_index, cmd, json) + rest;
    assert(buf.subrange(HEADER_LEN as int, HEADER_LEN + json.len()) =~= json);
    assert(buf.skip((HEADER_LEN + json.len()) as int) =~= rest);
}

/// Four big-endian bytes read back as the number they were written for.
pub proof fn law_be32_round_trip(n: u32)
    ensures
        be32_value(be32_bytes(n)) == n,
{
    assert(n == (n / 0x100_0000) * 0x100_0000 + (n / 0x1_0000 % 0x100) * 0x1_0000 + (n / 0x100
        % 0x100) * 0x100 + n % 0x100);
}

/// Two big-endian bytes read back as the number they were written for.
pub proof fn law_be16_round_trip(n: u16)
    ensures
        be16_value(be16_bytes(n)) == n,
{
}

/// Decoding inverts encoding: a frame written for `message_index`, `cmd` and
/// a JSON text reads back, whatever bytes follow it, as a packet with the
/// same index and command, with the body that the text carries, and takes
/// exactly the bytes that were written. It fails to read back only where the
/// text is not JSON.
pub proof fn law_parse_inverts_encode(message_index: u32, cmd: u16, json: Seq<u8>, rest: Seq<u8>)
    requires
        HEADER_LEN + json.len() <= u32::MAX,
    ensures
        front_packet(frame_bytes(message_index, cmd, json) + rest) == match body_value(json) {
            Some(body) => Some(
                (
                    WPacket { message_index, cmd, body },
                    frame_bytes(message_index, cmd, json).len(),
                ),
            ),
            None => None,
        },
{
    lemma_size_field(message_index, cmd, json, rest);
    lemma_magic_field(message_index, cmd, json, rest);
    lemma_index_field(message_index, cmd, json, rest);
    lemma_cmd_field(message_index, cmd, json, rest);
    lemma_body_and_rest(message_index, cmd, json, rest);
}

/// A frame that carries the value `body` reads back as that same value
/// exactly where the JSON text of `body` does.
proof fn lemma_sent_packet_comes_back(message_index: u32, cmd: u16, body: Value)
    requires
        json_text(body).len() > 0,
        plain(body) ==> json_value(json_text(body)) == Some(body),
    ensures
        sent_packet_comes_back(
            frame_bytes(message_index, cmd, json_text(body)),
            message_index,
            cmd,
            body,
        ),
{
    let json = json_text(body);
    let frame = frame_bytes(message_index, cmd, json);
    lemma_body_and_rest(message_index, cmd, json, Seq::empty());
    if frame.len() <= u32::MAX {
        law_parse_inverts_encode(message_index, cmd, json, Seq::empty());
        assert(frame + Seq::<u8>::empty() =~= frame);
    }
}

/// Concatenated frames decode one by one: a written frame in front adds one
/// packet to what the rest decodes to.
pub proof fn law_concatenated_frames_decode_in_order(
    message_index: u32,
    cmd: u16,
    json: Seq<u8>,
    rest: Seq<u8>,
)
    requires
        HEADER_LEN + json.len() <= u32::MAX,
    ensures
        body_value(json) matches Some(body) ==> all_packets(
            frame_bytes(message_index, cmd, json) + rest,
        ) == seq![WPacket { message_index, cmd, body }] + all_packets(rest),
{
    lemma_body_and_rest(message_index, cmd, json, rest);
    law_parse_inverts_encode(message_index, cmd, json, rest);
}

/// A decoded packet takes at least its header and never more than the buffer
/// holds, and the bytes behind it do not change how it decodes.
pub proof fn law_packet_is_decided_by_its_own_bytes(buf: Seq<u8>, rest: Seq<u8>)
    ensures
        front_packet(buf) matches Some((packet, size)) ==> {
            &&& HEADER_LEN <= size <= buf.len()
            &&& front_packet(buf + rest) == Some((packet, size))
            &&& front_packet(buf.take(size as int)) == Some((packet, size))
        },
{
    if let Some((packet, size)) = front_packet(buf) {
        let long = buf + rest;
        let short = buf.take(size as int);
        assert(long.subrange(0, 4) =~= buf.subrange(0, 4));
        assert(long.subrange(4, 8) =~= buf.subrange(4, 8));
        assert(long.subrange(8, 12) =~= buf.subrange(8, 12));
        assert(long.subrange(12, 14) =~= buf.subrange(12, 14));
        assert(long.subrange(HEADER_LEN as int, size as int) =~= buf.subrange(
            HEADER_LEN as int,
            size as int,
        ));
        assert(short.subrange(0, 4) =~= buf.subrange(0, 4));
        assert(short.subrange(4, 8) =~= buf.subrange(4, 8));
        assert(short.subrange(8, 12) =~= buf.subrange(8, 12));
        assert(short.subrange(12, 14) =~= buf.subrange(12, 14));
        assert(short.subrange(HEADER_LEN as int, size as int) =~= buf.subrange(
            HEADER_LEN as int,
            size as int,
        ));
    }
}

/// The wire frame around a body that is already JSON text.
pub fn encode_text(message_index: u32, cmd: u16, json: &[u8]) -> (r: Vec<u8>)
    ensures
        r@ == frame_bytes(message_index, cmd, json@),
{
    let packet_size: u32 = size_field(json.len());
    let mut v: Vec<u8> = Vec::new();
    push_be32(&mut v, packet_size);
    push_magic(&mut v);
    push_be32(&mut v, message_index);
    push_be16(&mut v, cmd);
    push_flag(&mut v, json.len() != 0);
    push_bytes(&mut v, json);
    assert(Seq::<u8>::empty() + be32_bytes(packet_size) =~= be32_bytes(packet_size));
    v
}

/// A written frame, byte by byte: the size of the whole, the four fixed bytes,
/// the index and the command, each with its most significant byte first, the
/// body flag, and then the body.
pub proof fn law_frame_byte_by_byte(message_index: u32, cmd: u16, json: Seq<u8>, k: int)
    ensures
        ({
            let f = frame_bytes(message_index, cmd, json);
            &&& f.len() == 15 + json.len()
            &&& f[0] * 16777216 + f[1] * 65536 + f[2] * 256 + f[3] == (15 + json.len())
                % 4294967296
            &&& f[4] == 0 && f[5] == 15 && f[6] == 0 && f[7] == 1
            &&& f[8] * 16777216 + f[9] * 65536 + f[10] * 256 + f[11] == message_index
            &&& f[12] * 256 + f[13] == cmd
            &&& f[14] == 1 <==> json.len() > 0
            &&& f[14] == 0 <==> json.len() == 0
            &&& 0 <= k < json.len() ==> f[15 + k] == json[k]
        }),
{
    let f = frame_bytes(message_index, cmd, json);
    let size = ((HEADER_LEN + json.len()) % 0x1_0000_0000) as u32;
    let s = be32_bytes(size);
    let i = be32_bytes(message_index);
    let c = be16_bytes(cmd);
    assert(f[0] == s[0] && f[1] == s[1] && f[2] == s[2] && f[3] == s[3]);
    assert(f[8] == i[0] && f[9] == i[1] && f[10] == i[2] && f[11] == i[3]);
    assert(f[12] == c[0] && f[13] == c[1]);
    law_be32_round_trip(size);
    law_be32_round_trip(message_index);
    law_be16_round_trip(cmd);
}

/// What a buffer holds at its front, read byte by byte. There is a packet
/// exactly where the header is whole, the four fixed bytes are in place, the
/// announced size covers the header and lies inside the buffer, and the body
/// is JSON (an empty one stands for `null`). Its index, its command and its
/// size are the numbers in the header, most significant byte first.
pub proof fn law_packet_is_read_byte_by_byte(buf: Seq<u8>)
    ensures
        ({
            let size = buf[0] * 16777216 + buf[1] * 65536 + buf[2] * 256 + buf[3];
            let body = if size == 15 {
                json_value(seq![110u8, 117u8, 108u8, 108u8])
            } else {
                json_value(buf.subrange(15, size))
            };
            &&& front_packet(buf) is Some <==> {
                &&& buf.len() >= 15
                &&& buf[4] == 0 && buf[5] == 15 && buf[6] == 0 && buf[7] == 1
                &&& 15 <= size <= buf.len()
                &&& body is Some
            }
            &&& front_packet(buf) matches Some((packet, taken)) ==> {
                &&& taken == size
                &&& packet.message_index == buf[8] * 16777216 + buf[9] * 65536 + buf[10] * 256
                    + buf[11]
                &&& packet.cmd == buf[12] * 256 + buf[13]
                &&& body == Some(packet.body)
            }
        }),
{
    if buf.len() >= 15 {
        let m = buf.subrange(4, 8);
        assert(m[0] == buf[4] && m[1] == buf[5] && m[2] == buf[6] && m[3] == buf[7]);
        if buf[4] == 0 && buf[5] == 15 && buf[6] == 0 && buf[7] == 1 {
            assert(m =~= magic());
        }
        let s = buf.subrange(0, 4);
        assert(s[0] == buf[0] && s[1] == buf[1] && s[2] == buf[2] && s[3] == buf[3]);
        let i = buf.subrange(8, 12);
        assert(i[0] == buf[8] && i[1] == buf[9] && i[2] == buf[10] && i[3] == buf[11]);
        let c = buf.subrange(12, 14);
        assert(c[0] == buf[12] && c[1] == buf[13]);
    }
}

/// A frame is read packet by packet from the front: what decodes first comes
/// first, the bytes behind it are read next, and the first failure ends it.
pub proof fn law_frame_is_read_from_the_front(buf: Seq<u8>)
    ensures
        match front_packet(buf) {
            Some((packet, size)) => {
                &&& all_packets(buf).len() == 1 + all_packets(buf.skip(size as int)).len()
                &&& all_packets(buf)[0] == packet
                &&& all_packets(buf).skip(1) == all_packets(buf.skip(size as int))
            },
            None => all_packets(buf).len() == 0,
        },
{
    if let Some((packet, size)) = front_packet(buf) {
        law_packet_is_decided_by_its_own_bytes(buf, Seq::empty());
        let rest = all_packets(buf.skip(size as int));
        assert((seq![packet] + rest).skip(1) =~= rest);
    }
}

/// The label is the string under `cmd` in the body, whatever the binary
/// command, where there is one. Without it the handshake is called `auth` and
/// every other packet `cmd#` and the number of its command, so that two of
/// them share a label only if they share a command.
pub proof fn law_label_names_the_command(name: Seq<char>, cmd: u16, other: u16, body: Value)
    ensures
        label_text(Some(name), cmd) == name,
        label_text(None, 1) == seq!['a', 'u', 't', 'h'],
        cmd != 1 ==> {
            let label = label_text(None, cmd);
            &&& label.len() > 4
            &&& label.take(4) == seq!['c', 'm', 'd', '#']
            &&& label.skip(4) == text::decimal(cmd as nat)
            &&& text::digits_value(label.skip(4)) == cmd
        },
        label_text(None, cmd) == label_text(None, other) <==> cmd == other,
        cmd_member(body) == match json_member(body, seq!['c', 'm', 'd']) {
            Some(member) => json_str(member),
            None => None,
        },
{
    reveal_strlit("auth");
    reveal_strlit("cmd#");
    reveal_strlit("cmd");
    assert("cmd"@ =~= seq!['c', 'm', 'd']);
    assert("auth"@ =~= seq!['a', 'u', 't', 'h']);
    assert("cmd#"@ =~= seq!['c', 'm', 'd', '#']);
    text::law_decimal_reads_back(cmd as nat);
    text::law_decimal_reads_back(other as nat);
    let mine = label_text(None, cmd);
    let theirs = label_text(None, other);
    if cmd != 1 {
        assert(mine.take(4) =~= "cmd#"@);
        assert(mine.skip(4) =~= text::decimal(cmd as nat));
        assert(mine[0] == 'c');
    }
    if other != 1 {
        assert(theirs.skip(4) =~= text::decimal(other as nat));
        assert(theirs[0] == 'c');
    }
    assert("auth"@[0] == 'a');
}

/// Which bodies are plain: a value that is neither a number with a fraction
/// nor a container always is, a floating-point number never, and a container
/// exactly where it has a level left and all that it holds is plain in the
/// levels below. A hundred and twenty-seven levels are there.
pub proof fn law_plain_bodies(value: Value, depth: nat)
    ensures
        plain(value) == plain_within(value, 127),
        json_is_float(value) ==> !plain_within(value, depth),
        !json_is_float(value) && json_items(value) is None && json_fields(value) is None
            ==> plain_within(value, depth),
        !json_is_float(value) && json_items(value) is Some && json_fields(value) is None ==> (
        plain_within(value, depth) <==> depth > 0 && forall|i: int|
            0 <= i < json_items(value)->0.len() ==> plain_within(
                #[trigger] json_items(value)->0[i],
                (depth - 1) as nat,
            )),
        !json_is_float(value) && json_items(value) is None && json_fields(value) is Some ==> (
        plain_within(value, depth) <==> depth > 0 && forall|i: int|
            0 <= i < json_fields(value)->0.len() ==> plain_within(
                #[trigger] json_fields(value)->0[i],
                (depth - 1) as nat,
            )),
{
    reveal_with_fuel(plain_within, 2);
    reveal_with_fuel(all_plain, 2);
}

} // verus!
