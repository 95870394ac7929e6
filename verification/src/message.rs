//! Binary control-channel protocol for remote input events.
//!
//! One message per data-channel packet: the first byte is a message-type
//! tag, the remaining bytes are a fixed little-endian payload whose shape
//! depends on the tag, except for the two text messages whose payload is
//! UTF-8. Mouse positions are carried in a normalized integer space
//! `0..65536` and rescaled by the receiver. An unknown tag or truncated
//! payload is a decode error: the message is dropped, the channel stays
//! open.

use vstd::prelude::*;
use vstd::slice::{slice_index_get, slice_subrange, slice_to_vec};
use vstd::utf8::{decode_utf8, encode_utf8, valid_utf8};

verus! {

/// A free-text UI interaction sent by the remote viewer.
#[derive(Clone, Debug, PartialEq)]
pub struct UiInteraction {
    pub message: String,
}

/// A console-style command string sent by the remote viewer.
#[derive(Clone, Debug, PartialEq)]
pub struct Command {
    pub command: String,
}

/// A key was pressed; `is_repeat` is 1 for auto-repeat.
#[derive(Clone, Copy, Debug, PartialEq, Eq, Structural)]
pub struct KeyDown {
    pub key_code: u8,
    pub is_repeat: u8,
}

/// A key was released.
#[derive(Clone, Copy, Debug, PartialEq, Eq, Structural)]
pub struct KeyUp {
    pub key_code: u8,
}

/// A character was produced.
#[derive(Clone, Copy, Debug, PartialEq, Eq, Structural)]
pub struct KeyPress {
    pub char_code: u16,
}

/// The pointer moved: absolute position in the normalized `0..65536` space
/// and a signed delta in the same space.
#[derive(Clone, Copy, Debug, PartialEq, Eq, Structural)]
pub struct MouseMove {
    pub x: u16,
    pub y: u16,
    pub delta_x: i16,
    pub delta_y: i16,
}

/// A mouse button was pressed at the given normalized position.
#[derive(Clone, Copy, Debug, PartialEq, Eq, Structural)]
pub struct MouseDown {
    pub button: u8,
    pub x: u16,
    pub y: u16,
}

/// A mouse button was released at the given normalized position.
#[derive(Clone, Copy, Debug, PartialEq, Eq, Structural)]
pub struct MouseUp {
    pub button: u8,
    pub x: u16,
    pub y: u16,
}

/// The wheel turned by `delta` at the given normalized position.
#[derive(Clone, Copy, Debug, PartialEq, Eq, Structural)]
pub struct MouseWheel {
    pub delta: i16,
    pub x: u16,
    pub y: u16,
}

/// A mouse button was double-clicked at the given normalized position.
#[derive(Clone, Copy, Debug, PartialEq, Eq, Structural)]
pub struct MouseDouble {
    pub button: u8,
    pub x: u16,
    pub y: u16,
}

/// One decoded control-channel message.
#[derive(Clone, Debug, PartialEq)]
pub enum UeMessage {
    UiInteraction(UiInteraction),
    Command(Command),
    KeyDown(KeyDown),
    KeyUp(KeyUp),
    KeyPress(KeyPress),
    MouseEnter,
    MouseLeave,
    MouseDown(MouseDown),
    MouseUp(MouseUp),
    MouseMove(MouseMove),
    MouseWheel(MouseWheel),
    MouseDouble(MouseDouble),
}

/// Why a buffer failed to decode. The offending message is dropped and
/// reported; it never poisons the channel.
#[derive(Clone, Copy, Debug, PartialEq, Eq, Structural)]
pub enum DecodeError {
    /// The buffer was empty: not even a tag byte.
    Empty,
    /// The tag byte names no known message type.
    UnknownTag { tag: u8 },
    /// The payload is shorter than the tag's fixed layout requires.
    Truncated,
    /// A text payload was not valid UTF-8.
    InvalidText,
}

/// The little-endian 16-bit value held by two payload bytes.
pub open spec fn spec_u16_le(b0: u8, b1: u8) -> u16 {
    (b0 + 256 * b1) as u16
}

/// Low byte of the little-endian encoding of `v`.
pub open spec fn spec_lo(v: u16) -> u8 {
    (v % 256) as u8
}

/// High byte of the little-endian encoding of `v`.
pub open spec fn spec_hi(v: u16) -> u8 {
    (v / 256) as u8
}

/// The two-byte little-endian encoding of `v`.
pub open spec fn spec_le16(v: u16) -> Seq<u8> {
    seq![spec_lo(v), spec_hi(v)]
}

/// The unsigned 16-bit value that carries `v` on the wire (two's
/// complement).
pub open spec fn spec_i16_to_u16(v: i16) -> u16 {
    if v >= 0 {
        v as u16
    } else {
        (v + 0x10000) as u16
    }
}

/// The signed value carried by the unsigned wire value `w` (two's
/// complement).
pub open spec fn spec_u16_to_i16(w: u16) -> i16 {
    if w < 0x8000 {
        w as i16
    } else {
        (w - 0x10000) as i16
    }
}

/// Reads the little-endian 16-bit value at offset `i` of `b`.
pub open spec fn spec_read_u16(b: Seq<u8>, i: int) -> u16 {
    spec_u16_le(b[i], b[i + 1])
}

/// Reads the little-endian signed 16-bit value at offset `i` of `b`.
pub open spec fn spec_read_i16(b: Seq<u8>, i: int) -> i16 {
    spec_u16_to_i16(spec_read_u16(b, i))
}

/// Whether `tag` names a message type of the protocol.
pub open spec fn spec_known_tag(tag: u8) -> bool {
    tag == 50 || tag == 51 || tag == 60 || tag == 61 || tag == 62 || tag == 70 || tag == 71
        || tag == 72 || tag == 73 || tag == 74 || tag == 75 || tag == 76
}

/// The payload bytes that `tag`'s fixed layout requires (text tags 50 and 51
/// take any number of bytes and are not covered here).
pub open spec fn spec_payload_len(tag: u8) -> int {
    if tag == 60 {
        2
    } else if tag == 61 {
        1
    } else if tag == 62 {
        2
    } else if tag == 70 || tag == 71 {
        0
    } else if tag == 72 || tag == 73 || tag == 76 {
        5
    } else if tag == 74 {
        8
    } else if tag == 75 {
        6
    } else {
        0
    }
}

/// The decode error that buffer `b` produces, or `None` when `b` decodes.
pub open spec fn spec_decode_err(b: Seq<u8>) -> Option<DecodeError> {
    if b.len() == 0 {
        Some(DecodeError::Empty)
    } else {
        let tag = b[0];
        if !spec_known_tag(tag) {
            Some(DecodeError::UnknownTag { tag })
        } else if tag == 50 || tag == 51 {
            if valid_utf8(b.skip(1)) {
                None
            } else {
                Some(DecodeError::InvalidText)
            }
        } else if b.len() - 1 < spec_payload_len(tag) {
            Some(DecodeError::Truncated)
        } else {
            None
        }
    }
}

/// What a successful decode of buffer `b` yields: each field read from its
/// fixed offset, trailing bytes beyond a fixed layout ignored, text payloads
/// pinned by their character sequence.
pub open spec fn decode_ok(b: Seq<u8>, m: UeMessage) -> bool {
    &&& b.len() >= 1
    &&& {
        let tag = b[0];
        if tag == 50 {
            m matches UeMessage::UiInteraction(u) && u.message@ == decode_utf8(b.skip(1))
        } else if tag == 51 {
            m matches UeMessage::Command(c) && c.command@ == decode_utf8(b.skip(1))
        } else if tag == 60 {
            m == UeMessage::KeyDown(KeyDown { key_code: b[1], is_repeat: b[2] })
        } else if tag == 61 {
            m == UeMessage::KeyUp(KeyUp { key_code: b[1] })
        } else if tag == 62 {
            m == UeMessage::KeyPress(KeyPress { char_code: spec_read_u16(b, 1) })
        } else if tag == 70 {
            m == UeMessage::MouseEnter
        } else if tag == 71 {
            m == UeMessage::MouseLeave
        } else if tag == 72 {
            m == UeMessage::MouseDown(
                MouseDown { button: b[1], x: spec_read_u16(b, 2), y: spec_read_u16(b, 4) },
            )
        } else if tag == 73 {
            m == UeMessage::MouseUp(
                MouseUp { button: b[1], x: spec_read_u16(b, 2), y: spec_read_u16(b, 4) },
            )
        } else if tag == 74 {
            m == UeMessage::MouseMove(
                MouseMove {
                    x: spec_read_u16(b, 1),
                    y: spec_read_u16(b, 3),
                    delta_x: spec_read_i16(b, 5),
                    delta_y: spec_read_i16(b, 7),
                },
            )
        } else if tag == 75 {
            m == UeMessage::MouseWheel(
                MouseWheel {
                    delta: spec_read_i16(b, 1),
                    x: spec_read_u16(b, 3),
                    y: spec_read_u16(b, 5),
                },
            )
        } else if tag == 76 {
            m == UeMessage::MouseDouble(
                MouseDouble { button: b[1], x: spec_read_u16(b, 2), y: spec_read_u16(b, 4) },
            )
        } else {
            false
        }
    }
}

/// The wire form of message `m`: its tag byte followed by its payload.
pub open spec fn spec_encode(m: UeMessage) -> Seq<u8> {
    match m {
        UeMessage::UiInteraction(u) => seq![50u8] + encode_utf8(u.message@),
        UeMessage::Command(c) => seq![51u8] + encode_utf8(c.command@),
        UeMessage::KeyDown(k) => seq![60u8, k.key_code, k.is_repeat],
        UeMessage::KeyUp(k) => seq![61u8, k.key_code],
        UeMessage::KeyPress(k) => seq![62u8] + spec_le16(k.char_code),
        UeMessage::MouseEnter => seq![70u8],
        UeMessage::MouseLeave => seq![71u8],
        UeMessage::MouseDown(e) => seq![72u8, e.button] + spec_le16(e.x) + spec_le16(e.y),
        UeMessage::MouseUp(e) => seq![73u8, e.button] + spec_le16(e.x) + spec_le16(e.y),
        UeMessage::MouseMove(e) => seq![74u8] + spec_le16(e.x) + spec_le16(e.y) + spec_le16(
            spec_i16_to_u16(e.delta_x),
        ) + spec_le16(spec_i16_to_u16(e.delta_y)),
        UeMessage::MouseWheel(e) => seq![75u8] + spec_le16(spec_i16_to_u16(e.delta)) + spec_le16(
            e.x,
        ) + spec_le16(e.y),
        UeMessage::MouseDouble(e) => seq![76u8, e.button] + spec_le16(e.x) + spec_le16(e.y),
    }
}

/// Message equality up to string representation: fixed payloads compared by
/// value, text payloads by their character sequences.
pub open spec fn msg_eq(a: UeMessage, b: UeMessage) -> bool {
    match (a, b) {
        (UeMessage::UiInteraction(x), UeMessage::UiInteraction(y)) => x.message@ == y.message@,
        (UeMessage::Command(x), UeMessage::Command(y)) => x.command@ == y.command@,
        _ => a == b,
    }
}

/// Relies on std's `String::from_utf8`: it returns the string whose UTF-8
/// encoding is exactly the given bytes, and fails exactly when the bytes are
/// not valid UTF-8.
#[verifier::external_body]
fn string_from_utf8(bytes: Vec<u8>) -> (r: Option<String>)
    ensures
        match r {
            Some(s) => valid_utf8(bytes@) && s@ == decode_utf8(bytes@),
            None => !valid_utf8(bytes@),
        },
{
    match String::from_utf8(bytes) {
        Ok(s) => Some(s),
        Err(_) => None,
    }
}

fn read_u16_le(bytes: &[u8], i: usize) -> (r: u16)
    requires
        i + 2 <= bytes@.len() <= usize::MAX,
    ensures
        r == spec_read_u16(bytes@, i as int),
{
    let b0 = *slice_index_get(bytes, i);
    let b1 = *slice_index_get(bytes, i + 1);
    (b0 as u16) + 256 * (b1 as u16)
}

fn read_i16_le(bytes: &[u8], i: usize) -> (r: i16)
    requires
        i + 2 <= bytes@.len() <= usize::MAX,
    ensures
        r == spec_read_i16(bytes@, i as int),
{
    let w = read_u16_le(bytes, i);
    if w < 0x8000 {
        w as i16
    } else {
        ((w as i32) - 0x10000) as i16
    }
}

/// Decodes one control-channel packet. Returns the message exactly as
/// `decode_ok` describes, or the error that `spec_decode_err` assigns to the
/// buffer: empty input, an unknown tag, a payload shorter than its tag's
/// layout, or ill-formed text.
pub fn decode(bytes: &[u8]) -> (r: Result<UeMessage, DecodeError>)
    ensures
        match r {
            Ok(m) => spec_decode_err(bytes@) is None && decode_ok(bytes@, m),
            Err(e) => spec_decode_err(bytes@) == Some(e),
        },
{
    let n = bytes.len();
    if n == 0 {
        return Err(DecodeError::Empty);
    }
    let tag = *slice_index_get(bytes, 0);
    match tag {
        50 => {
            let payload = slice_to_vec(slice_subrange(bytes, 1, n));
            proof {
                assert(payload@ == bytes@.skip(1));
            }
            match string_from_utf8(payload) {
                Some(message) => Ok(UeMessage::UiInteraction(UiInteraction { message })),
                None => Err(DecodeError::InvalidText),
            }
        },
        51 => {
            let payload = slice_to_vec(slice_subrange(bytes, 1, n));
            proof {
                assert(payload@ == bytes@.skip(1));
            }
            match string_from_utf8(payload) {
                Some(command) => Ok(UeMessage::Command(Command { command })),
                None => Err(DecodeError::InvalidText),
            }
        },
        60 => {
            if n < 3 {
                return Err(DecodeError::Truncated);
            }
            Ok(
                UeMessage::KeyDown(
                    KeyDown {
                        key_code: *slice_index_get(bytes, 1),
                        is_repeat: *slice_index_get(bytes, 2),
                    },
                ),
            )
        },
        61 => {
            if n < 2 {
                return Err(DecodeError::Truncated);
            }
            Ok(UeMessage::KeyUp(KeyUp { key_code: *slice_index_get(bytes, 1) }))
        },
        62 => {
            if n < 3 {
                return Err(DecodeError::Truncated);
            }
            Ok(UeMessage::KeyPress(KeyPress { char_code: read_u16_le(bytes, 1) }))
        },
        70 => Ok(UeMessage::MouseEnter),
        71 => Ok(UeMessage::MouseLeave),
        72 => {
            if n < 6 {
                return Err(DecodeError::Truncated);
            }
            Ok(
                UeMessage::MouseDown(
                    MouseDown {
                        button: *slice_index_get(bytes, 1),
                        x: read_u16_le(bytes, 2),
                        y: read_u16_le(bytes, 4),
                    },
                ),
            )
        },
        73 => {
            if n < 6 {
                return Err(DecodeError::Truncated);
            }
            Ok(
                UeMessage::MouseUp(
                    MouseUp {
                        button: *slice_index_get(bytes, 1),
                        x: read_u16_le(bytes, 2),
                        y: read_u16_le(bytes, 4),
                    },
                ),
            )
        },
        74 => {
            if n < 9 {
                return Err(DecodeError::Truncated);
            }
            Ok(
                UeMessage::MouseMove(
                    MouseMove {
                        x: read_u16_le(bytes, 1),
                        y: read_u16_le(bytes, 3),
                        delta_x: read_i16_le(bytes, 5),
                        delta_y: read_i16_le(bytes, 7),
                    },
                ),
            )
        },
        75 => {
            if n < 7 {
                return Err(DecodeError::Truncated);
            }
            Ok(
                UeMessage::MouseWheel(
                    MouseWheel {
                        delta: read_i16_le(bytes, 1),
                        x: read_u16_le(bytes, 3),
                        y: read_u16_le(bytes, 5),
                    },
                ),
            )
        },
        76 => {
            if n < 6 {
                return Err(DecodeError::Truncated);
            }
            Ok(
                UeMessage::MouseDouble(
                    MouseDouble {
                        button: *slice_index_get(bytes, 1),
                        x: read_u16_le(bytes, 2),
                        y: read_u16_le(bytes, 4),
                    },
                ),
            )
        },
        _ => Err(DecodeError::UnknownTag { tag }),
    }
}

fn push_u16_le(out: &mut Vec<u8>, v: u16)
    ensures
        final(out)@ == old(out)@ + spec_le16(v),
{
    out.push((v % 256) as u8);
    out.push((v / 256) as u8);
    proof {
        assert(final(out)@ =~= old(out)@ + spec_le16(v));
    }
}

fn push_i16_le(out: &mut Vec<u8>, v: i16)
    ensures
        final(out)@ == old(out)@ + spec_le16(spec_i16_to_u16(v)),
{
    let w: u16 = if v >= 0 {
        v as u16
    } else {
        ((v as i32) + 0x10000) as u16
    };
    push_u16_le(out, w);
}

/// Encodes message `m` into its wire form: the tag byte followed by the
/// fixed little-endian payload, or the UTF-8 bytes of a text payload.
pub fn encode(m: &UeMessage) -> (r: Vec<u8>)
    ensures
        r@ == spec_encode(*m),
{
    let mut out: Vec<u8> = Vec::new();
    match m {
        UeMessage::UiInteraction(u) => {
            out.push(50);
            let mut body = u.message.as_str().as_bytes_vec();
            out.append(&mut body);
        },
        UeMessage::Command(c) => {
            out.push(51);
            let mut body = c.command.as_str().as_bytes_vec();
            out.append(&mut body);
        },
        UeMessage::KeyDown(k) => {
            out.push(60);
            out.push(k.key_code);
            out.push(k.is_repeat);
        },
        UeMessage::KeyUp(k) => {
            out.push(61);
            out.push(k.key_code);
        },
        UeMessage::KeyPress(k) => {
            out.push(62);
            push_u16_le(&mut out, k.char_code);
        },
        UeMessage::MouseEnter => {
            out.push(70);
        },
        UeMessage::MouseLeave => {
            out.push(71);
        },
        UeMessage::MouseDown(e) => {
            out.push(72);
            out.push(e.button);
            push_u16_le(&mut out, e.x);
            push_u16_le(&mut out, e.y);
        },
        UeMessage::MouseUp(e) => {
            out.push(73);
            out.push(e.button);
            push_u16_le(&mut out, e.x);
            push_u16_le(&mut out, e.y);
        },
        UeMessage::MouseMove(e) => {
            out.push(74);
            push_u16_le(&mut out, e.x);
            push_u16_le(&mut out, e.y);
            push_i16_le(&mut out, e.delta_x);
            push_i16_le(&mut out, e.delta_y);
        },
        UeMessage::MouseWheel(e) => {
            out.push(75);
            push_i16_le(&mut out, e.delta);
            push_u16_le(&mut out, e.x);
            push_u16_le(&mut out, e.y);
        },
        UeMessage::MouseDouble(e) => {
            out.push(76);
            out.push(e.button);
            push_u16_le(&mut out, e.x);
            push_u16_le(&mut out, e.y);
        },
    }
    proof {
        assert(out@ =~= spec_encode(*m));
    }
    out
}

proof fn lemma_le16_round_trip(v: u16)
    ensures
        spec_u16_le(spec_lo(v), spec_hi(v)) == v,
{
    assert(v % 256 + 256 * (v / 256) == v) by (nonlinear_arith);
}

proof fn lemma_i16_round_trip(v: i16)
    ensures
        spec_u16_to_i16(spec_i16_to_u16(v)) == v,
{
}

/// Law: the wire form of every control message decodes, and decodes back to
/// that very message — every field reconstructed, text payloads recovered
/// character for character.
pub proof fn lemma_encode_decode_round_trip(m: UeMessage, m2: UeMessage)
    requires
        decode_ok(spec_encode(m), m2),
    ensures
        msg_eq(m2, m),
{
    broadcast use vstd::utf8::encode_utf8_valid_utf8;
    broadcast use vstd::utf8::encode_utf8_decode_utf8;

    let b = spec_encode(m);
    match m {
        UeMessage::UiInteraction(u) => {
            assert(b.skip(1) =~= encode_utf8(u.message@));
        },
        UeMessage::Command(c) => {
            assert(b.skip(1) =~= encode_utf8(c.command@));
        },
        UeMessage::KeyDown(k) => {},
        UeMessage::KeyUp(k) => {},
        UeMessage::KeyPress(k) => {
            assert(b =~= seq![62u8, spec_lo(k.char_code), spec_hi(k.char_code)]);
            lemma_le16_round_trip(k.char_code);
        },
        UeMessage::MouseEnter => {},
        UeMessage::MouseLeave => {},
        UeMessage::MouseDown(e) => {
            assert(b =~= seq![
                72u8,
                e.button,
                spec_lo(e.x),
                spec_hi(e.x),
                spec_lo(e.y),
                spec_hi(e.y),
            ]);
            lemma_le16_round_trip(e.x);
            lemma_le16_round_trip(e.y);
        },
        UeMessage::MouseUp(e) => {
            assert(b =~= seq![
                73u8,
                e.button,
                spec_lo(e.x),
                spec_hi(e.x),
                spec_lo(e.y),
                spec_hi(e.y),
            ]);
            lemma_le16_round_trip(e.x);
            lemma_le16_round_trip(e.y);
        },
        UeMessage::MouseMove(e) => {
            let wx = spec_i16_to_u16(e.delta_x);
            let wy = spec_i16_to_u16(e.delta_y);
            assert(b =~= seq![
                74u8,
                spec_lo(e.x),
                spec_hi(e.x),
                spec_lo(e.y),
                spec_hi(e.y),
                spec_lo(wx),
                spec_hi(wx),
                spec_lo(wy),
                spec_hi(wy),
            ]);
            lemma_le16_round_trip(e.x);
            lemma_le16_round_trip(e.y);
            lemma_le16_round_trip(wx);
            lemma_le16_round_trip(wy);
            lemma_i16_round_trip(e.delta_x);
            lemma_i16_round_trip(e.delta_y);
        },
        UeMessage::MouseWheel(e) => {
            let wd = spec_i16_to_u16(e.delta);
            assert(b =~= seq![
                75u8,
                spec_lo(wd),
                spec_hi(wd),
                spec_lo(e.x),
                spec_hi(e.x),
                spec_lo(e.y),
                spec_hi(e.y),
            ]);
            lemma_le16_round_trip(wd);
            lemma_le16_round_trip(e.x);
            lemma_le16_round_trip(e.y);
            lemma_i16_round_trip(e.delta);
        },
        UeMessage::MouseDouble(e) => {
            assert(b =~= seq![
                76u8,
                e.button,
                spec_lo(e.x),
                spec_hi(e.x),
                spec_lo(e.y),
                spec_hi(e.y),
            ]);
            lemma_le16_round_trip(e.x);
            lemma_le16_round_trip(e.y);
        },
    }
}

/// Law: encoding never produces a buffer the decoder rejects.
pub proof fn lemma_encode_always_decodes(m: UeMessage)
    ensures
        spec_decode_err(spec_encode(m)) is None,
{
    broadcast use vstd::utf8::encode_utf8_valid_utf8;

    let b = spec_encode(m);
    match m {
        UeMessage::UiInteraction(u) => {
            assert(b.skip(1) =~= encode_utf8(u.message@));
        },
        UeMessage::Command(c) => {
            assert(b.skip(1) =~= encode_utf8(c.command@));
        },
        _ => {},
    }
}

} // verus!
