//! The byte layout of everything that crosses a connection.
//!
//! A message on the wire is a four-byte big-endian length followed by that
//! many bytes of payload. In relay mode the payload is a bare sealed frame;
//! in direct mode it is an envelope of message id, message type and sealed
//! frame. Integers inside a payload are little-endian and of fixed width;
//! byte strings and text carry a 64-bit length in front.

use vstd::prelude::*;
use crate::crypto::FrameView;

verus! {

/// Bytes a sealed frame occupies besides its ciphertext: the nonce, the
/// ciphertext length and the timestamp.
pub const FRAME_OVERHEAD: usize = 28;

/// Bytes an envelope adds to a frame besides the message id: the id length
/// and the type tag.
pub const ENVELOPE_OVERHEAD: usize = 12;

/// Width of the length prefix.
pub const PREFIX_LEN: usize = 4;

// ---------------------------------------------------------------------------
// Integers as bytes
// ---------------------------------------------------------------------------

/// The little-endian encoding of `x` in `width` bytes.
pub open spec fn le_bytes(x: nat, width: nat) -> Seq<u8>
    decreases width,
{
    if width == 0 {
        Seq::empty()
    } else {
        seq![(x % 256) as u8] + le_bytes(x / 256, (width - 1) as nat)
    }
}

/// The number a little-endian byte string stands for.
pub open spec fn le_value(bytes: Seq<u8>) -> nat
    decreases bytes.len(),
{
    if bytes.len() == 0 {
        0
    } else {
        bytes[0] as nat + 256 * le_value(bytes.drop_first())
    }
}

/// Two to the power `8 * width`.
pub open spec fn byte_range(width: nat) -> nat
    decreases width,
{
    if width == 0 {
        1
    } else {
        256 * byte_range((width - 1) as nat)
    }
}

/// Little-endian encoding has the width asked for.
pub proof fn lemma_le_bytes_len(x: nat, width: nat)
    ensures
        le_bytes(x, width).len() == width,
    decreases width,
{
    if width > 0 {
        lemma_le_bytes_len(x / 256, (width - 1) as nat);
    }
}

/// Decoding undoes encoding for every number the width can hold.
pub proof fn lemma_le_round_trip(x: nat, width: nat)
    requires
        x < byte_range(width),
    ensures
        le_value(le_bytes(x, width)) == x,
    decreases width,
{
    if width > 0 {
        let rest = le_bytes(x / 256, (width - 1) as nat);
        let all = le_bytes(x, width);
        assert(all.drop_first() =~= rest);
        assert(x / 256 < byte_range((width - 1) as nat)) by (nonlinear_arith)
            requires
                x < 256 * byte_range((width - 1) as nat),
        ;
        lemma_le_round_trip(x / 256, (width - 1) as nat);
        assert(all[0] == (x % 256) as u8);
    }
}

/// The ranges of the two widths the format uses.
pub proof fn lemma_byte_ranges()
    ensures
        byte_range(4) == 0x1_0000_0000,
        byte_range(8) == 0x1_0000_0000_0000_0000,
{
    reveal_with_fuel(byte_range, 9);
}

/// The big-endian encoding of a 32-bit length.
pub open spec fn be32(x: u32) -> Seq<u8> {
    seq![
        (x / 0x100_0000) as u8,
        ((x / 0x1_0000) % 256) as u8,
        ((x / 0x100) % 256) as u8,
        (x % 256) as u8,
    ]
}

/// The 32-bit length four big-endian bytes stand for.
pub open spec fn be32_value(bytes: Seq<u8>) -> nat {
    bytes[0] as nat * 0x100_0000 + bytes[1] as nat * 0x1_0000 + bytes[2] as nat * 0x100
        + bytes[3] as nat
}

/// Decoding a length prefix undoes encoding it.
pub proof fn lemma_be32_round_trip(x: u32)
    ensures
        be32(x).len() == 4,
        be32_value(be32(x)) == x,
{
    let b0 = x / 0x100_0000;
    let b1 = (x / 0x1_0000) % 256;
    let b2 = (x / 0x100) % 256;
    let b3 = x % 256;
    assert(b0 < 256 && b1 < 256 && b2 < 256 && b3 < 256);
    assert(x == b0 * 0x100_0000 + b1 * 0x1_0000 + b2 * 0x100 + b3);
    assert(be32(x)[0] == b0 as u8 && be32(x)[1] == b1 as u8 && be32(x)[2] == b2 as u8 && be32(x)[3]
        == b3 as u8);
}

// ---------------------------------------------------------------------------
// Payload layout
// ---------------------------------------------------------------------------

/// The bytes of a sealed frame: nonce, ciphertext length, ciphertext,
/// timestamp.
pub open spec fn frame_bytes(frame: FrameView) -> Seq<u8> {
    frame.nonce + le_bytes(frame.ciphertext.len(), 8) + frame.ciphertext + le_bytes(
        frame.timestamp as nat,
        8,
    )
}

/// The frame that `bytes` begin with, if they begin with one. Bytes after
/// the frame are ignored.
pub open spec fn parse_frame(bytes: Seq<u8>) -> Option<FrameView> {
    if bytes.len() < 20 {
        None
    } else {
        let n = le_value(bytes.subrange(12, 20)) as int;
        if bytes.len() < 28 + n {
            None
        } else {
            Some(
                FrameView {
                    nonce: bytes.subrange(0, 12),
                    ciphertext: bytes.subrange(20, 20 + n),
                    timestamp: le_value(bytes.subrange(20 + n, 28 + n)) as u64,
                },
            )
        }
    }
}

/// The abstract content of a direct-mode envelope.
pub ghost struct EnvelopeView {
    /// The message id.
    pub id: Seq<char>,
    /// The numeric tag of the message type.
    pub tag: u32,
    /// The sealed frame carried.
    pub frame: FrameView,
}

/// The bytes of an envelope: id length, id in UTF-8, type tag, frame.
pub open spec fn envelope_bytes(envelope: EnvelopeView) -> Seq<u8> {
    le_bytes(vstd::utf8::encode_utf8(envelope.id).len(), 8) + vstd::utf8::encode_utf8(envelope.id)
        + le_bytes(envelope.tag as nat, 4) + frame_bytes(envelope.frame)
}

/// The envelope that `bytes` begin with, if they begin with one. Bytes after
/// the envelope are ignored.
pub open spec fn parse_envelope(bytes: Seq<u8>) -> Option<EnvelopeView> {
    if bytes.len() < 8 {
        None
    } else {
        let n = le_value(bytes.subrange(0, 8)) as int;
        if bytes.len() < 12 + n {
            None
        } else if !vstd::utf8::valid_utf8(bytes.subrange(8, 8 + n)) {
            None
        } else {
            match parse_frame(bytes.subrange(12 + n, bytes.len() as int)) {
                None => None,
                Some(frame) => Some(
                    EnvelopeView {
                        id: vstd::utf8::decode_utf8(bytes.subrange(8, 8 + n)),
                        tag: le_value(bytes.subrange(8 + n, 12 + n)) as u32,
                        frame,
                    },
                ),
            }
        }
    }
}

/// Whether a frame can be laid out: its nonce has twelve bytes and the
/// length of its ciphertext fits the 64-bit length field.
pub open spec fn frame_well_formed(frame: FrameView) -> bool {
    frame.nonce.len() == 12 && frame.ciphertext.len() < 0x1_0000_0000_0000_0000
}

/// A frame's layout is `FRAME_OVERHEAD` bytes longer than its ciphertext.
pub proof fn lemma_frame_bytes_len(frame: FrameView)
    requires
        frame.nonce.len() == 12,
    ensures
        frame_bytes(frame).len() == frame.ciphertext.len() + FRAME_OVERHEAD,
{
    lemma_le_bytes_len(frame.ciphertext.len(), 8);
    lemma_le_bytes_len(frame.timestamp as nat, 8);
}

/// An envelope's layout is `ENVELOPE_OVERHEAD` bytes and the id's UTF-8
/// length longer than the frame it carries.
pub proof fn lemma_envelope_bytes_len(envelope: EnvelopeView)
    ensures
        envelope_bytes(envelope).len() == ENVELOPE_OVERHEAD + vstd::utf8::encode_utf8(
            envelope.id,
        ).len() + frame_bytes(envelope.frame).len(),
{
    lemma_le_bytes_len(vstd::utf8::encode_utf8(envelope.id).len(), 8);
    lemma_le_bytes_len(envelope.tag as nat, 4);
}

/// Parsing undoes laying out a frame, whatever follows it.
pub proof fn lemma_parse_frame_inverts(frame: FrameView, rest: Seq<u8>)
    requires
        frame_well_formed(frame),
    ensures
        parse_frame(frame_bytes(frame) + rest) == Some(frame),
{
    let n = frame.ciphertext.len() as int;
    let bytes = frame_bytes(frame) + rest;
    lemma_le_bytes_len(n as nat, 8);
    lemma_le_bytes_len(frame.timestamp as nat, 8);
    lemma_byte_ranges();
    lemma_le_round_trip(n as nat, 8);
    lemma_le_round_trip(frame.timestamp as nat, 8);
    assert(bytes.subrange(0, 12) =~= frame.nonce);
    assert(bytes.subrange(12, 20) =~= le_bytes(n as nat, 8));
    assert(bytes.subrange(20, 20 + n) =~= frame.ciphertext);
    assert(bytes.subrange(20 + n, 28 + n) =~= le_bytes(frame.timestamp as nat, 8));
}

/// Parsing undoes laying out an envelope, whatever follows it.
pub proof fn lemma_parse_envelope_inverts(envelope: EnvelopeView, rest: Seq<u8>)
    requires
        frame_well_formed(envelope.frame),
        vstd::utf8::encode_utf8(envelope.id).len() < 0x1_0000_0000_0000_0000,
    ensures
        parse_envelope(envelope_bytes(envelope) + rest) == Some(envelope),
{
    let id = vstd::utf8::encode_utf8(envelope.id);
    let n = id.len() as int;
    let bytes = envelope_bytes(envelope) + rest;
    lemma_le_bytes_len(n as nat, 8);
    lemma_le_bytes_len(envelope.tag as nat, 4);
    lemma_byte_ranges();
    lemma_le_round_trip(n as nat, 8);
    lemma_le_round_trip(envelope.tag as nat, 4);
    assert(bytes.subrange(0, 8) =~= le_bytes(n as nat, 8));
    assert(bytes.subrange(8, 8 + n) =~= id);
    assert(bytes.subrange(8 + n, 12 + n) =~= le_bytes(envelope.tag as nat, 4));
    assert(bytes.subrange(12 + n, bytes.len() as int) =~= frame_bytes(envelope.frame) + rest);
    vstd::utf8::encode_utf8_valid_utf8(envelope.id);
    vstd::utf8::encode_utf8_decode_utf8(envelope.id);
    lemma_parse_frame_inverts(envelope.frame, rest);
}

// ---------------------------------------------------------------------------
// The serializer
// ---------------------------------------------------------------------------

#[verifier::external_type_specification]
#[verifier::external_body]
pub struct ExBincodeErrorKind(bincode::ErrorKind);

/// `bincode::serialize` on the triple (nonce, ciphertext, timestamp).
///
/// With its default options the serializer writes a tuple field by field, a
/// byte array as its bytes, a vector as a 64-bit little-endian length and
/// its bytes, and a `u64` as eight little-endian bytes. It sets no size
/// limit, so it does not fail on these types. The precondition keeps the
/// output within what a vector can hold.
#[verifier::external_body]
pub(crate) fn bincode_frame(nonce: &[u8; 12], ciphertext: &Vec<u8>, timestamp: u64) -> (out: Result<
    Vec<u8>,
    Box<bincode::ErrorKind>,
>)
    requires
        ciphertext@.len() + FRAME_OVERHEAD <= isize::MAX,
    ensures
        out is Ok,
        out matches Ok(bytes) ==> bytes@ == frame_bytes(
            FrameView { nonce: nonce@, ciphertext: ciphertext@, timestamp },
        ),
{
    bincode::serialize(&(nonce, ciphertext, timestamp))
}

/// `bincode::serialize` on the triple (id, tag, (nonce, ciphertext,
/// timestamp)).
///
/// As for the bare frame; a string is written as a 64-bit little-endian
/// length and its UTF-8 bytes, a `u32` as four little-endian bytes.
#[verifier::external_body]
pub(crate) fn bincode_envelope(
    id: &str,
    tag: u32,
    nonce: &[u8; 12],
    ciphertext: &Vec<u8>,
    timestamp: u64,
) -> (out: Result<Vec<u8>, Box<bincode::ErrorKind>>)
    requires
        ENVELOPE_OVERHEAD + vstd::utf8::encode_utf8(id@).len() + ciphertext@.len() + FRAME_OVERHEAD
            <= isize::MAX,
    ensures
        out is Ok,
        out matches Ok(bytes) ==> bytes@ == envelope_bytes(
            EnvelopeView {
                id: id@,
                tag,
                frame: FrameView { nonce: nonce@, ciphertext: ciphertext@, timestamp },
            },
        ),
{
    bincode::serialize(&(id, tag, (nonce, ciphertext, timestamp)))
}

/// `bincode::deserialize` to the triple (nonce, ciphertext, timestamp).
///
/// With its default options the deserializer reads what the serializer
/// writes, fails when the input ends early, and ignores input left over.
#[verifier::external_body]
pub(crate) fn bincode_parse_frame(bytes: &[u8]) -> (out: Result<
    ([u8; 12], Vec<u8>, u64),
    Box<bincode::ErrorKind>,
>)
    ensures
        out is Ok <==> parse_frame(bytes@) is Some,
        out matches Ok(t) ==> parse_frame(bytes@) == Some(
            FrameView { nonce: t.0@, ciphertext: t.1@, timestamp: t.2 },
        ),
{
    bincode::deserialize::<([u8; 12], Vec<u8>, u64)>(bytes)
}

/// `bincode::deserialize` to the triple (id, tag, (nonce, ciphertext,
/// timestamp)).
///
/// As for the bare frame; it also fails when the id is not well-formed
/// UTF-8.
#[verifier::external_body]
pub(crate) fn bincode_parse_envelope(bytes: &[u8]) -> (out: Result<
    (String, u32, ([u8; 12], Vec<u8>, u64)),
    Box<bincode::ErrorKind>,
>)
    ensures
        out is Ok <==> parse_envelope(bytes@) is Some,
        out matches Ok(t) ==> parse_envelope(bytes@) == Some(
            EnvelopeView {
                id: t.0@,
                tag: t.1,
                frame: FrameView { nonce: t.2.0@, ciphertext: t.2.1@, timestamp: t.2.2 },
            },
        ),
{
    bincode::deserialize::<(String, u32, ([u8; 12], Vec<u8>, u64))>(bytes)
}

/// `ToString::to_string` on a `bincode::ErrorKind`: the serializer's own
/// description of a failure. Nothing is promised of the text.
#[verifier::external_body]
pub(crate) fn bincode_error_text(error: &Box<bincode::ErrorKind>) -> (text: String) {
    error.to_string()
}

} // verus!
