//! The rules a peer connection follows: what is written for an outgoing
//! message, and what an incoming frame turns into.
//!
//! Nothing here touches a socket. A connection hands the bytes it read to
//! these functions and writes the bytes they return.

use vstd::prelude::*;
use crate::crypto::{
    decrypt_result,
    key_state,
    next_master,
    sealable,
    seals,
    CryptoError,
    EncryptedMessage,
    FrameView,
    SilenceCrypto,
};
use crate::primitives::{
    os_random,
    string_from_utf8,
    uuid_text,
    uuid_to_text,
    uuid_v4_from_random,
    uuid_v4_value,
    TAG_LEN,
};
use crate::wire::{
    be32,
    be32_value,
    bincode_envelope,
    bincode_error_text,
    bincode_frame,
    bincode_parse_envelope,
    bincode_parse_frame,
    envelope_bytes,
    frame_bytes,
    frame_well_formed,
    lemma_envelope_bytes_len,
    lemma_frame_bytes_len,
    lemma_parse_envelope_inverts,
    lemma_parse_frame_inverts,
    parse_envelope,
    parse_frame,
    EnvelopeView,
    ENVELOPE_OVERHEAD,
    FRAME_OVERHEAD,
};

verus! {

// ---------------------------------------------------------------------------
// Errors
// ---------------------------------------------------------------------------

/// What a failed transport operation was about, as far as the protocol
/// cares.
#[derive(Debug, Clone, Copy, PartialEq, Eq, Structural)]
pub enum IoFailureKind {
    /// The stream ended before the bytes asked for had arrived.
    UnexpectedEof,
    /// The peer refused the connection.
    ConnectionRefused,
    /// Any other transport failure.
    Other,
}

/// A failed transport operation.
#[derive(Debug, Clone, PartialEq, Eq)]
pub struct IoFailure {
    /// The kind of failure.
    pub kind: IoFailureKind,
    /// The transport's own description.
    pub detail: String,
}

/// Why a network operation failed.
#[derive(Debug, Clone, PartialEq, Eq)]
pub enum NetworkError {
    /// The transport failed.
    Connection(IoFailure),
    /// A payload could not be decoded; the decoder's description is kept.
    Serialization(String),
    /// The encryption engine failed.
    Crypto(CryptoError),
    /// A frame broke the framing rules, or decrypted text was not UTF-8.
    InvalidMessage,
    /// A frame is longer than the connection allows.
    MessageTooLarge,
    /// An operation ran out of time.
    Timeout,
}

impl NetworkError {
    /// The diagnostic text of the error.
    pub open spec fn message_spec(self) -> Seq<char> {
        match self {
            NetworkError::Connection(e) => "Connection error: "@ + e.detail@,
            NetworkError::Serialization(detail) => "Serialization error: "@ + detail@,
            NetworkError::Crypto(e) => "Crypto error: "@ + e.message_spec(),
            NetworkError::InvalidMessage => "Invalid message format"@,
            NetworkError::MessageTooLarge => "Message too large"@,
            NetworkError::Timeout => "Operation timeout"@,
        }
    }

    /// The diagnostic text of the error.
    pub fn message(&self) -> (text: String)
        ensures
            text@ == self.message_spec(),
    {
        match self {
            NetworkError::Connection(e) => {
                "Connection error: ".to_owned().concat(e.detail.as_str())
            },
            NetworkError::Serialization(detail) => {
                "Serialization error: ".to_owned().concat(detail.as_str())
            },
            NetworkError::Crypto(e) => {
                let inner = e.message();
                "Crypto error: ".to_owned().concat(inner.as_str())
            },
            NetworkError::InvalidMessage => "Invalid message format".to_owned(),
            NetworkError::MessageTooLarge => "Message too large".to_owned(),
            NetworkError::Timeout => "Operation timeout".to_owned(),
        }
    }
}

impl From<CryptoError> for NetworkError {
    fn from(err: CryptoError) -> (e: Self) {
        NetworkError::Crypto(err)
    }
}

impl vstd::std_specs::convert::FromSpecImpl<CryptoError> for NetworkError {
    open spec fn obeys_from_spec() -> bool {
        true
    }

    open spec fn from_spec(err: CryptoError) -> Self {
        NetworkError::Crypto(err)
    }
}

impl From<IoFailure> for NetworkError {
    fn from(err: IoFailure) -> (e: Self) {
        NetworkError::Connection(err)
    }
}

impl vstd::std_specs::convert::FromSpecImpl<IoFailure> for NetworkError {
    open spec fn obeys_from_spec() -> bool {
        true
    }

    open spec fn from_spec(err: IoFailure) -> Self {
        NetworkError::Connection(err)
    }
}

// ---------------------------------------------------------------------------
// Messages
// ---------------------------------------------------------------------------

/// What a direct-mode message is for. Only `Text` reaches the user.
#[derive(Debug, Clone, Copy, PartialEq, Eq, Structural)]
pub enum MessageType {
    /// User text.
    Text,
    /// A request to rotate keys.
    KeyRotation,
    /// A keep-alive.
    Heartbeat,
}

/// The message type a wire tag stands for.
pub open spec fn message_type_of(tag: u32) -> Option<MessageType> {
    if tag == 0 {
        Some(MessageType::Text)
    } else if tag == 1 {
        Some(MessageType::KeyRotation)
    } else if tag == 2 {
        Some(MessageType::Heartbeat)
    } else {
        None
    }
}

impl MessageType {
    /// The tag the type travels as.
    pub open spec fn tag_spec(self) -> u32 {
        match self {
            MessageType::Text => 0,
            MessageType::KeyRotation => 1,
            MessageType::Heartbeat => 2,
        }
    }

    /// The tag the type travels as.
    pub fn tag(&self) -> (tag: u32)
        ensures
            tag == self.tag_spec(),
            message_type_of(tag) == Some(*self),
    {
        match self {
            MessageType::Text => 0,
            MessageType::KeyRotation => 1,
            MessageType::Heartbeat => 2,
        }
    }

    /// The type a tag stands for, if any.
    pub fn from_tag(tag: u32) -> (kind: Option<MessageType>)
        ensures
            kind == message_type_of(tag),
    {
        if tag == 0 {
            Some(MessageType::Text)
        } else if tag == 1 {
            Some(MessageType::KeyRotation)
        } else if tag == 2 {
            Some(MessageType::Heartbeat)
        } else {
            None
        }
    }
}

/// The direct-mode envelope around a sealed frame.
#[derive(Debug, Clone, PartialEq, Eq)]
pub struct NetworkMessage {
    /// A fresh identifier in UUID text form.
    pub id: String,
    /// What the message is for.
    pub message_type: MessageType,
    /// The sealed content.
    pub encrypted_data: EncryptedMessage,
}

impl View for NetworkMessage {
    type V = EnvelopeView;

    open spec fn view(&self) -> EnvelopeView {
        EnvelopeView {
            id: self.id@,
            tag: self.message_type.tag_spec(),
            frame: self.encrypted_data@,
        }
    }
}

// ---------------------------------------------------------------------------
// Framing
// ---------------------------------------------------------------------------

/// Whether a payload of `len` bytes may be sent on a connection with the
/// given limit: it is within the limit, its length fits the four-byte
/// prefix, and a buffer can hold it.
pub open spec fn payload_fits(len: nat, max_message_size: usize) -> bool {
    len <= max_message_size && len <= u32::MAX && len <= isize::MAX
}

/// A payload with its length prefix in front.
pub open spec fn framed(payload: Seq<u8>) -> Seq<u8> {
    be32(payload.len() as u32) + payload
}

/// What the reader makes of a length prefix: the number of payload bytes to
/// read next, or the reason the frame is refused.
pub open spec fn frame_length(prefix: Seq<u8>, max_message_size: usize) -> Result<
    usize,
    NetworkError,
> {
    let n = be32_value(prefix);
    if n > max_message_size {
        Err(NetworkError::MessageTooLarge)
    } else if n == 0 {
        Err(NetworkError::InvalidMessage)
    } else {
        Ok(n as usize)
    }
}

/// Encodes a payload length as the four-byte big-endian prefix.
pub fn length_prefix(len: u32) -> (prefix: [u8; 4])
    ensures
        prefix@ == be32(len),
{
    let prefix: [u8; 4] = [
        (len / 0x100_0000) as u8,
        ((len / 0x1_0000) % 256) as u8,
        ((len / 0x100) % 256) as u8,
        (len % 256) as u8,
    ];
    assert(prefix@ =~= be32(len));
    prefix
}

/// Decodes a four-byte big-endian prefix.
pub fn prefix_value(prefix: &[u8; 4]) -> (len: u32)
    ensures
        len == be32_value(prefix@),
{
    let b0: u32 = prefix[0] as u32;
    let b1: u32 = prefix[1] as u32;
    let b2: u32 = prefix[2] as u32;
    let b3: u32 = prefix[3] as u32;
    b0 * 0x100_0000 + b1 * 0x1_0000 + b2 * 0x100 + b3
}

/// Checks a length prefix against the connection's limit. A length above
/// the limit is `MessageTooLarge`; a zero length is `InvalidMessage`.
pub fn check_frame_length(prefix: &[u8; 4], max_message_size: usize) -> (len: Result<
    usize,
    NetworkError,
>)
    ensures
        len == frame_length(prefix@, max_message_size),
{
    let n = prefix_value(prefix);
    if n as u64 > max_message_size as u64 {
        Err(NetworkError::MessageTooLarge)
    } else if n == 0 {
        Err(NetworkError::InvalidMessage)
    } else {
        Ok(n as usize)
    }
}

/// Puts the length prefix in front of a payload whose length the prefix
/// can express.
pub(crate) fn prefixed(payload: &[u8]) -> (wire: Vec<u8>)
    requires
        payload@.len() <= u32::MAX,
    ensures
        wire@ == framed(payload@),
{
    let prefix = length_prefix(payload.len() as u32);
    let mut wire: Vec<u8> = Vec::new();
    wire.push(prefix[0]);
    wire.push(prefix[1]);
    wire.push(prefix[2]);
    wire.push(prefix[3]);
    assert(wire@ =~= be32(payload@.len() as u32));
    let mut i: usize = 0;
    while i < payload.len()
        invariant
            i <= payload@.len(),
            wire@ == be32(payload@.len() as u32) + payload@.subrange(0, i as int),
        decreases payload@.len() - i,
    {
        wire.push(payload[i]);
        assert(payload@.subrange(0, i + 1) =~= payload@.subrange(0, i as int).push(payload@[i as int]));
        i += 1;
    }
    assert(payload@.subrange(0, i as int) =~= payload@);
    wire
}

/// Frames a payload for a connection with the given limit: the length
/// prefix followed by the payload. Fails with `MessageTooLarge` exactly
/// when the payload does not fit the limit.
pub fn frame_payload(payload: &[u8], max_message_size: usize) -> (wire: Result<Vec<u8>, NetworkError>)
    ensures
        wire is Ok <==> payload_fits(payload@.len(), max_message_size),
        wire matches Ok(bytes) ==> bytes@ == framed(payload@),
        wire matches Err(e) ==> e == NetworkError::MessageTooLarge,
{
    if payload.len() > max_message_size || payload.len() as u64 > u32::MAX as u64 || payload.len()
        > isize::MAX as usize {
        Err(NetworkError::MessageTooLarge)
    } else {
        Ok(prefixed(payload))
    }
}

/// The reader accepts the prefix of every length that is positive and
/// within the limit, and reads it as that length.
pub proof fn lemma_frame_length_of_prefix(len: u32, max_message_size: usize)
    requires
        0 < len <= max_message_size,
    ensures
        frame_length(be32(len), max_message_size) == Ok::<usize, NetworkError>(len as usize),
{
    crate::wire::lemma_be32_round_trip(len);
}

/// A framed payload is its length prefix followed by the payload itself.
pub proof fn lemma_framed_parts(payload: Seq<u8>)
    ensures
        framed(payload).len() == payload.len() + 4,
        framed(payload).subrange(0, 4) == be32(payload.len() as u32),
        framed(payload).subrange(4, framed(payload).len() as int) == payload,
{
    let prefix = be32(payload.len() as u32);
    crate::wire::lemma_be32_round_trip(payload.len() as u32);
    assert((prefix + payload).subrange(0, 4) =~= prefix);
    assert((prefix + payload).subrange(4, (prefix + payload).len() as int) =~= payload);
}

/// The reader recovers from a framed payload the length it was framed with,
/// and after the prefix finds the payload itself.
pub proof fn lemma_frame_length_of_framed(payload: Seq<u8>, max_message_size: usize)
    requires
        0 < payload.len() <= max_message_size,
        payload.len() <= u32::MAX,
    ensures
        frame_length(framed(payload).subrange(0, 4), max_message_size) == Ok::<usize, NetworkError>(
            payload.len() as usize,
        ),
        framed(payload).subrange(4, framed(payload).len() as int) == payload,
{
    lemma_framed_parts(payload);
    lemma_frame_length_of_prefix(payload.len() as u32, max_message_size);
}

// ---------------------------------------------------------------------------
// Payloads
// ---------------------------------------------------------------------------

/// The payload a message travels as: the bare frame on a relay connection,
/// the whole envelope on a direct one.
pub open spec fn outgoing_payload(is_relay: bool, message: EnvelopeView) -> Seq<u8> {
    if is_relay {
        frame_bytes(message.frame)
    } else {
        envelope_bytes(message)
    }
}

/// The payload length of a message with a plaintext of `plaintext_len`
/// bytes and an id of 36 ASCII characters.
pub open spec fn outgoing_len(is_relay: bool, plaintext_len: nat) -> nat {
    if is_relay {
        (plaintext_len + TAG_LEN + FRAME_OVERHEAD) as nat
    } else {
        (plaintext_len + TAG_LEN + FRAME_OVERHEAD + ENVELOPE_OVERHEAD + 36) as nat
    }
}

/// Encodes a sealed frame as a relay-mode payload. Fails with
/// `MessageTooLarge` exactly when the payload does not fit the limit.
pub fn encode_frame(frame: &EncryptedMessage, max_message_size: usize) -> (payload: Result<
    Vec<u8>,
    NetworkError,
>)
    ensures
        payload is Ok <==> payload_fits(frame_bytes(frame@).len(), max_message_size),
        payload matches Ok(bytes) ==> bytes@ == frame_bytes(frame@),
        payload matches Err(e) ==> e == NetworkError::MessageTooLarge,
{
    proof {
        lemma_frame_bytes_len(frame@);
    }
    if frame.ciphertext.len() > (isize::MAX as usize) - FRAME_OVERHEAD {
        return Err(NetworkError::MessageTooLarge);
    }
    let bytes = match bincode_frame(&frame.nonce, &frame.ciphertext, frame.timestamp) {
        Ok(bytes) => bytes,
        Err(e) => {
            return Err(NetworkError::Serialization(bincode_error_text(&e)));
        },
    };
    if bytes.len() > max_message_size || bytes.len() as u64 > u32::MAX as u64 {
        Err(NetworkError::MessageTooLarge)
    } else {
        Ok(bytes)
    }
}

/// Encodes an envelope as a direct-mode payload. Fails with
/// `MessageTooLarge` exactly when the payload does not fit the limit.
pub fn encode_envelope(message: &NetworkMessage, max_message_size: usize) -> (payload: Result<
    Vec<u8>,
    NetworkError,
>)
    ensures
        payload is Ok <==> payload_fits(envelope_bytes(message@).len(), max_message_size),
        payload matches Ok(bytes) ==> bytes@ == envelope_bytes(message@),
        payload matches Err(e) ==> e == NetworkError::MessageTooLarge,
{
    proof {
        lemma_frame_bytes_len(message@.frame);
        lemma_envelope_bytes_len(message@);
    }
    let id = message.id.as_str();
    let room: usize = (isize::MAX as usize) - FRAME_OVERHEAD - ENVELOPE_OVERHEAD;
    let id_len = id.as_bytes().len();
    if id_len > room {
        return Err(NetworkError::MessageTooLarge);
    }
    if message.encrypted_data.ciphertext.len() > room - id_len {
        return Err(NetworkError::MessageTooLarge);
    }
    let bytes = match bincode_envelope(
        id,
        message.message_type.tag(),
        &message.encrypted_data.nonce,
        &message.encrypted_data.ciphertext,
        message.encrypted_data.timestamp,
    ) {
        Ok(bytes) => bytes,
        Err(e) => {
            return Err(NetworkError::Serialization(bincode_error_text(&e)));
        },
    };
    if bytes.len() > max_message_size || bytes.len() as u64 > u32::MAX as u64 {
        Err(NetworkError::MessageTooLarge)
    } else {
        Ok(bytes)
    }
}

/// The description of an envelope whose type tag stands for no type.
pub const UNKNOWN_TYPE: &'static str = "unknown message type";

/// The envelope a direct-mode payload decodes to: the one the bytes begin
/// with, unless its type tag is unknown.
pub open spec fn decoded_envelope(payload: Seq<u8>) -> Option<EnvelopeView> {
    match parse_envelope(payload) {
        Some(envelope) => if message_type_of(envelope.tag) is Some {
            Some(envelope)
        } else {
            None
        },
        None => None,
    }
}

/// Decodes a relay-mode payload. Fails with `Serialization` exactly when
/// the bytes do not begin with a frame.
pub fn decode_frame(payload: &[u8]) -> (frame: Result<EncryptedMessage, NetworkError>)
    ensures
        match parse_frame(payload@) {
            Some(f) => frame matches Ok(m) && m@ == f,
            None => frame matches Err(e) && e is Serialization,
        },
{
    match bincode_parse_frame(payload) {
        Ok(t) => Ok(EncryptedMessage { nonce: t.0, ciphertext: t.1, timestamp: t.2 }),
        Err(e) => Err(NetworkError::Serialization(bincode_error_text(&e))),
    }
}

/// Decodes a direct-mode payload. Fails with `Serialization` exactly when
/// the bytes do not begin with an envelope of a known type; an unknown type
/// is described as `UNKNOWN_TYPE`.
pub fn decode_envelope(payload: &[u8]) -> (message: Result<NetworkMessage, NetworkError>)
    ensures
        match decoded_envelope(payload@) {
            Some(e) => message matches Ok(m) && m@ == e,
            None => message matches Err(e) && e is Serialization,
        },
        parse_envelope(payload@) is Some && decoded_envelope(payload@) is None ==> (
        message matches Err(NetworkError::Serialization(detail)) && detail@ == UNKNOWN_TYPE@),
{
    match bincode_parse_envelope(payload) {
        Ok(t) => {
            let frame = t.2;
            match MessageType::from_tag(t.1) {
                Some(message_type) => Ok(
                    NetworkMessage {
                        id: t.0,
                        message_type,
                        encrypted_data: EncryptedMessage {
                            nonce: frame.0,
                            ciphertext: frame.1,
                            timestamp: frame.2,
                        },
                    },
                ),
                None => Err(NetworkError::Serialization(UNKNOWN_TYPE.to_owned())),
            }
        },
        Err(e) => Err(NetworkError::Serialization(bincode_error_text(&e))),
    }
}

// ---------------------------------------------------------------------------
// The connection
// ---------------------------------------------------------------------------

/// The abstract state of a connection.
pub ghost struct ConnectionView {
    /// The peer's address in text form.
    pub peer_addr: Seq<char>,
    /// The longest payload the connection sends or accepts.
    pub max_message_size: usize,
    /// Whether the peer is a relay.
    pub is_relay: bool,
}

/// The protocol side of one connection: its mode and its limit.
pub struct P2PConnection {
    peer_addr: String,
    max_message_size: usize,
    is_relay: bool,
}

impl View for P2PConnection {
    type V = ConnectionView;

    closed spec fn view(&self) -> ConnectionView {
        ConnectionView {
            peer_addr: self.peer_addr@,
            max_message_size: self.max_message_size,
            is_relay: self.is_relay,
        }
    }
}

/// Whether `id` is a message identifier: the text of a version-4 UUID, 36
/// ASCII characters long.
pub open spec fn is_message_id(id: Seq<char>) -> bool {
    &&& id.len() == 36
    &&& vstd::utf8::is_ascii_chars(id)
    &&& exists|random: Seq<u8>| random.len() == 16 && id == uuid_text(#[trigger] uuid_v4_value(random))
}

/// Whether `wire` is a framed message of the given type that carries
/// `plaintext` sealed under the encryption key of `master`.
pub open spec fn carries(
    wire: Seq<u8>,
    is_relay: bool,
    master: Seq<u8>,
    kind: MessageType,
    plaintext: Seq<u8>,
) -> bool {
    exists|m: EnvelopeView|
        {
            &&& seals(master, m.frame, plaintext)
            &&& m.tag == kind.tag_spec()
            &&& is_message_id(m.id)
            &&& wire == #[trigger] framed(outgoing_payload(is_relay, m))
        }
}

/// What receiving a payload comes to.
pub ghost enum Received {
    /// User text.
    Text(Seq<char>),
    /// A message that carries no user text.
    Nothing,
    /// A payload that does not decode; the error is `Serialization`.
    Undecodable,
    /// Any other failure, with its error.
    Failed(NetworkError),
}

/// Whether the value a receiver returns is what the payload comes to.
pub open spec fn delivers(returned: Result<Option<String>, NetworkError>, outcome: Received) -> bool {
    match outcome {
        Received::Text(text) => returned matches Ok(Some(s)) && s@ == text,
        Received::Nothing => returned matches Ok(None),
        Received::Undecodable => returned matches Err(e) && e is Serialization,
        Received::Failed(error) => returned == Err::<Option<String>, NetworkError>(error),
    }
}

/// What a decrypted frame turns into: the text it holds, `InvalidMessage`
/// when the plaintext is not UTF-8, or the engine's error.
pub open spec fn text_outcome(master: Seq<u8>, frame: FrameView) -> Received {
    match decrypt_result(master, frame) {
        Ok(plaintext) => if vstd::utf8::valid_utf8(plaintext) {
            Received::Text(vstd::utf8::decode_utf8(plaintext))
        } else {
            Received::Failed(NetworkError::InvalidMessage)
        },
        Err(e) => Received::Failed(NetworkError::Crypto(e)),
    }
}

/// What receiving a payload comes to: user text for a text message, nothing
/// for a key-rotation request or a heartbeat, an error otherwise.
pub open spec fn receive_outcome(is_relay: bool, master: Seq<u8>, payload: Seq<u8>) -> Received {
    if is_relay {
        match parse_frame(payload) {
            Some(frame) => text_outcome(master, frame),
            None => Received::Undecodable,
        }
    } else {
        match decoded_envelope(payload) {
            Some(envelope) => match message_type_of(envelope.tag) {
                Some(MessageType::Text) => text_outcome(master, envelope.frame),
                _ => Received::Nothing,
            },
            None => Received::Undecodable,
        }
    }
}

/// Whether a payload asks the receiver to rotate its keys: it does on a
/// direct connection, when it decodes to an envelope of that type.
pub open spec fn is_rotation_request(is_relay: bool, payload: Seq<u8>) -> bool {
    !is_relay && (decoded_envelope(payload) matches Some(envelope) && message_type_of(envelope.tag)
        == Some(MessageType::KeyRotation))
}

/// The master secret after receiving a payload: rotated once by a
/// key-rotation request, unchanged otherwise.
pub open spec fn master_after_receive(is_relay: bool, master: Seq<u8>, payload: Seq<u8>) -> Seq<u8> {
    if is_rotation_request(is_relay, payload) {
        next_master(master)
    } else {
        master
    }
}

/// The text of a UUID has 36 characters, all of them ASCII.
pub proof fn lemma_uuid_text_shape(value: u128)
    ensures
        uuid_text(value).len() == 36,
        vstd::utf8::is_ascii_chars(uuid_text(value)),
{
}

/// The identifier of a message, made from 16 random bytes: the text of the
/// version-4 UUID the bytes determine.
pub fn message_id(random: [u8; 16]) -> (id: String)
    ensures
        id@ == uuid_text(uuid_v4_value(random@)),
        is_message_id(id@),
{
    proof {
        lemma_uuid_text_shape(uuid_v4_value(random@));
    }
    uuid_to_text(uuid_v4_from_random(random))
}

/// Draws the identifier of a new message: a random version-4 UUID in text
/// form.
fn fresh_message_id() -> (id: Result<String, NetworkError>)
    ensures
        id matches Ok(text) ==> is_message_id(text@),
        id matches Err(e) ==> e == NetworkError::Crypto(CryptoError::KeyGeneration),
{
    match os_random::<16>() {
        Ok(random) => Ok(message_id(random)),
        Err(_) => Err(NetworkError::Crypto(CryptoError::KeyGeneration)),
    }
}

/// Opens a frame and reads its plaintext as text.
fn open_text(crypto: &mut SilenceCrypto, frame: &EncryptedMessage) -> (text: Result<
    Option<String>,
    NetworkError,
>)
    ensures
        final(crypto)@ == old(crypto)@,
        delivers(text, text_outcome(old(crypto)@.master, frame@)),
{
    let plaintext = match crypto.decrypt(frame) {
        Ok(plaintext) => plaintext,
        Err(e) => {
            return Err(NetworkError::Crypto(e));
        },
    };
    match string_from_utf8(plaintext) {
        Ok(s) => {
            proof {
                vstd::utf8::encode_utf8_decode_utf8(s@);
            }
            Ok(Some(s))
        },
        Err(_) => Err(NetworkError::InvalidMessage),
    }
}

impl P2PConnection {
    /// Sets up the rules of a connection to `peer_addr`.
    pub fn new(peer_addr: String, max_message_size: usize, is_relay: bool) -> (connection: Self)
        ensures
            connection@ == (ConnectionView { peer_addr: peer_addr@, max_message_size, is_relay }),
    {
        P2PConnection { peer_addr, max_message_size, is_relay }
    }

    /// The peer's address.
    pub fn peer_addr(&self) -> (addr: &str)
        ensures
            addr@ == self@.peer_addr,
    {
        self.peer_addr.as_str()
    }

    /// The longest payload the connection sends or accepts.
    pub fn max_message_size(&self) -> (max: usize)
        ensures
            max == self@.max_message_size,
    {
        self.max_message_size
    }

    /// Whether the peer is a relay.
    pub fn is_relay(&self) -> (relay: bool)
        ensures
            relay == self@.is_relay,
    {
        self.is_relay
    }

    /// Turns a message into the bytes to write: the payload for this
    /// connection's mode behind its length prefix. Fails with
    /// `MessageTooLarge`, before anything is written, exactly when the
    /// payload does not fit the limit.
    pub fn send_message(&self, message: &NetworkMessage) -> (wire: Result<Vec<u8>, NetworkError>)
        ensures
            wire is Ok <==> payload_fits(
                outgoing_payload(self@.is_relay, message@).len(),
                self@.max_message_size,
            ),
            wire matches Ok(bytes) ==> bytes@ == framed(outgoing_payload(self@.is_relay, message@)),
            wire matches Err(e) ==> e == NetworkError::MessageTooLarge,
    {
        let payload = if self.is_relay {
            encode_frame(&message.encrypted_data, self.max_message_size)?
        } else {
            encode_envelope(message, self.max_message_size)?
        };
        Ok(prefixed(payload.as_slice()))
    }

    /// Seals `plaintext` and wraps it in a message of the given type with a
    /// fresh id.
    fn compose(crypto: &mut SilenceCrypto, message_type: MessageType, plaintext: &[u8]) -> (message:
        Result<NetworkMessage, NetworkError>)
        ensures
            final(crypto)@.rotation_interval_secs == old(crypto)@.rotation_interval_secs,
            final(crypto)@ == old(crypto)@ || final(crypto)@ == key_state(
                next_master(old(crypto)@.master),
                old(crypto)@.rotation_interval_secs,
                final(crypto)@.epoch,
            ),
            message matches Ok(m) ==> {
                &&& sealable(plaintext@.len())
                &&& seals(final(crypto)@.master, m@.frame, plaintext@)
                &&& m@.tag == message_type.tag_spec()
                &&& is_message_id(m@.id)
            },
            message matches Err(e) ==> e == NetworkError::Crypto(CryptoError::KeyGeneration) || (e
                == NetworkError::Crypto(CryptoError::Encryption) && !sealable(plaintext@.len())),
    {
        let id = fresh_message_id()?;
        let encrypted_data = match crypto.encrypt(plaintext) {
            Ok(frame) => frame,
            Err(e) => {
                return Err(NetworkError::Crypto(e));
            },
        };
        Ok(NetworkMessage { id, message_type, encrypted_data })
    }

    /// Seals a message of the given type and turns it into the bytes to
    /// write.
    fn send_sealed(&self, crypto: &mut SilenceCrypto, message_type: MessageType, plaintext: &[u8]) -> (wire:
        Result<Vec<u8>, NetworkError>)
        ensures
            final(crypto)@.rotation_interval_secs == old(crypto)@.rotation_interval_secs,
            final(crypto)@ == old(crypto)@ || final(crypto)@ == key_state(
                next_master(old(crypto)@.master),
                old(crypto)@.rotation_interval_secs,
                final(crypto)@.epoch,
            ),
            wire matches Ok(bytes) ==> {
                &&& sealable(plaintext@.len())
                &&& payload_fits(
                    outgoing_len(self@.is_relay, plaintext@.len()),
                    self@.max_message_size,
                )
                &&& carries(
                    bytes@,
                    self@.is_relay,
                    final(crypto)@.master,
                    message_type,
                    plaintext@,
                )
            },
            wire matches Err(e) ==> {
                ||| e == NetworkError::Crypto(CryptoError::KeyGeneration)
                ||| e == NetworkError::Crypto(CryptoError::Encryption) && !sealable(
                    plaintext@.len(),
                )
                ||| e == NetworkError::MessageTooLarge && sealable(plaintext@.len())
                    && !payload_fits(
                    outgoing_len(self@.is_relay, plaintext@.len()),
                    self@.max_message_size,
                )
            },
    {
        let message = Self::compose(crypto, message_type, plaintext)?;
        proof {
            lemma_frame_bytes_len(message@.frame);
            lemma_envelope_bytes_len(message@);
            vstd::utf8::is_ascii_chars_encode_utf8(message@.id);
        }
        self.send_message(&message)
    }

    /// Encrypts `content` and returns the bytes to write for it.
    ///
    /// Fails with `Crypto(KeyGeneration)` when the operating system delivers
    /// no randomness, with `Crypto(Encryption)` when the cipher cannot take
    /// the text, and with `MessageTooLarge` when the sealed message does not
    /// fit the connection's limit. Nothing is to be written after a failure.
    pub fn send_text(&self, crypto: &mut SilenceCrypto, content: &str) -> (wire: Result<
        Vec<u8>,
        NetworkError,
    >)
        ensures
            final(crypto)@.rotation_interval_secs == old(crypto)@.rotation_interval_secs,
            final(crypto)@ == old(crypto)@ || final(crypto)@ == key_state(
                next_master(old(crypto)@.master),
                old(crypto)@.rotation_interval_secs,
                final(crypto)@.epoch,
            ),
            wire matches Ok(bytes) ==> {
                &&& sealable(vstd::utf8::encode_utf8(content@).len())
                &&& payload_fits(
                    outgoing_len(self@.is_relay, vstd::utf8::encode_utf8(content@).len()),
                    self@.max_message_size,
                )
                &&& carries(
                    bytes@,
                    self@.is_relay,
                    final(crypto)@.master,
                    MessageType::Text,
                    vstd::utf8::encode_utf8(content@),
                )
            },
            wire matches Err(e) ==> {
                ||| e == NetworkError::Crypto(CryptoError::KeyGeneration)
                ||| e == NetworkError::Crypto(CryptoError::Encryption) && !sealable(
                    vstd::utf8::encode_utf8(content@).len(),
                )
                ||| e == NetworkError::MessageTooLarge && sealable(
                    vstd::utf8::encode_utf8(content@).len(),
                ) && !payload_fits(
                    outgoing_len(self@.is_relay, vstd::utf8::encode_utf8(content@).len()),
                    self@.max_message_size,
                )
            },
    {
        self.send_sealed(crypto, MessageType::Text, content.as_bytes())
    }

    /// Returns the bytes to write for a heartbeat: the encrypted text
    /// `heartbeat` under the type `Heartbeat`. Fails with
    /// `Crypto(KeyGeneration)` when the operating system delivers no
    /// randomness and with `MessageTooLarge` when the sealed message does not
    /// fit the connection's limit.
    pub fn send_heartbeat(&self, crypto: &mut SilenceCrypto) -> (wire: Result<Vec<u8>, NetworkError>)
        ensures
            final(crypto)@.rotation_interval_secs == old(crypto)@.rotation_interval_secs,
            final(crypto)@ == old(crypto)@ || final(crypto)@ == key_state(
                next_master(old(crypto)@.master),
                old(crypto)@.rotation_interval_secs,
                final(crypto)@.epoch,
            ),
            wire matches Ok(bytes) ==> payload_fits(
                outgoing_len(self@.is_relay, 9),
                self@.max_message_size,
            ) && carries(
                bytes@,
                self@.is_relay,
                final(crypto)@.master,
                MessageType::Heartbeat,
                vstd::utf8::encode_utf8("heartbeat"@),
            ),
            wire matches Err(e) ==> e == NetworkError::Crypto(CryptoError::KeyGeneration) || (e
                == NetworkError::MessageTooLarge && !payload_fits(
                outgoing_len(self@.is_relay, 9),
                self@.max_message_size,
            )),
    {
        proof {
            reveal_strlit("heartbeat");
            assert(vstd::utf8::is_ascii_chars("heartbeat"@));
            vstd::utf8::is_ascii_chars_encode_utf8("heartbeat"@);
        }
        self.send_sealed(crypto, MessageType::Heartbeat, "heartbeat".as_bytes())
    }

    /// Decides what to do after reading a length prefix: how many payload
    /// bytes to read, or why the frame is refused.
    pub fn accept_length(&self, prefix: &[u8; 4]) -> (len: Result<usize, NetworkError>)
        ensures
            len == frame_length(prefix@, self@.max_message_size),
    {
        check_frame_length(prefix, self.max_message_size)
    }

    /// Processes one payload read from the peer.
    ///
    /// On a relay connection the payload is a bare frame: it is opened and
    /// its text returned. On a direct connection it is an envelope: a text
    /// message is opened and its text returned; a key-rotation request
    /// rotates the engine's keys and returns nothing; a heartbeat returns
    /// nothing. Only a key-rotation request changes the engine; a frame
    /// that fails to open, a heartbeat and a malformed payload leave keys
    /// and epoch as they were.
    pub fn receive_message(&self, crypto: &mut SilenceCrypto, payload: &[u8]) -> (received: Result<
        Option<String>,
        NetworkError,
    >)
        ensures
            final(crypto)@.rotation_interval_secs == old(crypto)@.rotation_interval_secs,
            final(crypto)@.master == master_after_receive(
                self@.is_relay,
                old(crypto)@.master,
                payload@,
            ),
            !is_rotation_request(self@.is_relay, payload@) ==> final(crypto)@ == old(crypto)@,
            is_rotation_request(self@.is_relay, payload@) ==> final(crypto)@ == key_state(
                next_master(old(crypto)@.master),
                old(crypto)@.rotation_interval_secs,
                final(crypto)@.epoch,
            ),
            delivers(received, receive_outcome(self@.is_relay, old(crypto)@.master, payload@)),
    {
        if self.is_relay {
            let frame = decode_frame(payload)?;
            open_text(crypto, &frame)
        } else {
            let message = decode_envelope(payload)?;
            match message.message_type {
                MessageType::Text => open_text(crypto, &message.encrypted_data),
                MessageType::KeyRotation => {
                    match crypto.rotate_keys() {
                        Ok(()) => Ok(None),
                        Err(e) => Err(NetworkError::Crypto(e)),
                    }
                },
                MessageType::Heartbeat => Ok(None),
            }
        }
    }
}

/// What the reader makes of a failed attempt to read a payload: whatever
/// the failure, the end of the stream included, it is a connection error,
/// for a frame must not end early.
pub fn payload_failed(failure: IoFailure) -> (error: NetworkError)
    ensures
        error == NetworkError::Connection(failure),
{
    NetworkError::Connection(failure)
}

/// What the reader makes of a failed attempt to read a length prefix: a
/// stream that ended at a frame boundary is a graceful close, reported as
/// no message; any other failure is a connection error.
pub fn closed_or_failed(failure: IoFailure) -> (outcome: Result<Option<String>, NetworkError>)
    ensures
        failure.kind == IoFailureKind::UnexpectedEof ==> outcome matches Ok(None),
        failure.kind != IoFailureKind::UnexpectedEof ==> outcome == Err::<
            Option<String>,
            NetworkError,
        >(NetworkError::Connection(failure)),
{
    match failure.kind {
        IoFailureKind::UnexpectedEof => Ok(None),
        _ => Err(NetworkError::Connection(failure)),
    }
}

/// A text sealed by one peer is the text the other peer receives: when the
/// receiver holds the master secret the frame was sealed under, receiving
/// the payload of a text message returns exactly the text sent, in either
/// mode.
pub proof fn lemma_text_survives_the_wire(
    is_relay: bool,
    master: Seq<u8>,
    message: EnvelopeView,
    text: Seq<char>,
)
    requires
        seals(master, message.frame, vstd::utf8::encode_utf8(text)),
        message.tag == MessageType::Text.tag_spec(),
        frame_well_formed(message.frame),
        vstd::utf8::encode_utf8(message.id).len() < 0x1_0000_0000_0000_0000,
    ensures
        receive_outcome(is_relay, master, outgoing_payload(is_relay, message)) == Received::Text(
            text,
        ),
        master_after_receive(is_relay, master, outgoing_payload(is_relay, message)) == master,
{
    let payload = outgoing_payload(is_relay, message);
    assert(payload + Seq::<u8>::empty() =~= payload);
    lemma_parse_frame_inverts(message.frame, Seq::empty());
    lemma_parse_envelope_inverts(message, Seq::empty());
    vstd::utf8::encode_utf8_valid_utf8(text);
    vstd::utf8::encode_utf8_decode_utf8(text);
}

} // verus!
