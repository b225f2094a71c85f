//! The cryptographic and system primitives the protocol is built on.
//!
//! Everything in this module is a thin binding to code that lives outside the
//! crate. The contracts here are taken on trust; the rest of the crate is
//! proved from them.

use vstd::prelude::*;

verus! {

/// Length in bytes of an AEAD nonce.
pub const NONCE_LEN: usize = 12;

/// Length in bytes of the authentication tag that sealing appends.
pub const TAG_LEN: usize = 16;

/// Number of 64-byte keystream blocks one nonce has for a message: the
/// cipher's 32-bit block counter, less the block that keys the
/// authenticator.
pub const KEYSTREAM_BLOCKS: usize = 0xffff_fffe;

/// Whether one nonce's keystream covers a message of `len` bytes. A started
/// block counts as a whole one.
pub open spec fn within_keystream(len: nat) -> bool {
    (len + 63) / 64 <= KEYSTREAM_BLOCKS
}

// ---------------------------------------------------------------------------
// HKDF-SHA256
// ---------------------------------------------------------------------------

/// The 32-byte output of HKDF-SHA256 (RFC 5869, extract-then-expand) for the
/// given optional salt, input key material and info string.
pub uninterp spec fn hkdf_sha256_32(salt: Option<Seq<u8>>, ikm: Seq<u8>, info: Seq<u8>) -> Seq<u8>;

#[verifier::external_type_specification]
#[verifier::external_body]
pub struct ExInvalidLength(hkdf::InvalidLength);

/// The view of an optional salt.
pub open spec fn salt_view(salt: Option<&[u8; 32]>) -> Option<Seq<u8>> {
    match salt {
        Some(s) => Some(s@),
        None => None,
    }
}

/// `hkdf::Hkdf::<Sha256>::new(salt, ikm)` followed by `expand(info, okm)` on a
/// 32-byte output buffer.
///
/// The output depends on the three inputs alone. `expand` refuses only
/// requests longer than 255 hash blocks, so a 32-byte request always succeeds.
#[verifier::external_body]
pub(crate) fn hkdf_expand_32(salt: Option<&[u8; 32]>, ikm: &[u8; 32], info: &[u8]) -> (okm: Result<
    [u8; 32],
    hkdf::InvalidLength,
>)
    ensures
        okm is Ok,
        okm matches Ok(k) ==> k@ == hkdf_sha256_32(salt_view(salt), ikm@, info@),
{
    let mut out = [0u8; 32];
    let hk = hkdf::Hkdf::<sha2::Sha256>::new(salt.map(|s| &s[..]), &ikm[..]);
    hk.expand(info, &mut out).map(|_| out)
}

// ---------------------------------------------------------------------------
// ChaCha20-Poly1305
// ---------------------------------------------------------------------------

/// The ChaCha20-Poly1305 ciphertext, tag included, of `plaintext` under a
/// 32-byte key and a 12-byte nonce with empty associated data.
pub uninterp spec fn chacha20poly1305_seal(key: Seq<u8>, nonce: Seq<u8>, plaintext: Seq<u8>) -> Seq<
    u8,
>;

/// What opening `ciphertext` under the key and nonce yields with empty
/// associated data: the plaintext, or nothing when authentication fails.
pub uninterp spec fn chacha20poly1305_open(key: Seq<u8>, nonce: Seq<u8>, ciphertext: Seq<u8>) -> Option<
    Seq<u8>,
>;

#[verifier::external_type_specification]
#[verifier::external_body]
pub struct ExAeadError(chacha20poly1305::aead::Error);

/// `ChaCha20Poly1305::new(key).encrypt(nonce, plaintext)`.
///
/// The call succeeds on every message the keystream covers; on a longer
/// one it fails or, where only the last started block is missing, does not
/// return, which the precondition rules out. The ciphertext is the message
/// followed by the 16-byte tag, depends on key, nonce and message alone, and
/// opens to the message under the same key and nonce. The precondition also
/// keeps the output buffer within what a vector can hold.
#[verifier::external_body]
pub(crate) fn aead_seal(key: &[u8; 32], nonce: &[u8; 12], plaintext: &[u8]) -> (sealed: Result<
    Vec<u8>,
    chacha20poly1305::aead::Error,
>)
    requires
        plaintext@.len() + TAG_LEN <= isize::MAX,
        within_keystream(plaintext@.len()),
    ensures
        sealed is Ok,
        sealed matches Ok(c) ==> c@ == chacha20poly1305_seal(key@, nonce@, plaintext@),
        sealed matches Ok(c) ==> c@.len() == plaintext@.len() + TAG_LEN,
        sealed matches Ok(c) ==> chacha20poly1305_open(key@, nonce@, c@) == Some(plaintext@),
{
    let cipher = <chacha20poly1305::ChaCha20Poly1305 as chacha20poly1305::KeyInit>::new(
        chacha20poly1305::Key::from_slice(&key[..]),
    );
    chacha20poly1305::aead::Aead::encrypt(
        &cipher,
        chacha20poly1305::Nonce::from_slice(&nonce[..]),
        plaintext,
    )
}

/// `ChaCha20Poly1305::new(key).decrypt(nonce, ciphertext)`.
///
/// The outcome depends on key, nonce and ciphertext alone; the cipher either
/// returns the authenticated plaintext or reports a failure. It refuses a
/// ciphertext shorter than the tag, and a plaintext it returns is one tag
/// shorter than the ciphertext. The precondition leaves out ciphertexts
/// whose message part the keystream does not cover: on some of those the
/// call does not return.
#[verifier::external_body]
pub(crate) fn aead_open(key: &[u8; 32], nonce: &[u8; 12], ciphertext: &[u8]) -> (opened: Result<
    Vec<u8>,
    chacha20poly1305::aead::Error,
>)
    requires
        ciphertext@.len() < TAG_LEN || within_keystream((ciphertext@.len() - TAG_LEN) as nat),
    ensures
        opened is Ok <==> chacha20poly1305_open(key@, nonce@, ciphertext@) is Some,
        opened matches Ok(p) ==> chacha20poly1305_open(key@, nonce@, ciphertext@) == Some(p@),
        opened matches Ok(p) ==> p@.len() + TAG_LEN == ciphertext@.len(),
        ciphertext@.len() < TAG_LEN ==> opened is Err,
{
    let cipher = <chacha20poly1305::ChaCha20Poly1305 as chacha20poly1305::KeyInit>::new(
        chacha20poly1305::Key::from_slice(&key[..]),
    );
    chacha20poly1305::aead::Aead::decrypt(
        &cipher,
        chacha20poly1305::Nonce::from_slice(&nonce[..]),
        ciphertext,
    )
}

// ---------------------------------------------------------------------------
// Operating-system randomness
// ---------------------------------------------------------------------------

#[verifier::external_type_specification]
#[verifier::external_body]
pub struct ExRandError(rand::Error);

/// `rand::rngs::OsRng.try_fill_bytes` on a fresh `N`-byte buffer.
///
/// Nothing is promised about the bytes drawn, nor that the operating system
/// delivers any.
#[verifier::external_body]
pub(crate) fn os_random<const N: usize>() -> (drawn: Result<[u8; N], rand::Error>) {
    let mut buf = [0u8; N];
    rand::RngCore::try_fill_bytes(&mut rand::rngs::OsRng, &mut buf).map(|_| buf)
}

// ---------------------------------------------------------------------------
// Clocks
// ---------------------------------------------------------------------------

#[verifier::external_type_specification]
#[verifier::external_body]
pub struct ExInstant(std::time::Instant);

#[verifier::external_type_specification]
#[verifier::external_body]
pub struct ExSystemTime(std::time::SystemTime);

#[verifier::external_type_specification]
#[verifier::external_body]
pub struct ExSystemTimeError(std::time::SystemTimeError);

/// The monotonic clock. Nothing is known of the reading.
pub assume_specification[ std::time::Instant::now ]() -> (now: std::time::Instant);

/// Time passed on the monotonic clock since `start`. Nothing is known of it.
pub assume_specification[ std::time::Instant::elapsed ](start: &std::time::Instant) -> (d:
    core::time::Duration);

/// The whole seconds of a duration.
pub assume_specification[ core::time::Duration::as_secs ](d: &core::time::Duration) -> (secs: u64);

/// The fractional part of a duration in nanoseconds, always below one second.
pub assume_specification[ core::time::Duration::subsec_nanos ](d: &core::time::Duration) -> (nanos:
    u32)
    ensures
        nanos < 1_000_000_000,
;

/// The wall clock. Nothing is known of the reading.
pub assume_specification[ std::time::SystemTime::now ]() -> (now: std::time::SystemTime);

/// `SystemTime::duration_since(UNIX_EPOCH)`: the time since the Unix epoch,
/// or an error when the clock reads earlier than the epoch.
#[verifier::external_body]
pub(crate) fn since_unix_epoch(t: &std::time::SystemTime) -> (r: Result<
    core::time::Duration,
    std::time::SystemTimeError,
>) {
    t.duration_since(std::time::UNIX_EPOCH)
}

// ---------------------------------------------------------------------------
// Text
// ---------------------------------------------------------------------------

#[verifier::external_type_specification]
#[verifier::external_body]
pub struct ExFromUtf8Error(std::string::FromUtf8Error);

/// `String::from_utf8`: succeeds exactly on well-formed UTF-8 and then yields
/// the string whose encoding the bytes are.
#[verifier::external_body]
pub(crate) fn string_from_utf8(bytes: Vec<u8>) -> (r: Result<String, std::string::FromUtf8Error>)
    ensures
        r is Ok <==> vstd::utf8::valid_utf8(bytes@),
        r matches Ok(s) ==> vstd::utf8::encode_utf8(s@) == bytes@,
{
    String::from_utf8(bytes)
}

// ---------------------------------------------------------------------------
// Identifiers
// ---------------------------------------------------------------------------

/// The number a big-endian byte string stands for.
pub open spec fn be_value(bytes: Seq<u8>) -> nat
    decreases bytes.len(),
{
    if bytes.len() == 0 {
        0
    } else {
        be_value(bytes.drop_last()) * 256 + bytes.last() as nat
    }
}

/// The bytes of the version-4 UUID that 16 random bytes determine: the
/// version is stamped on the high half of byte 6, the variant on the two
/// high bits of byte 8, and every other bit is kept.
pub open spec fn uuid_v4_bytes(random: Seq<u8>) -> Seq<u8> {
    random.update(6, (random[6] & 0x0f) | 0x40).update(8, (random[8] & 0x3f) | 0x80)
}

/// The version-4 UUID that 16 random bytes determine, read as a 128-bit
/// number with the first byte highest.
pub open spec fn uuid_v4_value(random: Seq<u8>) -> u128 {
    be_value(uuid_v4_bytes(random)) as u128
}

/// The lower-case character of a hexadecimal digit.
pub open spec fn hex_digit(digit: nat) -> char {
    if digit == 0 {
        '0'
    } else if digit == 1 {
        '1'
    } else if digit == 2 {
        '2'
    } else if digit == 3 {
        '3'
    } else if digit == 4 {
        '4'
    } else if digit == 5 {
        '5'
    } else if digit == 6 {
        '6'
    } else if digit == 7 {
        '7'
    } else if digit == 8 {
        '8'
    } else if digit == 9 {
        '9'
    } else if digit == 10 {
        'a'
    } else if digit == 11 {
        'b'
    } else if digit == 12 {
        'c'
    } else if digit == 13 {
        'd'
    } else if digit == 14 {
        'e'
    } else {
        'f'
    }
}

/// Sixteen to the power `n`.
pub open spec fn sixteen_to(n: nat) -> nat
    decreases n,
{
    if n == 0 {
        1
    } else {
        16 * sixteen_to((n - 1) as nat)
    }
}

/// The hexadecimal digit at place `k` of the 32 digits of a 128-bit number,
/// the highest digit at place 0.
pub open spec fn hex_place(value: u128, k: int) -> nat {
    ((value as nat) / sixteen_to((31 - k) as nat)) % 16
}

/// Whether place `i` of a UUID text holds a hyphen.
pub open spec fn is_hyphen_place(i: int) -> bool {
    i == 8 || i == 13 || i == 18 || i == 23
}

/// The number of hyphens before place `i` of a UUID text.
pub open spec fn hyphens_before(i: int) -> int {
    if i < 8 {
        0
    } else if i < 13 {
        1
    } else if i < 18 {
        2
    } else if i < 23 {
        3
    } else {
        4
    }
}

/// The hyphenated text of a UUID given as a 128-bit number: its 32
/// hexadecimal digits in lower case, highest first, with hyphens after the
/// 8th, 12th, 16th and 20th digit.
pub open spec fn uuid_text(value: u128) -> Seq<char> {
    Seq::new(
        36,
        |i: int|
            if is_hyphen_place(i) {
                '-'
            } else {
                hex_digit(hex_place(value, i - hyphens_before(i)))
            },
    )
}

/// `uuid::Builder::from_random_bytes(random).into_uuid()`, read as a number.
///
/// The builder stamps the variant on byte 8 and the version on byte 6 and
/// keeps the rest; the number is the sixteen bytes read big-endian.
#[verifier::external_body]
pub(crate) fn uuid_v4_from_random(random: [u8; 16]) -> (value: u128)
    ensures
        value == uuid_v4_value(random@),
{
    uuid::Builder::from_random_bytes(random).into_uuid().as_u128()
}

/// `uuid::Uuid::from_u128(value).to_string()`.
///
/// The text is the hyphenated lower-case form of the number.
#[verifier::external_body]
pub(crate) fn uuid_to_text(value: u128) -> (text: String)
    ensures
        text@ == uuid_text(value),
{
    uuid::Uuid::from_u128(value).to_string()
}

} // verus!
