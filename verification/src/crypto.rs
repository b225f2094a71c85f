//! The ephemeral key cascade and the authenticated-encryption engine.
//!
//! A 32-byte master secret determines three working keys through
//! HKDF-SHA256. Rotation replaces the master by a key derived from the
//! current master salted with the current session key, so the whole cascade
//! is a function of the first master. Messages are sealed with
//! ChaCha20-Poly1305 under the current encryption key and a fresh nonce.

use vstd::prelude::*;
use crate::primitives::{
    aead_open,
    aead_seal,
    chacha20poly1305_open,
    chacha20poly1305_seal,
    hkdf_expand_32,
    hkdf_sha256_32,
    os_random,
    since_unix_epoch,
    NONCE_LEN,
    within_keystream,
    KEYSTREAM_BLOCKS,
    TAG_LEN,
};

verus! {

/// Why a cryptographic operation failed.
#[derive(Debug, Clone, Copy, PartialEq, Eq, Structural)]
pub enum CryptoError {
    /// The operating system delivered no random bytes.
    KeyGeneration,
    /// The message is longer than the cipher can seal.
    Encryption,
    /// The ciphertext did not authenticate under the current key.
    Decryption,
    /// The key-derivation function refused the request.
    KeyDerivation,
    /// A nonce of the wrong shape was supplied.
    InvalidNonce,
}

impl CryptoError {
    /// The diagnostic text of the error.
    pub open spec fn message_spec(self) -> Seq<char> {
        match self {
            CryptoError::KeyGeneration => "Key generation failed"@,
            CryptoError::Encryption => "Encryption failed"@,
            CryptoError::Decryption => "Decryption failed"@,
            CryptoError::KeyDerivation => "Key derivation failed"@,
            CryptoError::InvalidNonce => "Invalid nonce"@,
        }
    }

    /// The diagnostic text of the error.
    pub fn message(&self) -> (text: String)
        ensures
            text@ == self.message_spec(),
    {
        match self {
            CryptoError::KeyGeneration => "Key generation failed".to_owned(),
            CryptoError::Encryption => "Encryption failed".to_owned(),
            CryptoError::Decryption => "Decryption failed".to_owned(),
            CryptoError::KeyDerivation => "Key derivation failed".to_owned(),
            CryptoError::InvalidNonce => "Invalid nonce".to_owned(),
        }
    }
}

// ---------------------------------------------------------------------------
// The cascade as mathematics
// ---------------------------------------------------------------------------

/// Domain-separation label of the session key.
pub open spec fn session_label() -> Seq<u8> {
    vstd::utf8::encode_utf8("SILENCE_SESSION_KEY"@)
}

/// Domain-separation label of the encryption key.
pub open spec fn encryption_label() -> Seq<u8> {
    vstd::utf8::encode_utf8("SILENCE_ENCRYPT_KEY"@)
}

/// Domain-separation label of the MAC key.
pub open spec fn mac_label() -> Seq<u8> {
    vstd::utf8::encode_utf8("SILENCE_MAC_KEY"@)
}

/// Domain-separation label of the next master secret.
pub open spec fn new_master_label() -> Seq<u8> {
    vstd::utf8::encode_utf8("SILENCE_NEW_MASTER"@)
}

/// The session key that belongs to a master secret.
pub open spec fn session_key_of(master: Seq<u8>) -> Seq<u8> {
    hkdf_sha256_32(None, master, session_label())
}

/// The encryption key that belongs to a master secret.
pub open spec fn encryption_key_of(master: Seq<u8>) -> Seq<u8> {
    hkdf_sha256_32(None, master, encryption_label())
}

/// The MAC key that belongs to a master secret.
pub open spec fn mac_key_of(master: Seq<u8>) -> Seq<u8> {
    hkdf_sha256_32(None, master, mac_label())
}

/// The master secret that one rotation puts in place of `master`: derived
/// from `master` with its own session key as salt.
pub open spec fn next_master(master: Seq<u8>) -> Seq<u8> {
    hkdf_sha256_32(Some(session_key_of(master)), master, new_master_label())
}

/// Whether keys that have been in use for `elapsed_secs` whole seconds have
/// outlived a rotation interval of `interval_secs`.
pub open spec fn rotation_due(elapsed_secs: u64, interval_secs: u64) -> bool {
    elapsed_secs >= interval_secs
}

/// Nanoseconds in a second.
pub const NANOS_PER_SEC: u32 = 1_000_000_000;

/// Whole seconds left of a rotation interval once `elapsed_secs` seconds and
/// `elapsed_nanos` nanoseconds of it have passed; zero when it is used up.
pub open spec fn remaining_seconds(interval_secs: u64, elapsed_secs: u64, elapsed_nanos: u32) -> int {
    let left = interval_secs * NANOS_PER_SEC - (elapsed_secs * NANOS_PER_SEC + elapsed_nanos);
    if left <= 0 {
        0
    } else {
        left / (NANOS_PER_SEC as int)
    }
}

/// Whether the engine seals a message of `len` bytes: the keystream covers
/// it, and a buffer can hold it with its tag.
pub open spec fn sealable(len: nat) -> bool {
    len + TAG_LEN <= isize::MAX && within_keystream(len)
}

/// Whether the engine tries to open a ciphertext of `len` bytes: it does
/// unless the keystream does not cover the message part.
pub open spec fn openable(len: nat) -> bool {
    len < TAG_LEN || within_keystream((len - TAG_LEN) as nat)
}

// ---------------------------------------------------------------------------
// Key material
// ---------------------------------------------------------------------------

/// The abstract state of a key cascade.
pub ghost struct KeyState {
    /// The current master secret.
    pub master: Seq<u8>,
    /// The session key; it salts the derivation of the next master.
    pub session_key: Seq<u8>,
    /// The key messages are sealed under.
    pub encryption_key: Seq<u8>,
    /// The MAC key.
    pub mac_key: Seq<u8>,
    /// Seconds a key generation stays valid.
    pub rotation_interval_secs: u64,
    /// When the current generation was put in place.
    pub epoch: std::time::Instant,
}

/// The state of a cascade on a given master secret: the three working keys
/// are the ones that belong to the master.
pub open spec fn key_state(master: Seq<u8>, rotation_interval_secs: u64, epoch: std::time::Instant) -> KeyState {
    KeyState {
        master,
        session_key: session_key_of(master),
        encryption_key: encryption_key_of(master),
        mac_key: mac_key_of(master),
        rotation_interval_secs,
        epoch,
    }
}

/// Whether the working keys of a state are the ones that belong to its
/// master secret. It holds of every cascade.
pub open spec fn follows_cascade(state: KeyState) -> bool {
    state == key_state(state.master, state.rotation_interval_secs, state.epoch)
}

/// One generation of key material together with its epoch.
pub struct EphemeralKeys {
    master_key: [u8; 32],
    session_key: [u8; 32],
    encryption_key: [u8; 32],
    mac_key: [u8; 32],
    created_at: std::time::Instant,
    rotation_interval_secs: u64,
}

impl View for EphemeralKeys {
    type V = KeyState;

    closed spec fn view(&self) -> KeyState {
        KeyState {
            master: self.master_key@,
            session_key: self.session_key@,
            encryption_key: self.encryption_key@,
            mac_key: self.mac_key@,
            rotation_interval_secs: self.rotation_interval_secs,
            epoch: self.created_at,
        }
    }
}

/// Decides from a clock reading whether rotation is due.
pub fn is_rotation_due(elapsed_secs: u64, interval_secs: u64) -> (due: bool)
    ensures
        due == rotation_due(elapsed_secs, interval_secs),
{
    elapsed_secs >= interval_secs
}

/// Computes the whole seconds left of an interval from a clock reading.
pub fn seconds_remaining(interval_secs: u64, elapsed_secs: u64, elapsed_nanos: u32) -> (left: u64)
    ensures
        left == remaining_seconds(interval_secs, elapsed_secs, elapsed_nanos),
{
    assert(interval_secs * 1_000_000_000 <= 0xffff_ffff_ffff_ffff * 1_000_000_000);
    assert(elapsed_secs * 1_000_000_000 <= 0xffff_ffff_ffff_ffff * 1_000_000_000);
    let whole: u128 = (interval_secs as u128) * 1_000_000_000;
    let gone: u128 = (elapsed_secs as u128) * 1_000_000_000 + (elapsed_nanos as u128);
    if gone >= whole {
        0
    } else {
        let left: u128 = (whole - gone) / 1_000_000_000;
        assert(left <= interval_secs);
        left as u64
    }
}

impl EphemeralKeys {
    #[verifier::type_invariant]
    spec fn keys_follow_master(self) -> bool {
        &&& self.session_key@ == session_key_of(self.master_key@)
        &&& self.encryption_key@ == encryption_key_of(self.master_key@)
        &&& self.mac_key@ == mac_key_of(self.master_key@)
    }

    /// Derives one working key from a master secret.
    fn derive(master: &[u8; 32], label: &str) -> (key: Result<[u8; 32], CryptoError>)
        ensures
            key is Ok,
            key matches Ok(k) ==> k@ == hkdf_sha256_32(None, master@, vstd::utf8::encode_utf8(label@)),
    {
        match hkdf_expand_32(None, master, label.as_bytes()) {
            Ok(k) => Ok(k),
            Err(_) => Err(CryptoError::KeyDerivation),
        }
    }

    /// Starts a cascade from a given master secret with the epoch set to
    /// `now`: the three working keys are derived from the master.
    pub fn from_master_at(
        master: [u8; 32],
        now: std::time::Instant,
        rotation_interval_secs: u64,
    ) -> (keys: Result<Self, CryptoError>)
        ensures
            keys is Ok,
            keys matches Ok(k) ==> k@ == key_state(master@, rotation_interval_secs, now),
    {
        let session_key = Self::derive(&master, "SILENCE_SESSION_KEY")?;
        let encryption_key = Self::derive(&master, "SILENCE_ENCRYPT_KEY")?;
        let mac_key = Self::derive(&master, "SILENCE_MAC_KEY")?;
        Ok(
            EphemeralKeys {
                master_key: master,
                session_key,
                encryption_key,
                mac_key,
                created_at: now,
                rotation_interval_secs,
            },
        )
    }

    /// Starts a cascade from a given master secret, with the epoch set to the
    /// present moment.
    pub fn from_master(master: [u8; 32], rotation_interval_secs: u64) -> (keys: Result<
        Self,
        CryptoError,
    >)
        ensures
            keys is Ok,
            keys matches Ok(k) ==> k@ == key_state(master@, rotation_interval_secs, k@.epoch),
    {
        let now = std::time::Instant::now();
        Self::from_master_at(master, now, rotation_interval_secs)
    }

    /// Starts a cascade from 32 fresh random bytes, with the epoch set to the
    /// present moment. Fails with `KeyGeneration` when the operating system
    /// delivers no randomness.
    pub fn new(rotation_interval_secs: u64) -> (keys: Result<Self, CryptoError>)
        ensures
            keys matches Ok(k) ==> k@.rotation_interval_secs == rotation_interval_secs
                && follows_cascade(k@),
            keys matches Err(e) ==> e == CryptoError::KeyGeneration,
    {
        match os_random::<32>() {
            Ok(master) => Self::from_master(master, rotation_interval_secs),
            Err(_) => Err(CryptoError::KeyGeneration),
        }
    }

    /// Whether the current generation has outlived the rotation interval. An
    /// interval of zero is always outlived.
    pub fn should_rotate(&self) -> (due: bool)
        ensures
            self@.rotation_interval_secs == 0 ==> due,
    {
        let elapsed = self.created_at.elapsed();
        is_rotation_due(elapsed.as_secs(), self.rotation_interval_secs)
    }

    /// Whole seconds until rotation falls due, zero once it is due.
    pub fn seconds_until_rotation(&self) -> (left: u64)
        ensures
            left <= self@.rotation_interval_secs,
    {
        let elapsed = self.created_at.elapsed();
        seconds_remaining(self.rotation_interval_secs, elapsed.as_secs(), elapsed.subsec_nanos())
    }

    /// Replaces the master secret by its successor, re-derives the working
    /// keys and resets the epoch to `now`.
    pub fn rotate_at(&mut self, now: std::time::Instant) -> (done: Result<(), CryptoError>)
        ensures
            done is Ok,
            final(self)@ == key_state(
                next_master(old(self)@.master),
                old(self)@.rotation_interval_secs,
                now,
            ),
    {
        proof {
            use_type_invariant(&*self);
        }
        let label = "SILENCE_NEW_MASTER";
        let master = match hkdf_expand_32(Some(&self.session_key), &self.master_key, label.as_bytes()) {
            Ok(k) => k,
            Err(_) => {
                return Err(CryptoError::KeyDerivation);
            },
        };
        let next = Self::from_master_at(master, now, self.rotation_interval_secs)?;
        *self = next;
        Ok(())
    }

    /// Replaces the master secret by its successor, re-derives the working
    /// keys and resets the epoch to the present moment.
    pub fn rotate(&mut self) -> (done: Result<(), CryptoError>)
        ensures
            done is Ok,
            final(self)@ == key_state(
                next_master(old(self)@.master),
                old(self)@.rotation_interval_secs,
                final(self)@.epoch,
            ),
    {
        let now = std::time::Instant::now();
        self.rotate_at(now)
    }

    /// The key messages are currently sealed under: the encryption key that
    /// belongs to the master secret, as all three working keys do.
    pub fn encryption_key(&self) -> (key: &[u8; 32])
        ensures
            key@ == self@.encryption_key,
            key@ == encryption_key_of(self@.master),
            follows_cascade(self@),
    {
        proof {
            use_type_invariant(self);
        }
        &self.encryption_key
    }
}

// ---------------------------------------------------------------------------
// Sealed messages
// ---------------------------------------------------------------------------

/// The abstract content of a sealed message.
pub ghost struct FrameView {
    /// The 12-byte nonce the message was sealed with.
    pub nonce: Seq<u8>,
    /// The ciphertext, authentication tag included.
    pub ciphertext: Seq<u8>,
    /// Unix seconds at sealing time; informational.
    pub timestamp: u64,
}

/// The unit of ciphertext that travels between peers.
#[derive(Debug, Clone, PartialEq, Eq)]
pub struct EncryptedMessage {
    /// Random per message; never reused under one encryption key.
    pub nonce: [u8; 12],
    /// The AEAD output, authentication tag included.
    pub ciphertext: Vec<u8>,
    /// Unix seconds at sealing time; informational.
    pub timestamp: u64,
}

impl View for EncryptedMessage {
    type V = FrameView;

    open spec fn view(&self) -> FrameView {
        FrameView { nonce: self.nonce@, ciphertext: self.ciphertext@, timestamp: self.timestamp }
    }
}

/// Whether `frame` is `plaintext` sealed under the encryption key of
/// `master`: the ciphertext is the cipher's output for the frame's nonce, it
/// is one tag longer than the message, and it opens to the message again.
pub open spec fn seals(master: Seq<u8>, frame: FrameView, plaintext: Seq<u8>) -> bool {
    &&& frame.nonce.len() == NONCE_LEN
    &&& within_keystream(plaintext.len())
    &&& frame.ciphertext == chacha20poly1305_seal(encryption_key_of(master), frame.nonce, plaintext)
    &&& frame.ciphertext.len() == plaintext.len() + TAG_LEN
    &&& chacha20poly1305_open(encryption_key_of(master), frame.nonce, frame.ciphertext) == Some(
        plaintext,
    )
}

/// What decrypting `frame` under the encryption key of `master` returns:
/// the plaintext the cipher opens it to, and `Decryption` where the cipher
/// opens nothing or the ciphertext is longer than the engine tries to open.
pub open spec fn decrypt_result(master: Seq<u8>, frame: FrameView) -> Result<Seq<u8>, CryptoError> {
    if !openable(frame.ciphertext.len()) {
        Err(CryptoError::Decryption)
    } else {
        match chacha20poly1305_open(encryption_key_of(master), frame.nonce, frame.ciphertext) {
            Some(plaintext) => Ok(plaintext),
            None => Err(CryptoError::Decryption),
        }
    }
}

/// Decryption undoes encryption: a frame sealed under a master secret
/// decrypts to the sealed plaintext as long as the master has not changed,
/// that is, as long as no rotation came between.
pub proof fn lemma_decrypt_inverts_encrypt(master: Seq<u8>, frame: FrameView, plaintext: Seq<u8>)
    requires
        seals(master, frame, plaintext),
    ensures
        decrypt_result(master, frame) == Ok::<Seq<u8>, CryptoError>(plaintext),
{
}

/// Decides whether one nonce's keystream covers a message of `len` bytes.
fn keystream_covers(len: usize) -> (covers: bool)
    ensures
        covers == within_keystream(len as nat),
{
    let whole: u64 = (len / 64) as u64;
    let started: u64 = if len % 64 == 0 {
        0
    } else {
        1
    };
    whole + started <= KEYSTREAM_BLOCKS as u64
}

/// Decides whether the engine seals a message of `len` bytes.
pub fn is_sealable(len: usize) -> (yes: bool)
    ensures
        yes == sealable(len as nat),
{
    len <= (isize::MAX as usize) - TAG_LEN && keystream_covers(len)
}

/// Reads the wall clock in whole Unix seconds. A clock set before the epoch
/// reads as zero.
fn unix_timestamp() -> u64 {
    let now = std::time::SystemTime::now();
    match since_unix_epoch(&now) {
        Ok(d) => d.as_secs(),
        Err(_) => 0,
    }
}

// ---------------------------------------------------------------------------
// The engine
// ---------------------------------------------------------------------------

/// The encryption engine: a key cascade and the cipher that uses it.
pub struct SilenceCrypto {
    keys: EphemeralKeys,
}

impl View for SilenceCrypto {
    type V = KeyState;

    closed spec fn view(&self) -> KeyState {
        self.keys@
    }
}

impl SilenceCrypto {
    /// Creates an engine with a fresh random master secret. Fails with
    /// `KeyGeneration` when the operating system delivers no randomness.
    pub fn new(rotation_interval_secs: u64) -> (engine: Result<Self, CryptoError>)
        ensures
            engine matches Ok(c) ==> c@.rotation_interval_secs == rotation_interval_secs
                && follows_cascade(c@),
            engine matches Err(e) ==> e == CryptoError::KeyGeneration,
    {
        let keys = EphemeralKeys::new(rotation_interval_secs)?;
        Ok(SilenceCrypto { keys })
    }

    /// Creates an engine on a given master secret, as two peers that share a
    /// secret do.
    pub fn from_master(master: [u8; 32], rotation_interval_secs: u64) -> (engine: Result<
        Self,
        CryptoError,
    >)
        ensures
            engine is Ok,
            engine matches Ok(c) ==> c@ == key_state(master@, rotation_interval_secs, c@.epoch),
    {
        let keys = EphemeralKeys::from_master(master, rotation_interval_secs)?;
        Ok(SilenceCrypto { keys })
    }

    /// The key messages are currently sealed under: the encryption key that
    /// belongs to the master secret, as all three working keys do.
    pub fn encryption_key(&self) -> (key: &[u8; 32])
        ensures
            key@ == self@.encryption_key,
            key@ == encryption_key_of(self@.master),
            follows_cascade(self@),
    {
        self.keys.encryption_key()
    }

    /// Seals `plaintext` under the current encryption key with the nonce and
    /// timestamp given. The caller answers for the nonce: it must never be
    /// used twice under one key.
    ///
    /// Fails with `Encryption` exactly when the message is longer than one
    /// nonce's keystream covers; the cipher is not called then.
    pub fn seal_with_nonce(&self, plaintext: &[u8], nonce: [u8; 12], timestamp: u64) -> (sealed:
        Result<EncryptedMessage, CryptoError>)
        ensures
            sealed is Ok <==> sealable(plaintext@.len()),
            sealed matches Ok(m) ==> m.nonce == nonce && m.timestamp == timestamp && seals(
                self@.master,
                m@,
                plaintext@,
            ),
            sealed matches Err(e) ==> e == CryptoError::Encryption,
    {
        if !is_sealable(plaintext.len()) {
            return Err(CryptoError::Encryption);
        }
        match aead_seal(self.keys.encryption_key(), &nonce, plaintext) {
            Ok(ciphertext) => Ok(EncryptedMessage { nonce, ciphertext, timestamp }),
            Err(_) => Err(CryptoError::Encryption),
        }
    }

    /// Seals `plaintext` given what the clocks and the random source
    /// delivered: `elapsed_secs`, the age of the current keys in whole
    /// seconds; `now`, the present moment; a nonce and a timestamp.
    ///
    /// When the keys have outlived the rotation interval they are rotated
    /// first and the epoch is set to `now`, also where sealing then fails.
    /// The message is sealed under the encryption key then current. Fails
    /// with `Encryption` exactly when the cipher cannot take a message of
    /// that length. The caller answers for the nonce.
    pub fn encrypt_at(
        &mut self,
        plaintext: &[u8],
        elapsed_secs: u64,
        now: std::time::Instant,
        nonce: [u8; 12],
        timestamp: u64,
    ) -> (sealed: Result<EncryptedMessage, CryptoError>)
        ensures
            final(self)@ == if rotation_due(elapsed_secs, old(self)@.rotation_interval_secs) {
                key_state(next_master(old(self)@.master), old(self)@.rotation_interval_secs, now)
            } else {
                old(self)@
            },
            sealed is Ok <==> sealable(plaintext@.len()),
            sealed matches Ok(m) ==> m.nonce == nonce && m.timestamp == timestamp && seals(
                final(self)@.master,
                m@,
                plaintext@,
            ),
            sealed matches Err(e) ==> e == CryptoError::Encryption,
    {
        if is_rotation_due(elapsed_secs, self.keys.rotation_interval_secs) {
            match self.keys.rotate_at(now) {
                Ok(()) => {},
                Err(e) => {
                    return Err(e);
                },
            }
        }
        self.seal_with_nonce(plaintext, nonce, timestamp)
    }

    /// Seals `plaintext` for the peer. Rotates the keys first when rotation
    /// is due, then seals under the encryption key then current with a fresh
    /// random nonce and empty associated data.
    ///
    /// Fails with `KeyGeneration` when no nonce could be drawn, in which
    /// case the keys are left as they were, and with `Encryption` when the
    /// cipher cannot take a message of that length.
    pub fn encrypt(&mut self, plaintext: &[u8]) -> (sealed: Result<EncryptedMessage, CryptoError>)
        ensures
            final(self)@.rotation_interval_secs == old(self)@.rotation_interval_secs,
            final(self)@ == old(self)@ || final(self)@ == key_state(
                next_master(old(self)@.master),
                old(self)@.rotation_interval_secs,
                final(self)@.epoch,
            ),
            sealed matches Ok(m) ==> sealable(plaintext@.len()) && seals(
                final(self)@.master,
                m@,
                plaintext@,
            ),
            sealed is Ok && old(self)@.rotation_interval_secs == 0 ==> final(self)@.master
                == next_master(old(self)@.master),
            sealed matches Err(e) ==> (e == CryptoError::KeyGeneration && final(self)@ == old(
                self,
            )@) || (e == CryptoError::Encryption && !sealable(plaintext@.len())),
    {
        let nonce = match os_random::<12>() {
            Ok(n) => n,
            Err(_) => {
                return Err(CryptoError::KeyGeneration);
            },
        };
        let elapsed = self.keys.created_at.elapsed();
        let now = std::time::Instant::now();
        let timestamp = unix_timestamp();
        self.encrypt_at(plaintext, elapsed.as_secs(), now, nonce, timestamp)
    }

    /// Opens a sealed message under the current encryption key. Fails with
    /// `Decryption` when the message does not authenticate, as every
    /// ciphertext shorter than the tag does, and when the ciphertext is
    /// longer than one nonce's keystream covers; no earlier key generation
    /// is tried. The engine is left as it was.
    pub fn decrypt(&mut self, encrypted_msg: &EncryptedMessage) -> (opened: Result<
        Vec<u8>,
        CryptoError,
    >)
        ensures
            final(self)@ == old(self)@,
            match decrypt_result(old(self)@.master, encrypted_msg@) {
                Ok(plaintext) => opened matches Ok(p) && p@ == plaintext,
                Err(e) => opened == Err::<Vec<u8>, CryptoError>(e),
            },
            opened matches Ok(p) ==> p@.len() + TAG_LEN == encrypted_msg@.ciphertext.len(),
            encrypted_msg@.ciphertext.len() < TAG_LEN ==> opened == Err::<Vec<u8>, CryptoError>(
                CryptoError::Decryption,
            ),
    {
        let len = encrypted_msg.ciphertext.len();
        if len >= TAG_LEN && !keystream_covers(len - TAG_LEN) {
            return Err(CryptoError::Decryption);
        }
        match aead_open(
            self.keys.encryption_key(),
            &encrypted_msg.nonce,
            encrypted_msg.ciphertext.as_slice(),
        ) {
            Ok(plaintext) => Ok(plaintext),
            Err(_) => Err(CryptoError::Decryption),
        }
    }

    /// Rotates the keys now, whether or not rotation is due.
    pub fn rotate_keys(&mut self) -> (done: Result<(), CryptoError>)
        ensures
            done is Ok,
            final(self)@ == key_state(
                next_master(old(self)@.master),
                old(self)@.rotation_interval_secs,
                final(self)@.epoch,
            ),
    {
        self.keys.rotate()
    }

    /// Whether rotation is due. An interval of zero is always outlived.
    pub fn should_rotate(&self) -> (due: bool)
        ensures
            self@.rotation_interval_secs == 0 ==> due,
    {
        self.keys.should_rotate()
    }

    /// Whole seconds until rotation falls due, zero once it is due.
    pub fn seconds_until_rotation(&self) -> (left: u64)
        ensures
            left <= self@.rotation_interval_secs,
    {
        self.keys.seconds_until_rotation()
    }
}

} // verus!
