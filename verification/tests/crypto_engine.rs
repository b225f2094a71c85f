use silence::crypto::{
    is_rotation_due, is_sealable, seconds_remaining, CryptoError, EncryptedMessage, EphemeralKeys,
    SilenceCrypto,
};
use std::time::{Duration, Instant};

fn wait(span: Duration) {
    let start = Instant::now();
    while start.elapsed() < span {
        std::hint::spin_loop();
    }
}

#[test]
fn test_key_generation() {
    let crypto = SilenceCrypto::new(15).expect("Failed to create crypto engine");
    let seconds_remaining = crypto.seconds_until_rotation();
    assert!(
        seconds_remaining >= 14 && seconds_remaining <= 15,
        "Expected 14-15 seconds, got {}",
        seconds_remaining
    );
}

#[test]
fn test_encrypt_decrypt() {
    let mut crypto = SilenceCrypto::new(15).expect("Failed to create crypto engine");
    let message = b"Hello, secure world!";

    let encrypted = crypto.encrypt(message).expect("Encryption failed");
    let decrypted = crypto.decrypt(&encrypted).expect("Decryption failed");

    assert_eq!(message, decrypted.as_slice());
}

#[test]
fn test_key_rotation() {
    let mut keys = EphemeralKeys::new(1).expect("Key generation failed");
    let old_key = *keys.encryption_key();

    wait(Duration::from_secs(1));
    assert!(keys.should_rotate());

    keys.rotate().expect("Key rotation failed");
    assert_ne!(old_key, *keys.encryption_key());
}

fn hkdf32(salt: Option<&[u8]>, ikm: &[u8], info: &[u8]) -> [u8; 32] {
    let mut out = [0u8; 32];
    hkdf::Hkdf::<sha2::Sha256>::new(salt, ikm)
        .expand(info, &mut out)
        .expect("32 bytes is a valid HKDF output length");
    out
}

fn known_master() -> [u8; 32] {
    let mut master = [0u8; 32];
    for (i, byte) in master.iter_mut().enumerate() {
        *byte = (i as u8).wrapping_mul(7).wrapping_add(3);
    }
    master
}

#[test]
fn encryption_key_is_derived_with_its_label() {
    let master = known_master();
    let keys = EphemeralKeys::from_master(master, 15).expect("derivation");
    let expected = hkdf32(None, &master, b"SILENCE_ENCRYPT_KEY");
    assert_eq!(*keys.encryption_key(), expected);
    assert_ne!(*keys.encryption_key(), master);
}

#[test]
fn rotation_follows_the_cascade_rule() {
    let master = known_master();
    let mut keys = EphemeralKeys::from_master(master, 15).expect("derivation");
    keys.rotate().expect("rotation");

    let session = hkdf32(None, &master, b"SILENCE_SESSION_KEY");
    let next_master = hkdf32(Some(&session), &master, b"SILENCE_NEW_MASTER");
    let expected = hkdf32(None, &next_master, b"SILENCE_ENCRYPT_KEY");
    assert_eq!(*keys.encryption_key(), expected);

    keys.rotate().expect("second rotation");
    let session2 = hkdf32(None, &next_master, b"SILENCE_SESSION_KEY");
    let third_master = hkdf32(Some(&session2), &next_master, b"SILENCE_NEW_MASTER");
    assert_eq!(
        *keys.encryption_key(),
        hkdf32(None, &third_master, b"SILENCE_ENCRYPT_KEY")
    );
}

#[test]
fn rotation_changes_the_encryption_key() {
    let mut crypto = SilenceCrypto::from_master(known_master(), 3600).expect("engine");
    let before = *crypto.encryption_key();
    crypto.rotate_keys().expect("rotation");
    let after = *crypto.encryption_key();
    assert_ne!(before, after);
}

#[test]
fn rotate_at_resets_the_epoch() {
    let mut keys = EphemeralKeys::from_master(known_master(), 1).expect("derivation");
    wait(Duration::from_millis(1100));
    assert!(keys.should_rotate());
    assert_eq!(keys.seconds_until_rotation(), 0);
    keys.rotate_at(Instant::now()).expect("rotation");
    assert!(!keys.should_rotate());
}

#[test]
fn rotation_detectable_after_interval() {
    let mut crypto = SilenceCrypto::from_master(known_master(), 1).expect("engine");
    let probe = b"probe";
    let first = crypto.encrypt(probe).expect("first encryption");
    let key_before = *crypto.encryption_key();
    wait(Duration::from_millis(1100));
    let second = crypto.encrypt(probe).expect("second encryption");
    let key_after = *crypto.encryption_key();

    assert_ne!(first.nonce, second.nonce);
    assert_ne!(key_before, key_after);

    let master = known_master();
    let session = hkdf32(None, &master, b"SILENCE_SESSION_KEY");
    let next_master = hkdf32(Some(&session), &master, b"SILENCE_NEW_MASTER");
    assert_eq!(key_after, hkdf32(None, &next_master, b"SILENCE_ENCRYPT_KEY"));
    assert_eq!(crypto.decrypt(&second).expect("same generation"), probe.to_vec());
    assert_eq!(crypto.decrypt(&first), Err(CryptoError::Decryption));
}

#[test]
fn zero_interval_rotates_on_every_encryption() {
    let mut crypto = SilenceCrypto::from_master(known_master(), 0).expect("engine");
    assert!(crypto.should_rotate());
    assert_eq!(crypto.seconds_until_rotation(), 0);
    let before = *crypto.encryption_key();
    crypto.encrypt(b"x").expect("encryption");
    assert_ne!(before, *crypto.encryption_key());
}

#[test]
fn nonces_are_fresh() {
    let mut crypto = SilenceCrypto::new(3600).expect("engine");
    let mut seen: Vec<[u8; 12]> = Vec::new();
    for _ in 0..200 {
        let frame = crypto.encrypt(b"same plaintext").expect("encryption");
        assert!(!seen.contains(&frame.nonce));
        seen.push(frame.nonce);
    }
}

#[test]
fn round_trip_for_several_sizes() {
    let mut crypto = SilenceCrypto::new(3600).expect("engine");
    for size in [0usize, 1, 15, 16, 17, 63, 64, 65, 1024, 4096] {
        let plaintext: Vec<u8> = (0..size).map(|i| (i % 251) as u8).collect();
        let frame = crypto.encrypt(&plaintext).expect("encryption");
        assert_eq!(frame.ciphertext.len(), size + 16);
        assert_eq!(crypto.decrypt(&frame).expect("decryption"), plaintext);
    }
}

#[test]
fn sealing_matches_the_cipher() {
    let master = known_master();
    let crypto = SilenceCrypto::from_master(master, 3600).expect("engine");
    let nonce = [9u8; 12];
    let frame = crypto
        .seal_with_nonce(b"attack at dawn", nonce, 1_700_000_000)
        .expect("sealing");

    let key = hkdf32(None, &master, b"SILENCE_ENCRYPT_KEY");
    let cipher = <chacha20poly1305::ChaCha20Poly1305 as chacha20poly1305::KeyInit>::new(
        chacha20poly1305::Key::from_slice(&key),
    );
    let expected = chacha20poly1305::aead::Aead::encrypt(
        &cipher,
        chacha20poly1305::Nonce::from_slice(&nonce),
        b"attack at dawn".as_ref(),
    )
    .expect("reference encryption");

    assert_eq!(frame.ciphertext, expected);
    assert_ne!(&frame.ciphertext[..14], b"attack at dawn");
    assert_eq!(frame.nonce, nonce);
    assert_eq!(frame.timestamp, 1_700_000_000);

    let again = crypto
        .seal_with_nonce(b"attack at dawn", nonce, 1_700_000_000)
        .expect("sealing");
    assert_eq!(frame, again);
}

#[test]
fn tampered_ciphertext_is_rejected() {
    let mut crypto = SilenceCrypto::new(3600).expect("engine");
    let mut frame = crypto.encrypt(b"integrity").expect("encryption");
    frame.ciphertext[0] ^= 1;
    assert_eq!(crypto.decrypt(&frame), Err(CryptoError::Decryption));

    let mut short = crypto.encrypt(b"integrity").expect("encryption");
    short.ciphertext.truncate(10);
    assert_eq!(crypto.decrypt(&short), Err(CryptoError::Decryption));

    let mut renonced = crypto.encrypt(b"integrity").expect("encryption");
    renonced.nonce[11] ^= 0x80;
    assert_eq!(crypto.decrypt(&renonced), Err(CryptoError::Decryption));
}

#[test]
fn decryption_fails_across_a_rotation() {
    let mut crypto = SilenceCrypto::new(3600).expect("engine");
    let frame = crypto.encrypt(b"in flight").expect("encryption");
    crypto.rotate_keys().expect("rotation");
    assert_eq!(crypto.decrypt(&frame), Err(CryptoError::Decryption));
}

#[test]
fn peers_with_one_master_understand_each_other() {
    let mut alice = SilenceCrypto::from_master(known_master(), 3600).expect("engine");
    let mut bob = SilenceCrypto::from_master(known_master(), 3600).expect("engine");
    let frame = alice.encrypt(b"shared secret").expect("encryption");
    assert_eq!(bob.decrypt(&frame).expect("decryption"), b"shared secret".to_vec());

    let mut eve = SilenceCrypto::new(3600).expect("engine");
    assert_eq!(eve.decrypt(&frame), Err(CryptoError::Decryption));
}

#[test]
fn timestamp_is_unix_seconds() {
    let mut crypto = SilenceCrypto::new(3600).expect("engine");
    let frame = crypto.encrypt(b"when").expect("encryption");
    let now = std::time::SystemTime::now()
        .duration_since(std::time::UNIX_EPOCH)
        .expect("clock after the epoch")
        .as_secs();
    assert!(frame.timestamp <= now);
    assert!(now - frame.timestamp <= 5);
}

#[test]
fn remaining_seconds_formula() {
    assert_eq!(seconds_remaining(15, 0, 0), 15);
    assert_eq!(seconds_remaining(15, 0, 1), 14);
    assert_eq!(seconds_remaining(15, 14, 999_999_999), 0);
    assert_eq!(seconds_remaining(15, 14, 0), 1);
    assert_eq!(seconds_remaining(15, 15, 0), 0);
    assert_eq!(seconds_remaining(15, 400, 5), 0);
    assert_eq!(seconds_remaining(0, 0, 0), 0);
    assert_eq!(seconds_remaining(u64::MAX, 0, 1), u64::MAX - 1);
}

#[test]
fn rotation_is_due_from_the_interval_on() {
    assert!(!is_rotation_due(14, 15));
    assert!(is_rotation_due(15, 15));
    assert!(is_rotation_due(16, 15));
    assert!(is_rotation_due(0, 0));
}

#[test]
fn crypto_error_texts() {
    assert_eq!(CryptoError::KeyGeneration.message(), "Key generation failed");
    assert_eq!(CryptoError::Encryption.message(), "Encryption failed");
    assert_eq!(CryptoError::Decryption.message(), "Decryption failed");
    assert_eq!(CryptoError::KeyDerivation.message(), "Key derivation failed");
    assert_eq!(CryptoError::InvalidNonce.message(), "Invalid nonce");
}

#[test]
fn remaining_seconds_counts_every_nanosecond() {
    assert_eq!(seconds_remaining(15, 0, 2_000_000_000), 13);
    assert_eq!(seconds_remaining(15, 13, 1_999_999_999), 0);
    assert_eq!(seconds_remaining(15, 13, 1_000_000_000), 1);
    assert_eq!(seconds_remaining(1, 0, u32::MAX), 0);
    assert_eq!(seconds_remaining(u64::MAX, u64::MAX - 1, 0), 1);
}

#[test]
fn a_cascade_started_at_a_past_moment_is_due() {
    let now = Instant::now();
    wait(Duration::from_millis(1100));
    let keys = EphemeralKeys::from_master_at(known_master(), now, 1).expect("derivation");
    assert!(keys.should_rotate());
    assert_eq!(
        *keys.encryption_key(),
        hkdf32(None, &known_master(), b"SILENCE_ENCRYPT_KEY")
    );
    let fresh = EphemeralKeys::from_master_at(known_master(), Instant::now(), 3600)
        .expect("derivation");
    assert!(!fresh.should_rotate());
    let left = fresh.seconds_until_rotation();
    assert!(left == 3599 || left == 3600);
}

#[test]
fn a_ciphertext_shorter_than_the_tag_is_refused() {
    let mut crypto = SilenceCrypto::from_master(known_master(), 3600).expect("engine");
    for len in 0..16 {
        let frame = EncryptedMessage { nonce: [3; 12], ciphertext: vec![0xAB; len], timestamp: 0 };
        assert_eq!(crypto.decrypt(&frame), Err(CryptoError::Decryption));
    }
    let sealed = crypto.seal_with_nonce(b"", [3; 12], 0).expect("sealing");
    assert_eq!(sealed.ciphertext.len(), 16);
    assert_eq!(crypto.decrypt(&sealed), Ok(Vec::new()));
    let sealed = crypto.seal_with_nonce(b"abc", [4; 12], 0).expect("sealing");
    let opened = crypto.decrypt(&sealed).expect("opening");
    assert_eq!(opened.len() + 16, sealed.ciphertext.len());
}

#[test]
fn the_keystream_bounds_what_is_sealed() {
    assert!(is_sealable(0));
    assert!(is_sealable(1));
    assert!(is_sealable(4096));
    let covered: u64 = 64 * 0xffff_fffe;
    assert_eq!(covered, 274_877_906_816);
    if let (Ok(last), Ok(first_refused), Ok(whole_blocks)) = (
        usize::try_from(covered),
        usize::try_from(covered + 1),
        usize::try_from(covered + 64),
    ) {
        assert!(is_sealable(last));
        assert!(is_sealable(last - 63));
        assert!(!is_sealable(first_refused));
        assert!(!is_sealable(first_refused + 62));
        assert!(!is_sealable(whole_blocks));
    }
    assert!(!is_sealable(usize::MAX));
    assert!(!is_sealable(usize::MAX / 2));
}
