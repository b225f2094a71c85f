use silence::crypto::{CryptoError, EncryptedMessage, SilenceCrypto};
use silence::network::{
    check_frame_length, closed_or_failed, decode_envelope, decode_frame, encode_envelope,
    encode_frame, frame_payload, length_prefix, message_id, payload_failed, prefix_value,
    IoFailure, IoFailureKind,
    MessageType, NetworkError, NetworkMessage, P2PConnection,
};

fn sample_frame() -> EncryptedMessage {
    EncryptedMessage {
        nonce: [1, 2, 3, 4, 5, 6, 7, 8, 9, 10, 11, 12],
        ciphertext: vec![0xAA, 0xBB, 0xCC],
        timestamp: 0x0102_0304_0506_0708,
    }
}

fn sample_frame_bytes() -> Vec<u8> {
    vec![
        1, 2, 3, 4, 5, 6, 7, 8, 9, 10, 11, 12, // nonce
        3, 0, 0, 0, 0, 0, 0, 0, // ciphertext length
        0xAA, 0xBB, 0xCC, // ciphertext
        8, 7, 6, 5, 4, 3, 2, 1, // timestamp
    ]
}

fn sample_envelope(message_type: MessageType) -> NetworkMessage {
    NetworkMessage {
        id: "ab".to_string(),
        message_type,
        encrypted_data: sample_frame(),
    }
}

fn sample_envelope_bytes(tag: u8) -> Vec<u8> {
    let mut bytes = vec![2, 0, 0, 0, 0, 0, 0, 0, b'a', b'b', tag, 0, 0, 0];
    bytes.extend_from_slice(&sample_frame_bytes());
    bytes
}

fn shared_master() -> [u8; 32] {
    [0x42; 32]
}

#[test]
fn length_prefix_is_big_endian() {
    assert_eq!(length_prefix(0), [0, 0, 0, 0]);
    assert_eq!(length_prefix(1), [0, 0, 0, 1]);
    assert_eq!(length_prefix(0x0102_0304), [1, 2, 3, 4]);
    assert_eq!(length_prefix(65536), [0, 1, 0, 0]);
    assert_eq!(length_prefix(u32::MAX), [255, 255, 255, 255]);
    assert_eq!(length_prefix(4096), 4096u32.to_be_bytes());
}

#[test]
fn prefix_value_undoes_length_prefix() {
    for len in [0u32, 1, 255, 256, 4096, 65535, 65536, 0x0102_0304, u32::MAX] {
        assert_eq!(prefix_value(&length_prefix(len)), len);
        assert_eq!(prefix_value(&len.to_be_bytes()), len);
    }
}

#[test]
fn frame_length_rules() {
    assert_eq!(check_frame_length(&[0, 0, 0, 5], 4096), Ok(5));
    assert_eq!(check_frame_length(&[0, 0, 16, 0], 4096), Ok(4096));
    assert_eq!(
        check_frame_length(&[0, 0, 16, 1], 4096),
        Err(NetworkError::MessageTooLarge)
    );
    assert_eq!(
        check_frame_length(&[255, 255, 255, 255], 65536),
        Err(NetworkError::MessageTooLarge)
    );
    assert_eq!(
        check_frame_length(&[0, 0, 0, 0], 4096),
        Err(NetworkError::InvalidMessage)
    );
    assert_eq!(
        check_frame_length(&[0, 0, 0, 0], 0),
        Err(NetworkError::InvalidMessage)
    );
    assert_eq!(
        check_frame_length(&[0, 0, 0, 1], 0),
        Err(NetworkError::MessageTooLarge)
    );
}

#[test]
fn frame_payload_prepends_the_length() {
    assert_eq!(frame_payload(&[9, 8, 7], 4096), Ok(vec![0, 0, 0, 3, 9, 8, 7]));
    assert_eq!(frame_payload(&[], 4096), Ok(vec![0, 0, 0, 0]));
    let long = vec![5u8; 300];
    let wire = frame_payload(&long, 300).expect("fits");
    assert_eq!(&wire[..4], &[0, 0, 1, 44]);
    assert_eq!(&wire[4..], &long[..]);
    assert_eq!(frame_payload(&long, 299), Err(NetworkError::MessageTooLarge));
}

#[test]
fn frame_layout_is_exact() {
    let bytes = encode_frame(&sample_frame(), 4096).expect("fits");
    assert_eq!(bytes, sample_frame_bytes());
    assert_eq!(bytes.len(), 3 + 28);
}

#[test]
fn envelope_layout_is_exact() {
    let bytes = encode_envelope(&sample_envelope(MessageType::Text), 4096).expect("fits");
    assert_eq!(bytes, sample_envelope_bytes(0));
    let bytes = encode_envelope(&sample_envelope(MessageType::KeyRotation), 4096).expect("fits");
    assert_eq!(bytes, sample_envelope_bytes(1));
    let bytes = encode_envelope(&sample_envelope(MessageType::Heartbeat), 4096).expect("fits");
    assert_eq!(bytes, sample_envelope_bytes(2));
    assert_eq!(bytes.len(), 12 + 2 + 3 + 28);
}

#[test]
fn message_type_tags() {
    assert_eq!(MessageType::Text.tag(), 0);
    assert_eq!(MessageType::KeyRotation.tag(), 1);
    assert_eq!(MessageType::Heartbeat.tag(), 2);
    assert_eq!(MessageType::from_tag(0), Some(MessageType::Text));
    assert_eq!(MessageType::from_tag(1), Some(MessageType::KeyRotation));
    assert_eq!(MessageType::from_tag(2), Some(MessageType::Heartbeat));
    assert_eq!(MessageType::from_tag(3), None);
    assert_eq!(MessageType::from_tag(u32::MAX), None);
}

#[test]
fn encoding_respects_the_limit() {
    assert!(encode_frame(&sample_frame(), 31).is_ok());
    assert_eq!(
        encode_frame(&sample_frame(), 30),
        Err(NetworkError::MessageTooLarge)
    );
    assert!(encode_envelope(&sample_envelope(MessageType::Text), 45).is_ok());
    assert_eq!(
        encode_envelope(&sample_envelope(MessageType::Text), 44),
        Err(NetworkError::MessageTooLarge)
    );
    assert_eq!(
        encode_frame(&sample_frame(), 0),
        Err(NetworkError::MessageTooLarge)
    );
}

#[test]
fn decoding_undoes_encoding() {
    assert_eq!(decode_frame(&sample_frame_bytes()), Ok(sample_frame()));
    for kind in [MessageType::Text, MessageType::KeyRotation, MessageType::Heartbeat] {
        let bytes = encode_envelope(&sample_envelope(kind), 4096).expect("fits");
        assert_eq!(decode_envelope(&bytes), Ok(sample_envelope(kind)));
    }
    let empty = EncryptedMessage { nonce: [0; 12], ciphertext: Vec::new(), timestamp: 0 };
    let bytes = encode_frame(&empty, 4096).expect("fits");
    assert_eq!(bytes, vec![0u8; 28]);
    assert_eq!(decode_frame(&bytes), Ok(empty));
}

#[test]
fn decoding_ignores_what_follows() {
    let mut bytes = sample_frame_bytes();
    bytes.extend_from_slice(&[1, 2, 3]);
    assert_eq!(decode_frame(&bytes), Ok(sample_frame()));
    let mut bytes = sample_envelope_bytes(0);
    bytes.push(0xFF);
    assert_eq!(decode_envelope(&bytes), Ok(sample_envelope(MessageType::Text)));
}

fn is_serialization<T>(result: &Result<T, NetworkError>) -> bool {
    matches!(result, Err(NetworkError::Serialization(_)))
}

#[test]
fn malformed_payloads_are_serialization_errors() {
    let full = sample_frame_bytes();
    for cut in 0..full.len() {
        assert!(is_serialization(&decode_frame(&full[..cut])));
    }
    let full = sample_envelope_bytes(0);
    for cut in 0..full.len() {
        assert!(is_serialization(&decode_envelope(&full[..cut])));
    }

    let mut bad_id = sample_envelope_bytes(0);
    bad_id[8] = 0xFF;
    assert!(is_serialization(&decode_envelope(&bad_id)));

    let mut huge = sample_frame_bytes();
    for byte in &mut huge[12..20] {
        *byte = 0xFF;
    }
    assert!(is_serialization(&decode_frame(&huge)));
}

#[test]
fn unknown_message_type_is_named() {
    assert_eq!(
        decode_envelope(&sample_envelope_bytes(3)),
        Err(NetworkError::Serialization("unknown message type".to_string()))
    );
    let error = decode_envelope(&sample_envelope_bytes(200)).unwrap_err();
    assert_eq!(error.message(), "Serialization error: unknown message type");
}

#[test]
fn serialization_errors_keep_the_decoder_description() {
    let reference = bincode::deserialize::<([u8; 12], Vec<u8>, u64)>(&[1, 2, 3]).unwrap_err();
    let error = decode_frame(&[1, 2, 3]).unwrap_err();
    assert_eq!(error, NetworkError::Serialization(reference.to_string()));
    assert_eq!(
        error.message(),
        format!("Serialization error: {}", reference)
    );

    let mut bad_id = sample_envelope_bytes(0);
    bad_id[8] = 0xFF;
    let reference =
        bincode::deserialize::<(String, u32, ([u8; 12], Vec<u8>, u64))>(&bad_id).unwrap_err();
    assert_eq!(
        decode_envelope(&bad_id),
        Err(NetworkError::Serialization(reference.to_string()))
    );
    assert_ne!(decode_envelope(&bad_id), decode_envelope(&[]));
}

#[test]
fn layout_agrees_with_the_serializer() {
    let frame = sample_frame();
    let reference =
        bincode::serialize(&(frame.nonce, frame.ciphertext.clone(), frame.timestamp)).expect("ser");
    assert_eq!(encode_frame(&frame, 4096).expect("fits"), reference);

    let message = sample_envelope(MessageType::Heartbeat);
    let reference = bincode::serialize(&(
        message.id.clone(),
        2u32,
        (frame.nonce, frame.ciphertext.clone(), frame.timestamp),
    ))
    .expect("ser");
    assert_eq!(encode_envelope(&message, 4096).expect("fits"), reference);
}

fn split(wire: &[u8], connection: &P2PConnection) -> Vec<u8> {
    let prefix = [wire[0], wire[1], wire[2], wire[3]];
    let len = connection.accept_length(&prefix).expect("length accepted");
    assert_eq!(wire.len(), 4 + len);
    wire[4..].to_vec()
}

#[test]
fn test_local_connection() {
    let mut crypto1 = SilenceCrypto::from_master(shared_master(), 60).unwrap();
    let mut crypto2 = SilenceCrypto::from_master(shared_master(), 60).unwrap();

    let server = P2PConnection::new("127.0.0.1:0".to_string(), 4096, false);
    let client = P2PConnection::new("127.0.0.1:0".to_string(), 4096, false);

    let wire = client.send_text(&mut crypto2, "Hello, P2P!").unwrap();
    let payload = split(&wire, &server);
    let message = server.receive_message(&mut crypto1, &payload).unwrap();
    assert_eq!(message, Some("Hello, P2P!".to_string()));
}

#[test]
fn direct_text_travels_in_an_envelope() {
    let mut sender = SilenceCrypto::from_master(shared_master(), 3600).unwrap();
    let connection = P2PConnection::new("peer".to_string(), 4096, false);
    let wire = connection.send_text(&mut sender, "hi").unwrap();
    let payload = split(&wire, &connection);
    assert_eq!(payload.len(), 2 + 16 + 28 + 12 + 36);

    let message = decode_envelope(&payload).expect("envelope");
    assert_eq!(message.message_type, MessageType::Text);
    assert_eq!(message.id.len(), 36);
    assert_eq!(message.id.as_bytes()[8], b'-');
    assert_eq!(message.id.as_bytes()[14], b'4');
    assert_eq!(sender.decrypt(&message.encrypted_data).unwrap(), b"hi".to_vec());
}

#[test]
fn message_ids_are_fresh() {
    let mut sender = SilenceCrypto::from_master(shared_master(), 3600).unwrap();
    let connection = P2PConnection::new("peer".to_string(), 4096, false);
    let first = decode_envelope(&connection.send_text(&mut sender, "a").unwrap()[4..]).unwrap();
    let second = decode_envelope(&connection.send_text(&mut sender, "a").unwrap()[4..]).unwrap();
    assert_ne!(first.id, second.id);
}

#[test]
fn relay_text_travels_as_a_bare_frame() {
    let mut sender = SilenceCrypto::from_master(shared_master(), 3600).unwrap();
    let mut receiver = SilenceCrypto::from_master(shared_master(), 3600).unwrap();
    let connection = P2PConnection::new("relay".to_string(), 4096, true);
    let wire = connection.send_text(&mut sender, "hi").unwrap();
    let payload = split(&wire, &connection);
    assert_eq!(payload.len(), 2 + 16 + 28);

    let frame = decode_frame(&payload).expect("frame");
    assert_eq!(frame.ciphertext.len(), 2 + 16);
    assert_eq!(
        connection.receive_message(&mut receiver, &payload),
        Ok(Some("hi".to_string()))
    );
}

#[test]
fn oversize_text_is_rejected_before_sending() {
    let mut crypto = SilenceCrypto::from_master(shared_master(), 3600).unwrap();
    let text = "x".repeat(2048);
    for is_relay in [false, true] {
        let connection = P2PConnection::new("peer".to_string(), 1024, is_relay);
        assert_eq!(
            connection.send_text(&mut crypto, &text),
            Err(NetworkError::MessageTooLarge)
        );
    }
}

#[test]
fn the_limit_counts_the_whole_payload() {
    let mut crypto = SilenceCrypto::from_master(shared_master(), 3600).unwrap();
    let text = "y".repeat(100);

    let relay = P2PConnection::new("relay".to_string(), 144, true);
    assert!(relay.send_text(&mut crypto, &text).is_ok());
    let relay = P2PConnection::new("relay".to_string(), 143, true);
    assert_eq!(relay.send_text(&mut crypto, &text), Err(NetworkError::MessageTooLarge));

    let direct = P2PConnection::new("peer".to_string(), 192, false);
    assert!(direct.send_text(&mut crypto, &text).is_ok());
    let direct = P2PConnection::new("peer".to_string(), 191, false);
    assert_eq!(direct.send_text(&mut crypto, &text), Err(NetworkError::MessageTooLarge));
}

#[test]
fn text_keeps_its_unicode() {
    let mut sender = SilenceCrypto::from_master(shared_master(), 3600).unwrap();
    let mut receiver = SilenceCrypto::from_master(shared_master(), 3600).unwrap();
    let text = "gr\u{fc}\u{df}e \u{1f512} \u{4f60}\u{597d}";
    for is_relay in [false, true] {
        let connection = P2PConnection::new("peer".to_string(), 4096, is_relay);
        let wire = connection.send_text(&mut sender, text).unwrap();
        assert_eq!(
            connection.receive_message(&mut receiver, &wire[4..]),
            Ok(Some(text.to_string()))
        );
    }
}

#[test]
fn heartbeat_is_not_user_text() {
    let mut sender = SilenceCrypto::from_master(shared_master(), 3600).unwrap();
    let mut receiver = SilenceCrypto::from_master(shared_master(), 3600).unwrap();
    let connection = P2PConnection::new("peer".to_string(), 4096, false);
    let wire = connection.send_heartbeat(&mut sender).unwrap();
    let message = decode_envelope(&wire[4..]).unwrap();
    assert_eq!(message.message_type, MessageType::Heartbeat);
    assert_eq!(receiver.decrypt(&message.encrypted_data).unwrap(), b"heartbeat".to_vec());
    assert_eq!(connection.receive_message(&mut receiver, &wire[4..]), Ok(None));
}

#[test]
fn key_rotation_message_rotates_the_receiver() {
    let mut sender = SilenceCrypto::from_master(shared_master(), 3600).unwrap();
    let mut receiver = SilenceCrypto::from_master(shared_master(), 3600).unwrap();
    let connection = P2PConnection::new("peer".to_string(), 4096, false);

    let request = NetworkMessage {
        id: "rotate".to_string(),
        message_type: MessageType::KeyRotation,
        encrypted_data: sender.encrypt(b"rotate").unwrap(),
    };
    let wire = connection.send_message(&request).unwrap();
    let before = *receiver.encryption_key();
    assert_eq!(connection.receive_message(&mut receiver, &wire[4..]), Ok(None));
    assert_ne!(before, *receiver.encryption_key());

    sender.rotate_keys().unwrap();
    assert_eq!(*sender.encryption_key(), *receiver.encryption_key());
    let wire = connection.send_text(&mut sender, "after rotation").unwrap();
    assert_eq!(
        connection.receive_message(&mut receiver, &wire[4..]),
        Ok(Some("after rotation".to_string()))
    );
}

#[test]
fn receive_errors() {
    let mut sender = SilenceCrypto::from_master(shared_master(), 3600).unwrap();
    let mut stranger = SilenceCrypto::from_master([7; 32], 3600).unwrap();
    let mut receiver = SilenceCrypto::from_master(shared_master(), 3600).unwrap();
    let direct = P2PConnection::new("peer".to_string(), 4096, false);
    let relay = P2PConnection::new("relay".to_string(), 4096, true);

    let wire = direct.send_text(&mut sender, "secret").unwrap();
    assert_eq!(
        direct.receive_message(&mut stranger, &wire[4..]),
        Err(NetworkError::Crypto(CryptoError::Decryption))
    );
    assert!(is_serialization(&direct.receive_message(&mut receiver, &[1, 2, 3])));
    assert!(is_serialization(&relay.receive_message(&mut receiver, &[1, 2, 3])));

    let not_text = sender.encrypt(&[0xFF, 0xFE]).unwrap();
    let payload = encode_frame(&not_text, 4096).unwrap();
    assert_eq!(
        relay.receive_message(&mut receiver, &payload),
        Err(NetworkError::InvalidMessage)
    );
    let envelope = NetworkMessage {
        id: "id".to_string(),
        message_type: MessageType::Text,
        encrypted_data: not_text,
    };
    let payload = encode_envelope(&envelope, 4096).unwrap();
    assert_eq!(
        direct.receive_message(&mut receiver, &payload),
        Err(NetworkError::InvalidMessage)
    );
}

#[test]
fn end_of_stream_is_a_graceful_close() {
    let eof = IoFailure { kind: IoFailureKind::UnexpectedEof, detail: "eof".to_string() };
    assert_eq!(closed_or_failed(eof), Ok(None));
    let reset = IoFailure { kind: IoFailureKind::Other, detail: "reset by peer".to_string() };
    assert_eq!(
        closed_or_failed(reset.clone()),
        Err(NetworkError::Connection(reset))
    );
    let refused =
        IoFailure { kind: IoFailureKind::ConnectionRefused, detail: "refused".to_string() };
    assert_eq!(
        closed_or_failed(refused.clone()),
        Err(NetworkError::Connection(refused))
    );
}

#[test]
fn network_error_texts() {
    let failure = IoFailure { kind: IoFailureKind::Other, detail: "broken pipe".to_string() };
    assert_eq!(
        NetworkError::Connection(failure).message(),
        "Connection error: broken pipe"
    );
    assert_eq!(
        NetworkError::Serialization("truncated".to_string()).message(),
        "Serialization error: truncated"
    );
    assert_eq!(
        NetworkError::Crypto(CryptoError::Decryption).message(),
        "Crypto error: Decryption failed"
    );
    assert_eq!(NetworkError::InvalidMessage.message(), "Invalid message format");
    assert_eq!(NetworkError::MessageTooLarge.message(), "Message too large");
    assert_eq!(NetworkError::Timeout.message(), "Operation timeout");
}

#[test]
fn errors_convert() {
    assert_eq!(
        NetworkError::from(CryptoError::Encryption),
        NetworkError::Crypto(CryptoError::Encryption)
    );
    let failure = IoFailure { kind: IoFailureKind::UnexpectedEof, detail: "eof".to_string() };
    assert_eq!(
        NetworkError::from(failure.clone()),
        NetworkError::Connection(failure)
    );
}

#[test]
fn connection_reports_its_settings() {
    let connection = P2PConnection::new("10.0.0.1:7642".to_string(), 2048, true);
    assert_eq!(connection.peer_addr(), "10.0.0.1:7642");
    assert_eq!(connection.max_message_size(), 2048);
    assert!(connection.is_relay());
    assert_eq!(connection.accept_length(&[0, 0, 8, 0]), Ok(2048));
    assert_eq!(connection.accept_length(&[0, 0, 8, 1]), Err(NetworkError::MessageTooLarge));
    assert_eq!(connection.accept_length(&[0, 0, 0, 0]), Err(NetworkError::InvalidMessage));
}

#[test]
fn only_a_rotation_request_changes_the_engine() {
    let mut sender = SilenceCrypto::from_master(shared_master(), 3600).unwrap();
    let mut stranger = SilenceCrypto::from_master([9; 32], 3600).unwrap();
    let mut receiver = SilenceCrypto::from_master(shared_master(), 3600).unwrap();
    let direct = P2PConnection::new("peer".to_string(), 4096, false);
    let relay = P2PConnection::new("relay".to_string(), 4096, true);
    let key = *receiver.encryption_key();

    let heartbeat = NetworkMessage {
        id: "beat".to_string(),
        message_type: MessageType::Heartbeat,
        encrypted_data: stranger.encrypt(b"does not open here").unwrap(),
    };
    let payload = encode_envelope(&heartbeat, 4096).unwrap();
    assert_eq!(direct.receive_message(&mut receiver, &payload), Ok(None));
    assert_eq!(*receiver.encryption_key(), key);

    let foreign = stranger.encrypt(b"sealed under another key").unwrap();
    let payload = encode_frame(&foreign, 4096).unwrap();
    assert_eq!(
        relay.receive_message(&mut receiver, &payload),
        Err(NetworkError::Crypto(CryptoError::Decryption))
    );
    assert_eq!(*receiver.encryption_key(), key);

    assert!(is_serialization(&direct.receive_message(&mut receiver, &[0; 5])));
    assert_eq!(*receiver.encryption_key(), key);

    let wire = direct.send_text(&mut sender, "still in step").unwrap();
    assert_eq!(
        direct.receive_message(&mut receiver, &wire[4..]),
        Ok(Some("still in step".to_string()))
    );
    assert_eq!(*receiver.encryption_key(), key);

    let rotation = NetworkMessage {
        id: "rotate".to_string(),
        message_type: MessageType::KeyRotation,
        encrypted_data: stranger.encrypt(b"ignored").unwrap(),
    };
    let payload = encode_envelope(&rotation, 4096).unwrap();
    assert!(relay.receive_message(&mut receiver, &payload).is_err());
    assert_eq!(*receiver.encryption_key(), key);
    assert_eq!(direct.receive_message(&mut receiver, &payload), Ok(None));
    assert_ne!(*receiver.encryption_key(), key);
}

#[test]
fn message_ids_follow_from_the_random_bytes() {
    let random = [
        0x00, 0x11, 0x22, 0x33, 0x44, 0x55, 0x66, 0x77, 0x88, 0x99, 0xaa, 0xbb, 0xcc, 0xdd, 0xee,
        0xff,
    ];
    assert_eq!(message_id(random), "00112233-4455-4677-8899-aabbccddeeff");
    assert_eq!(message_id([0xff; 16]), "ffffffff-ffff-4fff-bfff-ffffffffffff");
    assert_eq!(message_id([0; 16]), "00000000-0000-4000-8000-000000000000");
    let counting = [1, 2, 3, 4, 5, 6, 7, 8, 9, 10, 11, 12, 13, 14, 15, 16];
    assert_eq!(message_id(counting), "01020304-0506-4708-890a-0b0c0d0e0f10");
}

#[test]
fn a_payload_that_ends_early_is_a_connection_error() {
    let eof = IoFailure { kind: IoFailureKind::UnexpectedEof, detail: "early eof".to_string() };
    assert_eq!(payload_failed(eof.clone()), NetworkError::Connection(eof));
    let reset = IoFailure { kind: IoFailureKind::Other, detail: "reset".to_string() };
    assert_eq!(payload_failed(reset.clone()), NetworkError::Connection(reset));
}
