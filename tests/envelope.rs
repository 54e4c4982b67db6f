use envelope_crypto::{
    decode_base64, decrypt, decrypt_data, decrypt_private_key, derive_key, derive_key_with_salt,
    encode_base64, encrypt, encrypt_data, encrypt_private_key, generate_keypair, generate_random_key,
    open_blob, seal_blob, seal_with_nonce, CryptoError,
};

fn key_bytes(seed: u8) -> Vec<u8> {
    (0..32u8).map(|i| i.wrapping_mul(7).wrapping_add(seed)).collect()
}

fn flip_byte_of_blob(blob: &str, index: usize) -> String {
    let mut raw = decode_base64(blob).unwrap();
    raw[index] ^= 0x01;
    encode_base64(&raw)
}

#[test]
fn base64_known_values() {
    assert_eq!(encode_base64(b"hello"), "aGVsbG8=");
    assert_eq!(encode_base64(b""), "");
    assert_eq!(decode_base64("aGVsbG8=").unwrap(), b"hello".to_vec());
    assert_eq!(decode_base64("aGVsbG8"), Err(CryptoError::InvalidEncoding));
    assert_eq!(decode_base64("not base64!"), Err(CryptoError::InvalidEncoding));
}

#[test]
fn round_trip_bytes() {
    let key = key_bytes(3);
    for payload in [Vec::new(), b"x".to_vec(), vec![0u8; 1000], (0..=255u8).collect::<Vec<u8>>()] {
        let blob = encrypt(&payload, &key).unwrap();
        assert_eq!(decrypt(&blob, &key).unwrap(), payload);
    }
}

#[test]
fn round_trip_uses_first_32_key_bytes() {
    let mut long_key = key_bytes(9);
    long_key.extend_from_slice(&[0xAA; 16]);
    let blob = encrypt(b"payload", &long_key).unwrap();
    assert_eq!(decrypt(&blob, &key_bytes(9)).unwrap(), b"payload".to_vec());
}

#[test]
fn blob_layout_is_nonce_then_sealed() {
    let key = key_bytes(1);
    let nonce = [5u8; 12];
    let raw = seal_blob(b"abc", &key, &nonce).unwrap();
    assert_eq!(raw.len(), 12 + 3 + 16);
    assert_eq!(&raw[..12], &nonce);
    assert_ne!(&raw[12..15], b"abc");
    assert_eq!(open_blob(&raw, &key).unwrap(), b"abc".to_vec());
    let text = seal_with_nonce(b"abc", &key, &nonce).unwrap();
    assert_eq!(decode_base64(&text).unwrap(), raw);
}

#[test]
fn nonce_freshness() {
    let key = key_bytes(2);
    let a = encrypt(b"same payload", &key).unwrap();
    let b = encrypt(b"same payload", &key).unwrap();
    assert_ne!(a, b);
    assert_ne!(decode_base64(&a).unwrap()[..12], decode_base64(&b).unwrap()[..12]);
    assert_eq!(decrypt(&a, &key).unwrap(), b"same payload".to_vec());
    assert_eq!(decrypt(&b, &key).unwrap(), b"same payload".to_vec());
}

#[test]
fn tamper_detection_every_byte() {
    let key = key_bytes(4);
    let blob = encrypt(b"tamper me", &key).unwrap();
    let len = decode_base64(&blob).unwrap().len();
    for i in 0..len {
        let tampered = flip_byte_of_blob(&blob, i);
        assert_eq!(decrypt(&tampered, &key), Err(CryptoError::DecryptionFailed));
    }
}

#[test]
fn wrong_key_rejection() {
    let blob = encrypt(b"secret", &key_bytes(5)).unwrap();
    assert_eq!(decrypt(&blob, &key_bytes(6)), Err(CryptoError::DecryptionFailed));
}

#[test]
fn short_key_rejection() {
    let short = vec![7u8; 31];
    assert_eq!(encrypt(b"data", &short), Err(CryptoError::KeyTooShort));
    assert_eq!(encrypt(b"data", &[]), Err(CryptoError::KeyTooShort));
    let blob = encrypt(b"data", &key_bytes(0)).unwrap();
    assert_eq!(decrypt(&blob, &short), Err(CryptoError::KeyTooShort));
    assert_eq!(decrypt("!!!", &short), Err(CryptoError::KeyTooShort));
    let short_text = encode_base64(&short);
    assert_eq!(encrypt_data("hi", &short_text), Err(CryptoError::KeyTooShort));
    assert_eq!(decrypt_data(&blob, &short_text), Err(CryptoError::KeyTooShort));
}

#[test]
fn malformed_blob_rejection() {
    let key = key_bytes(8);
    assert_eq!(decrypt(&encode_base64(&[1u8; 11]), &key), Err(CryptoError::BlobTooShort));
    assert_eq!(decrypt("", &key), Err(CryptoError::BlobTooShort));
    assert_eq!(decrypt("@@@@", &key), Err(CryptoError::InvalidEncoding));
    assert_eq!(decrypt(&encode_base64(&[1u8; 12]), &key), Err(CryptoError::DecryptionFailed));
    assert_eq!(open_blob(&[0u8; 5], &key), Err(CryptoError::BlobTooShort));
}

#[test]
fn invalid_key_text_rejection() {
    assert_eq!(encrypt_data("hi", "not*base64"), Err(CryptoError::InvalidEncoding));
    assert_eq!(decrypt_data("AAAA", "not*base64"), Err(CryptoError::InvalidEncoding));
}

#[test]
fn derivation_determinism() {
    let salt = "c29tZXNhbHRzb21lc2FsdA";
    let a = derive_key("pw", Some(salt.to_string())).unwrap();
    let b = derive_key("pw", Some(salt.to_string())).unwrap();
    assert_eq!(a.key(), b.key());
    assert_eq!(a.salt(), salt);
    assert_eq!(decode_base64(&a.key()).unwrap().len(), 32);
    let fresh = derive_key("pw", None).unwrap();
    let again = derive_key("pw", Some(fresh.salt())).unwrap();
    assert_eq!(again.key(), fresh.key());
    assert_eq!(again.salt(), fresh.salt());
    assert_eq!(derive_key_with_salt("pw", &fresh.salt()).unwrap().key(), fresh.key());
}

#[test]
fn salt_uniqueness() {
    let a = derive_key("pw", None).unwrap();
    let b = derive_key("pw", None).unwrap();
    assert_eq!(a.salt().len(), 22);
    assert_ne!(a.salt(), b.salt());
    assert_ne!(a.key(), b.key());
}

#[test]
fn different_passwords_give_different_keys() {
    let salt = "c29tZXNhbHRzb21lc2FsdA".to_string();
    let a = derive_key("correct horse", Some(salt.clone())).unwrap();
    let b = derive_key("wrong horse", Some(salt)).unwrap();
    assert_ne!(a.key(), b.key());
}

#[test]
fn invalid_salt_rejection() {
    assert!(matches!(derive_key("pw", Some("abc".to_string())), Err(CryptoError::InvalidSalt(_))));
    assert!(matches!(derive_key("pw", Some("bad salt!".to_string())), Err(CryptoError::InvalidSalt(_))));
    assert!(matches!(derive_key("pw", Some("a".repeat(65))), Err(CryptoError::InvalidSalt(_))));
}

#[test]
fn derivation_failure_on_too_short_salt_bytes() {
    // Four characters pass the salt string rules but decode to three bytes,
    // fewer than Argon2 accepts.
    assert_eq!(derive_key("pw", Some("abcd".to_string())).err(), Some(CryptoError::DerivationFailed));
}

#[test]
fn keypair_shapes() {
    let kp = generate_keypair();
    assert_eq!(kp.private_key().len(), 32);
    let point = decode_base64(&kp.public_key()).unwrap();
    assert_eq!(point.len(), 65);
    assert_eq!(point[0], 4);
    let other = generate_keypair();
    assert_ne!(kp.private_key(), other.private_key());
}

#[test]
fn random_key_shape() {
    let a = generate_random_key();
    let b = generate_random_key();
    assert_eq!(decode_base64(&a).unwrap().len(), 32);
    assert_eq!(a.len(), 44);
    assert!(a.ends_with('=') && !a[..43].contains('='));
    assert_ne!(a, b);
}

#[test]
fn end_to_end_private_key() {
    let kp = generate_keypair();
    let d = derive_key("correct horse", None).unwrap();
    let blob = encrypt_private_key(&kp, &d.key()).unwrap();
    let stored_salt = d.salt();
    let d2 = derive_key("correct horse", Some(stored_salt)).unwrap();
    assert_eq!(decrypt_private_key(&blob, &d2.key()).unwrap(), kp.private_key());
}

#[test]
fn wrong_password_private_key() {
    let kp = generate_keypair();
    let d = derive_key("correct horse", None).unwrap();
    let blob = encrypt_private_key(&kp, &d.key()).unwrap();
    let d2 = derive_key("wrong horse", Some(d.salt())).unwrap();
    assert_eq!(decrypt_private_key(&blob, &d2.key()), Err(CryptoError::DecryptionFailed));
}

#[test]
fn text_workflow_utf8() {
    let key = generate_random_key();
    let blob = encrypt_data("hello 🌍", &key).unwrap();
    assert_eq!(decrypt_data(&blob, &key).unwrap(), "hello 🌍");
    assert_eq!(decrypt_data(&blob, &generate_random_key()), Err(CryptoError::DecryptionFailed));
}

#[test]
fn text_workflow_rejects_invalid_utf8() {
    let key = generate_random_key();
    let raw_key = decode_base64(&key).unwrap();
    let blob = encrypt(&[0xff, 0xfe, 0x80], &raw_key).unwrap();
    assert_eq!(decrypt_data(&blob, &key), Err(CryptoError::InvalidUtf8));
    let bytes_back = decrypt_private_key(&blob, &key).unwrap();
    assert_eq!(bytes_back, vec![0xff, 0xfe, 0x80]);
}

#[test]
fn blob_lengths_follow_framing() {
    let key = encode_base64(&[0u8; 32]);
    let blob = encrypt_data("hello 🌍", &key).unwrap();
    assert_eq!(blob.len(), 52);
    assert_eq!(decode_base64(&blob).unwrap().len(), 12 + 10 + 16);
    let kp = generate_keypair();
    let d = derive_key("correct horse", None).unwrap();
    let sealed = encrypt_private_key(&kp, &d.key()).unwrap();
    assert_eq!(decode_base64(&sealed).unwrap().len(), 60);
    assert_eq!(d.key().len(), 44);
}

#[test]
fn blob_without_room_for_tag_fails() {
    let key = key_bytes(11);
    for n in 12..28 {
        assert_eq!(decrypt(&encode_base64(&vec![3u8; n]), &key), Err(CryptoError::DecryptionFailed));
    }
}

#[test]
fn private_key_is_valid_scalar() {
    let order: [u8; 32] = [
        0xFF, 0xFF, 0xFF, 0xFF, 0x00, 0x00, 0x00, 0x00, 0xFF, 0xFF, 0xFF, 0xFF, 0xFF, 0xFF, 0xFF, 0xFF,
        0xBC, 0xE6, 0xFA, 0xAD, 0xA7, 0x17, 0x9E, 0x84, 0xF3, 0xB9, 0xCA, 0xC2, 0xFC, 0x63, 0x25, 0x51,
    ];
    for _ in 0..8 {
        let kp = generate_keypair();
        let sk = kp.private_key();
        assert!(sk.iter().any(|b| *b != 0));
        assert!(sk.as_slice() < &order[..]);
        assert_eq!(kp.public_key().len(), 88);
    }
}

#[test]
fn shortest_hashable_salt_derives() {
    let d = derive_key("pw", Some("abcdefghijk".to_string())).unwrap();
    assert_eq!(d.salt(), "abcdefghijk");
    assert_eq!(decode_base64(&d.key()).unwrap().len(), 32);
    assert_eq!(decode_base64("!!!!"), Err(CryptoError::InvalidEncoding));
}
