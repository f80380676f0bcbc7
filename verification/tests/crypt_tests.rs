use credstore::crypt::{decrypt, encrypt};

fn test_key() -> Vec<u8> {
    (0u8..32u8).collect()
}

fn test_nonce() -> Vec<u8> {
    vec![9u8; 12]
}

#[test]
fn decrypt_empty_blob_is_empty() {
    let key = test_key();
    assert_eq!(decrypt(&[], &key), "");
}

#[test]
fn decrypt_short_blobs_are_empty_without_cipher() {
    let key = test_key();
    for len in 0..15usize {
        let blob = vec![0x41u8; len];
        assert_eq!(decrypt(&blob, &key), "");
    }
}

#[test]
fn decrypt_fourteen_bytes_is_empty() {
    let key = test_key();
    let blob = vec![0xffu8; 14];
    assert_eq!(decrypt(&blob, &key), "");
}

#[test]
fn decrypt_wrong_key_length_is_empty() {
    let nonce = test_nonce();
    let key = test_key();
    let blob = encrypt("abc", &key, &nonce).unwrap();
    let short_key = vec![1u8; 16];
    assert_eq!(decrypt(&blob, &short_key), "");
}

#[test]
fn round_trip_recovers_plaintext() {
    let key = test_key();
    let nonce = test_nonce();
    for text in ["", "a", "session-token=abc123; Secure", "naïve café — ünïcode ✓"] {
        let blob = encrypt(text, &key, &nonce).unwrap();
        assert_eq!(blob.len(), text.len() + 15 + 16);
        assert_eq!(&blob[3..15], &nonce[..]);
        assert_eq!(decrypt(&blob, &key), text);
    }
}

#[test]
fn encrypt_does_not_echo_plaintext() {
    let key = test_key();
    let nonce = test_nonce();
    let blob = encrypt("hello hello hello", &key, &nonce).unwrap();
    let body = &blob[15..blob.len() - 16];
    assert_eq!(body.len(), "hello hello hello".len());
    assert_ne!(body, "hello hello hello".as_bytes());
}

#[test]
fn tampering_any_ciphertext_or_tag_byte_gives_empty() {
    let key = test_key();
    let nonce = test_nonce();
    let blob = encrypt("credit-card=4111111111111111", &key, &nonce).unwrap();
    for i in 15..blob.len() {
        for bit in [0x01u8, 0x80u8] {
            let mut tampered = blob.clone();
            tampered[i] ^= bit;
            assert_eq!(decrypt(&tampered, &key), "");
        }
    }
}

#[test]
fn tampering_nonce_gives_empty() {
    let key = test_key();
    let nonce = test_nonce();
    let blob = encrypt("secret", &key, &nonce).unwrap();
    for i in 3..15 {
        let mut tampered = blob.clone();
        tampered[i] ^= 0x01;
        assert_eq!(decrypt(&tampered, &key), "");
    }
}

#[test]
fn decrypt_with_wrong_key_gives_empty() {
    let key = test_key();
    let nonce = test_nonce();
    let blob = encrypt("secret", &key, &nonce).unwrap();
    let other_key = vec![0x55u8; 32];
    assert_eq!(decrypt(&blob, &other_key), "");
}

#[test]
fn version_prefix_is_ignored_by_decryption() {
    let key = test_key();
    let nonce = test_nonce();
    let mut blob = encrypt("prefix does not matter", &key, &nonce).unwrap();
    blob[0] = b'v';
    blob[1] = b'9';
    blob[2] = b'9';
    assert_eq!(decrypt(&blob, &key), "prefix does not matter");
}
