use base64::Engine;
use credstore::keystore::{
    unwrap_master_key, KeyError, MaskUnwrapper, SecretUnwrapper, UnavailableUnwrapper, UnwrapError,
};

fn b64(bytes: &[u8]) -> String {
    base64::engine::general_purpose::STANDARD.encode(bytes)
}

fn key_store_text(encoded: &str) -> String {
    format!("{{\"os_crypt\":{{\"encrypted_key\":\"{}\"}}}}", encoded)
}

#[test]
fn absent_key_store_is_missing() {
    let unwrapper = MaskUnwrapper { mask: 0 };
    assert_eq!(unwrap_master_key(None, &unwrapper), Err(KeyError::MissingKeyStore));
}

#[test]
fn valid_json_without_encrypted_key_is_malformed() {
    let unwrapper = MaskUnwrapper { mask: 0 };
    let text = "{\"os_crypt\":{\"audit_enabled\":true},\"browser\":{}}";
    assert_eq!(unwrap_master_key(Some(text), &unwrapper), Err(KeyError::MalformedKeyStore));
}

#[test]
fn invalid_json_is_malformed() {
    let unwrapper = MaskUnwrapper { mask: 0 };
    assert_eq!(unwrap_master_key(Some("not json {"), &unwrapper), Err(KeyError::MalformedKeyStore));
}

#[test]
fn non_string_encrypted_key_is_malformed() {
    let unwrapper = MaskUnwrapper { mask: 0 };
    let text = "{\"os_crypt\":{\"encrypted_key\":12345}}";
    assert_eq!(unwrap_master_key(Some(text), &unwrapper), Err(KeyError::MalformedKeyStore));
}

#[test]
fn bad_base64_is_invalid_encoding() {
    let unwrapper = MaskUnwrapper { mask: 0 };
    let text = key_store_text("!!! not base64 !!!");
    assert_eq!(
        unwrap_master_key(Some(text.as_str()), &unwrapper),
        Err(KeyError::InvalidEncoding)
    );
}

#[test]
fn decoded_blob_shorter_than_marker_is_invalid_encoding() {
    let unwrapper = MaskUnwrapper { mask: 0 };
    let text = key_store_text(&b64(b"abc"));
    assert_eq!(
        unwrap_master_key(Some(text.as_str()), &unwrapper),
        Err(KeyError::InvalidEncoding)
    );
}

#[test]
fn marker_is_stripped_and_key_unwrapped() {
    let mask = 0xa5u8;
    let unwrapper = MaskUnwrapper { mask };
    let key: Vec<u8> = (100u8..132u8).collect();
    let wrapped: Vec<u8> = key.iter().map(|b| b ^ mask).collect();
    let mut stored = b"DPAPI".to_vec();
    stored.extend_from_slice(&wrapped);
    let text = key_store_text(&b64(&stored));
    assert_eq!(unwrap_master_key(Some(text.as_str()), &unwrapper), Ok(key));
}

#[test]
fn mask_unwrapper_is_symmetric() {
    let unwrapper = MaskUnwrapper { mask: 0x5a };
    let once = unwrapper.unwrap_secret(&[1, 2, 3]).unwrap();
    let twice = unwrapper.unwrap_secret(&once).unwrap();
    assert_eq!(twice, vec![1, 2, 3]);
}

#[test]
fn rejected_unwrap_is_unwrap_failed() {
    let unwrapper = UnavailableUnwrapper { reason: UnwrapError::Failed };
    let text = key_store_text(&b64(b"DPAPIwrappedkey"));
    assert_eq!(
        unwrap_master_key(Some(text.as_str()), &unwrapper),
        Err(KeyError::UnwrapFailed)
    );
}

#[test]
fn timed_out_unwrap_is_timeout() {
    let unwrapper = UnavailableUnwrapper { reason: UnwrapError::TimedOut };
    let text = key_store_text(&b64(b"DPAPIwrappedkey"));
    assert_eq!(unwrap_master_key(Some(text.as_str()), &unwrapper), Err(KeyError::Timeout));
}

#[test]
fn unsupported_platform_is_reported_as_such() {
    let unwrapper = UnavailableUnwrapper { reason: UnwrapError::Unsupported };
    let text = key_store_text(&b64(b"DPAPIwrappedkey"));
    assert_eq!(
        unwrap_master_key(Some(text.as_str()), &unwrapper),
        Err(KeyError::UnsupportedPlatform)
    );
}

#[test]
fn base64_is_really_decoded() {
    let mask = 0u8;
    let unwrapper = MaskUnwrapper { mask };
    let key = vec![0xeeu8; 32];
    let mut stored = b"DPAPI".to_vec();
    stored.extend_from_slice(&key);
    let encoded = b64(&stored);
    assert_ne!(encoded.as_bytes(), &stored[..]);
    let text = key_store_text(&encoded);
    assert_eq!(unwrap_master_key(Some(text.as_str()), &unwrapper), Ok(key));
}
