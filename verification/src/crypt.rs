//! Authenticated decryption of per-value encrypted blobs.
//!
//! A stored blob is laid out as a 3-byte version prefix, a 12-byte nonce,
//! and the ciphertext followed by a 16-byte authentication tag.  Decryption
//! never fails toward the caller: every malformed or inauthentic blob
//! decrypts to the empty string, so that reading one bad cell never aborts
//! the extraction of the surrounding row.

use crate::values::{ColVal, ColumnValue, SqlValue};
use aes_gcm::aead::Aead;
use aes_gcm::{Aes256Gcm, KeyInit};
use vstd::prelude::*;
use vstd::slice::slice_subrange;
use vstd::utf8::{decode_utf8, encode_utf8, encode_utf8_decode_utf8, encode_utf8_valid_utf8, valid_utf8};

verus! {

/// Plaintext that AES-256-GCM yields for the given 32-byte key, 12-byte
/// nonce and ciphertext-with-trailing-tag, or `None` when the tag does not
/// verify.  The result depends on the arguments alone.
pub uninterp spec fn aead_open(key: Seq<u8>, nonce: Seq<u8>, ciphertext: Seq<u8>) -> Option<Seq<u8>>;

/// Ciphertext with trailing tag that AES-256-GCM produces for the given
/// 32-byte key, 12-byte nonce and plaintext.  The result depends on the
/// arguments alone.
pub uninterp spec fn aead_seal(key: Seq<u8>, nonce: Seq<u8>, plaintext: Seq<u8>) -> Seq<u8>;

/// Relies on `aes_gcm::Aes256Gcm` through `aead::Aead::decrypt`, with no
/// associated data: the call returns the plaintext exactly when the
/// trailing 16-byte tag verifies, and an error otherwise.
#[verifier::external_body]
fn aead_decrypt(key: &[u8], nonce: &[u8], ciphertext: &[u8]) -> (r: Option<Vec<u8>>)
    requires
        key@.len() == 32,
        nonce@.len() == 12,
    ensures
        (match r {
            Some(plaintext) => aead_open(key@, nonce@, ciphertext@) == Some(plaintext@),
            None => aead_open(key@, nonce@, ciphertext@) is None,
        }),
{
    let nonce_arr: [u8; 12] = match nonce.try_into() {
        Ok(a) => a,
        Err(_) => return None,
    };
    let cipher = match Aes256Gcm::new_from_slice(key) {
        Ok(c) => c,
        Err(_) => return None,
    };
    cipher.decrypt(&nonce_arr.into(), ciphertext).ok()
}

/// Relies on `aes_gcm::Aes256Gcm` through `aead::Aead::encrypt`, with no
/// associated data: the call appends the 16-byte tag to the ciphertext,
/// decrypting its result with the same key and nonce yields the
/// plaintext back, and the only failure its source has is a plaintext
/// over the GCM cap of 68719476704 bytes.
#[verifier::external_body]
fn aead_encrypt(key: &[u8], nonce: &[u8], plaintext: &[u8]) -> (r: Option<Vec<u8>>)
    requires
        key@.len() == 32,
        nonce@.len() == 12,
    ensures
        plaintext@.len() <= 68719476704 ==> r is Some,
        (match r {
            Some(sealed) => {
                &&& sealed@ == aead_seal(key@, nonce@, plaintext@)
                &&& sealed@.len() == plaintext@.len() + 16
                &&& aead_open(key@, nonce@, sealed@) == Some(plaintext@)
            },
            None => true,
        }),
{
    let nonce_arr: [u8; 12] = match nonce.try_into() {
        Ok(a) => a,
        Err(_) => return None,
    };
    let cipher = match Aes256Gcm::new_from_slice(key) {
        Ok(c) => c,
        Err(_) => return None,
    };
    cipher.encrypt(&nonce_arr.into(), plaintext).ok()
}

/// Relies on `String::from_utf8`: the call returns the decoded string
/// exactly when the bytes are valid UTF-8.
#[verifier::external_body]
fn bytes_to_string(bytes: Vec<u8>) -> (r: Option<String>)
    ensures
        (match r {
            Some(text) => valid_utf8(bytes@) && text@ == decode_utf8(bytes@),
            None => !valid_utf8(bytes@),
        }),
{
    String::from_utf8(bytes).ok()
}

/// Field plaintext recovered from a stored blob with the given master key.
///
/// Blobs shorter than the 15-byte header (3-byte version prefix plus
/// 12-byte nonce), keys that are not 32 bytes, inauthentic ciphertexts and
/// non-UTF-8 plaintexts all yield the empty string.
pub open spec fn decrypted_field(blob: Seq<u8>, key: Seq<u8>) -> Seq<char> {
    if key.len() != 32 || blob.len() < 15 {
        Seq::empty()
    } else {
        match aead_open(key, blob.subrange(3, 15), blob.subrange(15, blob.len() as int)) {
            Some(plaintext) => if valid_utf8(plaintext) {
                decode_utf8(plaintext)
            } else {
                Seq::empty()
            },
            None => Seq::empty(),
        }
    }
}

/// Decrypt one stored blob.  All failure modes degrade to the empty
/// string; in particular a blob shorter than 15 bytes is rejected before
/// the cipher is ever consulted.
pub fn decrypt(data: &[u8], decryption_key: &[u8]) -> (r: String)
    ensures
        r@ == decrypted_field(data@, decryption_key@),
        data@.len() < 15 ==> r@ == Seq::<char>::empty(),
{
    if decryption_key.len() != 32 {
        return String::new();
    }
    if data.len() < 15 {
        return String::new();
    }
    let nonce = slice_subrange(data, 3, 15);
    let cipherdata = slice_subrange(data, 15, data.len());
    match aead_decrypt(decryption_key, nonce, cipherdata) {
        Some(plaintext) => match bytes_to_string(plaintext) {
            Some(text) => text,
            None => String::new(),
        },
        None => String::new(),
    }
}

/// Seal a UTF-8 string into the stored-blob layout: a 3-byte version
/// prefix, the given 12-byte nonce, then the ciphertext with its tag.
///
/// Success is owed whenever the encoded plaintext is within the GCM cap
/// of 68719476704 bytes, and the last clause of the contract is the
/// round trip: decrypting the sealed blob with the same key yields the
/// original string.
pub fn encrypt(plaintext: &str, key: &[u8], nonce: &[u8]) -> (r: Option<Vec<u8>>)
    requires
        key@.len() == 32,
        nonce@.len() == 12,
    ensures
        encode_utf8(plaintext@).len() <= 68719476704 ==> r is Some,
        (match r {
            Some(blob) => {
                &&& blob@.len() == 15 + aead_seal(key@, nonce@, encode_utf8(plaintext@)).len()
                &&& blob@.subrange(0, 3) == seq![118u8, 49u8, 48u8]
                &&& blob@.subrange(3, 15) == nonce@
                &&& blob@.subrange(15, blob@.len() as int) == aead_seal(key@, nonce@, encode_utf8(plaintext@))
                &&& decrypted_field(blob@, key@) == plaintext@
            },
            None => true,
        }),
{
    let plaintext_bytes = plaintext.as_bytes();
    match aead_encrypt(key, nonce, plaintext_bytes) {
        Some(sealed) => {
            let mut blob: Vec<u8> = Vec::new();
            blob.push(118u8);
            blob.push(49u8);
            blob.push(48u8);
            blob.extend_from_slice(nonce);
            blob.extend_from_slice(sealed.as_slice());
            proof {
                encode_utf8_valid_utf8(plaintext@);
                encode_utf8_decode_utf8(plaintext@);
                assert(blob@.subrange(0, 3) =~= seq![118u8, 49u8, 48u8]);
                assert(blob@.subrange(3, 15) =~= nonce@);
                assert(blob@.subrange(15, blob@.len() as int) =~= sealed@);
            }
            Some(blob)
        },
        None => None,
    }
}

/// Model of decrypting one optional column cell: only a blob cell is
/// decrypted, into a text value; every other cell becomes `Null`.
pub open spec fn decrypted_sql(value: ColVal, key: Seq<u8>) -> ColVal {
    match value {
        ColVal::Blob(b) => ColVal::Text(decrypted_field(b, key)),
        _ => ColVal::Null,
    }
}

/// Decrypt one optional column cell with the master key.  A cell that is
/// absent or not a blob becomes `Null`; a blob cell becomes the text that
/// `decrypt` recovers from it, possibly empty.
pub fn decrypt_sql_value(value: Option<&ColumnValue>, decryption_key: &[u8]) -> (r: SqlValue)
    ensures
        (match value {
            Some(v) => r.value@ == decrypted_sql(v@, decryption_key@),
            None => r.value@ is Null,
        }),
{
    let data = match value {
        Some(ColumnValue::Blob(data)) => data,
        _ => {
            return SqlValue::default();
        },
    };
    let text = decrypt(data.as_slice(), decryption_key);
    SqlValue { value: ColumnValue::Text(text) }
}

} // verus!
