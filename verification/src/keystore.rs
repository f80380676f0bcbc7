//! Recovery of the profile master key from the key-store file.
//!
//! The key-store text is JSON whose member `os_crypt.encrypted_key` holds,
//! base64-encoded, a 5-byte ASCII marker followed by the wrapped master
//! key.  The wrapped key is handed to a [`SecretUnwrapper`], the one
//! platform-bound step, kept behind an interface so the pipeline itself is
//! platform-free.  Every failure is a typed error, never a panic.

use base64::Engine;
use vstd::prelude::*;
use vstd::slice::slice_subrange;

verus! {

/// Why the master key could not be recovered.  Any of these is fatal to
/// the decryption path for the whole profile.
#[derive(Debug, PartialEq, Eq, Clone, Copy)]
pub enum KeyError {
    /// The key-store file is absent or unreadable.
    MissingKeyStore,
    /// The key-store text is not valid JSON, or `os_crypt.encrypted_key`
    /// is missing or not a string.
    MalformedKeyStore,
    /// The encoded key is not valid base64, or too short to carry the
    /// marker prefix.
    InvalidEncoding,
    /// The platform facility rejected the wrapped key.
    UnwrapFailed,
    /// The platform facility did not answer in time.
    Timeout,
    /// No unwrap facility exists on this platform.
    UnsupportedPlatform,
}

/// Why one unwrap call failed.
#[derive(Debug, PartialEq, Eq, Clone, Copy)]
pub enum UnwrapError {
    Failed,
    TimedOut,
    Unsupported,
}

/// The platform's secret-unwrap capability: wrapped bytes in, key bytes
/// out, fallible.  The one platform-bound step of the pipeline stands
/// behind this interface; a deployment binds it to the host facility,
/// while tests bind it to a fixed transform.
pub trait SecretUnwrapper {
    /// The key this unwrapper stands for on the given wrapped bytes, or
    /// `None` where it rejects them.
    spec fn model(&self, wrapped: Seq<u8>) -> Option<Seq<u8>>;

    /// Unwrap one wrapped key blob.  An implementation may fail on any
    /// input; where it succeeds it returns exactly the modelled key.
    fn unwrap_secret(&self, wrapped: &[u8]) -> (r: Result<Vec<u8>, UnwrapError>)
        ensures
            (match r {
                Ok(key) => self.model(wrapped@) == Some(key@),
                Err(_) => true,
            }),
    ;
}

/// An unwrapper over a fixed symmetric transform: each byte is combined
/// with a fixed mask.  This implementation accepts every blob; through
/// the trait, callers rely only on the promise that a returned key is
/// the modelled one.  It lets the pipeline run where no platform
/// facility exists.
pub struct MaskUnwrapper {
    pub mask: u8,
}

impl SecretUnwrapper for MaskUnwrapper {
    open spec fn model(&self, wrapped: Seq<u8>) -> Option<Seq<u8>> {
        Some(Seq::new(wrapped.len(), |i: int| wrapped[i] ^ self.mask))
    }

    fn unwrap_secret(&self, wrapped: &[u8]) -> (r: Result<Vec<u8>, UnwrapError>)
        ensures
            (match r {
                Ok(key) => self.model(wrapped@) == Some(key@),
                Err(_) => true,
            }),
    {
        let mut out: Vec<u8> = Vec::new();
        let n: usize = wrapped.len();
        for i in 0..n
            invariant
                n == wrapped@.len(),
                out@.len() == i,
                forall|j: int| 0 <= j < i ==> out@[j] == (wrapped@[j] ^ self.mask),
        {
            out.push(wrapped[i] ^ self.mask);
        }
        proof {
            assert(out@ =~= Seq::new(wrapped@.len(), |i: int| wrapped@[i] ^ self.mask));
        }
        Ok(out)
    }
}

/// An unwrapper for hosts without an unwrap facility: it refuses every
/// blob with the given reason and stands for no key at all.
pub struct UnavailableUnwrapper {
    pub reason: UnwrapError,
}

impl SecretUnwrapper for UnavailableUnwrapper {
    open spec fn model(&self, wrapped: Seq<u8>) -> Option<Seq<u8>> {
        None
    }

    fn unwrap_secret(&self, wrapped: &[u8]) -> (r: Result<Vec<u8>, UnwrapError>)
        ensures
            (match r {
                Ok(key) => self.model(wrapped@) == Some(key@),
                Err(_) => true,
            }),
    {
        Err(self.reason)
    }
}

/// The nested string member of a JSON document: the characters of member
/// `inner` of member `outer`, exactly when the text parses as JSON and
/// that member is a string.  The result depends on the arguments alone.
pub uninterp spec fn json_nested_str(text: Seq<char>, outer: Seq<char>, inner: Seq<char>) -> Option<
    Seq<char>,
>;

/// Relies on `json::parse`, on member indexing of `json::JsonValue`
/// (a missing member or a non-object indexes as `Null`), and on
/// `JsonValue::as_str` (`Some` exactly for a string value).
#[verifier::external_body]
fn parse_nested_string(text: &str, outer: &str, inner: &str) -> (r: Option<String>)
    ensures
        (match r {
            Some(s) => json_nested_str(text@, outer@, inner@) == Some(s@),
            None => json_nested_str(text@, outer@, inner@) is None,
        }),
{
    match json::parse(text) {
        Ok(doc) => doc[outer][inner].as_str().map(|s| s.to_string()),
        Err(_) => None,
    }
}

/// The bytes that standard base64 decoding yields for the text, or `None`
/// where the text is not valid base64.  The result depends on the text
/// alone.
pub uninterp spec fn base64_decoded(text: Seq<char>) -> Option<Seq<u8>>;

/// Relies on `base64::engine::general_purpose::STANDARD`, through
/// `base64::Engine::decode`.
#[verifier::external_body]
fn base64_decode(text: &str) -> (r: Option<Vec<u8>>)
    ensures
        (match r {
            Some(bytes) => base64_decoded(text@) == Some(bytes@),
            None => base64_decoded(text@) is None,
        }),
{
    base64::engine::general_purpose::STANDARD.decode(text).ok()
}

/// The base64 string under `os_crypt.encrypted_key` in the key-store
/// text, where present.
pub open spec fn encrypted_key_field(text: Seq<char>) -> Option<Seq<char>> {
    json_nested_str(text, "os_crypt"@, "encrypted_key"@)
}

/// Recover the raw master key from the key-store text.
///
/// `local_state` carries the text of the key-store file, or `None` where
/// the file is absent or unreadable.  The pipeline reads the base64 member
/// `os_crypt.encrypted_key`, decodes it, requires at least the 5-byte
/// marker, strips the marker, and hands the remainder to the unwrapper.
/// Each error names exactly the step that failed; a result of `Ok` carries
/// exactly the key the unwrapper stands for on the stripped blob.
pub fn unwrap_master_key<U: SecretUnwrapper>(local_state: Option<&str>, unwrapper: &U) -> (r:
    Result<Vec<u8>, KeyError>)
    ensures
        (match local_state {
            None => r == Err::<Vec<u8>, KeyError>(KeyError::MissingKeyStore),
            Some(text) => (match encrypted_key_field(text@) {
                None => r == Err::<Vec<u8>, KeyError>(KeyError::MalformedKeyStore),
                Some(encoded) => (match base64_decoded(encoded) {
                    None => r == Err::<Vec<u8>, KeyError>(KeyError::InvalidEncoding),
                    Some(blob) => if blob.len() < 5 {
                        r == Err::<Vec<u8>, KeyError>(KeyError::InvalidEncoding)
                    } else {
                        match r {
                            Ok(key) => unwrapper.model(
                                blob.subrange(5, blob.len() as int),
                            ) == Some(key@),
                            Err(e) => e == KeyError::UnwrapFailed || e == KeyError::Timeout
                                || e == KeyError::UnsupportedPlatform,
                        }
                    },
                }),
            }),
        }),
{
    let text = match local_state {
        Some(t) => t,
        None => {
            return Err(KeyError::MissingKeyStore);
        },
    };
    let encoded = match parse_nested_string(text, "os_crypt", "encrypted_key") {
        Some(s) => s,
        None => {
            return Err(KeyError::MalformedKeyStore);
        },
    };
    let blob = match base64_decode(encoded.as_str()) {
        Some(b) => b,
        None => {
            return Err(KeyError::InvalidEncoding);
        },
    };
    if blob.len() < 5 {
        return Err(KeyError::InvalidEncoding);
    }
    let wrapped = slice_subrange(blob.as_slice(), 5, blob.len());
    match unwrapper.unwrap_secret(wrapped) {
        Ok(key) => Ok(key),
        Err(UnwrapError::Failed) => Err(KeyError::UnwrapFailed),
        Err(UnwrapError::TimedOut) => Err(KeyError::Timeout),
        Err(UnwrapError::Unsupported) => Err(KeyError::UnsupportedPlatform),
    }
}

} // verus!
