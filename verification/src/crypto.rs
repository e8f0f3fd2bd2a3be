//! Secrets that are embedded in the application: sealed with AES-256-GCM
//! and written in base64.

use vstd::prelude::*;
use aes_gcm::aead::{Aead, KeyInit};
use crate::text::trim::{trim, trim_chars};
use crate::text::{chars_of, copy_bytes, string_of};

verus! {

/// The secrets, once they are decrypted.
#[derive(Debug, Clone)]
pub struct EmbeddedSecrets {
    /// Consumer key of the Discogs service.
    pub discogs_consumer_key: String,
    /// Consumer secret of the Discogs service.
    pub discogs_consumer_secret: String,
}

impl EmbeddedSecrets {
    /// Whether both the key and the secret are there.
    pub fn has_credentials(&self) -> (r: bool)
        ensures
            r == (self.discogs_consumer_key@.len() > 0 && self.discogs_consumer_secret@.len() > 0),
    {
        !self.discogs_consumer_key.as_str().is_empty()
            && !self.discogs_consumer_secret.as_str().is_empty()
    }
}

/// The bytes that a text in standard base64 with padding stands for:
/// what `Engine::decode` of the `STANDARD` engine yields. `None` where the
/// text is not valid.
pub uninterp spec fn base64_decoded(text: Seq<char>) -> Option<Seq<u8>>;

/// What AES-256-GCM opens `sealed` to, ciphertext and tag, under a key of
/// 32 bytes and a nonce of 12 bytes, without associated data: what
/// `Aead::decrypt` yields. `None` where the tag does not hold.
pub uninterp spec fn aes_gcm_opened(key: Seq<u8>, nonce: Seq<u8>, sealed: Seq<u8>) -> Option<
    Seq<u8>,
>;

/// `Engine::decode` of base64's `STANDARD` engine.
#[verifier::external_body]
pub(crate) fn base64_decode(text: &str) -> (r: Option<Vec<u8>>)
    ensures
        match r {
            Some(bytes) => base64_decoded(text@) == Some(bytes@),
            None => base64_decoded(text@) is None,
        },
{
    base64::Engine::decode(&base64::engine::general_purpose::STANDARD, text).ok()
}

/// `Aes256Gcm::new_from_slice`, then `Aead::decrypt`. The key has 32
/// bytes and the nonce 12: with another length the first fails and
/// `Nonce::from_slice` panics.
#[verifier::external_body]
pub(crate) fn open_sealed(key: &[u8], nonce: &[u8], sealed: &[u8]) -> (r: Option<Vec<u8>>)
    requires
        key@.len() == 32,
        nonce@.len() == 12,
    ensures
        match r {
            Some(plain) => aes_gcm_opened(key@, nonce@, sealed@) == Some(plain@),
            None => aes_gcm_opened(key@, nonce@, sealed@) is None,
        },
{
    match aes_gcm::Aes256Gcm::new_from_slice(key) {
        Ok(cipher) => cipher.decrypt(aes_gcm::Nonce::from_slice(nonce), sealed).ok(),
        Err(_) => None,
    }
}

/// What sealed data open to under a key: the first 12 bytes are the
/// nonce, the rest is opened. Nothing where the key does not have 32
/// bytes or the data are shorter than a nonce.
pub open spec fn opened(key: Seq<u8>, data: Seq<u8>) -> Option<Seq<u8>> {
    if key.len() != 32 || data.len() < 12 {
        None
    } else {
        aes_gcm_opened(key, data.take(12), data.skip(12))
    }
}

/// The plain bytes of embedded secrets: nothing where no secrets are
/// embedded, no key is given, or the key or the secrets are not valid
/// base64; else what the secrets, trimmed and taken out of base64, open
/// to under the key.
pub open spec fn secrets_plaintext(encrypted: Seq<char>, key_base64: Option<Seq<char>>) -> Option<
    Seq<u8>,
> {
    if encrypted.len() == 0 {
        None
    } else {
        match key_base64 {
            Some(k) => match (base64_decoded(k), base64_decoded(trim(encrypted))) {
                (Some(key), Some(data)) => opened(key, data),
                _ => None,
            },
            None => None,
        }
    }
}

/// Opens sealed data under a key.
pub fn open_data(key: &[u8], data: &[u8]) -> (r: Option<Vec<u8>>)
    ensures
        match r {
            Some(plain) => opened(key@, data@) == Some(plain@),
            None => opened(key@, data@) is None,
        },
{
    if key.len() != 32 || data.len() < 12 {
        return None;
    }
    let nonce = copy_bytes(data, 0, 12);
    let sealed = copy_bytes(data, 12, data.len());
    proof {
        assert(data@.take(12) =~= data@.subrange(0, 12));
        assert(data@.skip(12) =~= data@.subrange(12, data@.len() as int));
    }
    open_sealed(key, nonce.as_slice(), sealed.as_slice())
}

/// The plain bytes of embedded secrets under a key in base64.
pub fn decrypt_secrets(encrypted: &str, key_base64: Option<&str>) -> (r: Option<Vec<u8>>)
    ensures
        match r {
            Some(plain) => secrets_plaintext(
                encrypted@,
                match key_base64 {
                    Some(k) => Some(k@),
                    None => None,
                },
            ) == Some(plain@),
            None => secrets_plaintext(
                encrypted@,
                match key_base64 {
                    Some(k) => Some(k@),
                    None => None,
                },
            ) is None,
        },
{
    let text = chars_of(encrypted);
    if text.len() == 0 {
        return None;
    }
    let key_text: &str = match key_base64 {
        Some(k) => k,
        None => {
            return None;
        },
    };
    let key = match base64_decode(key_text) {
        Some(bytes) => bytes,
        None => {
            return None;
        },
    };
    let body = string_of(trim_chars(text.as_slice()).as_slice());
    let data = match base64_decode(body.as_str()) {
        Some(bytes) => bytes,
        None => {
            return None;
        },
    };
    open_data(key.as_slice(), data.as_slice())
}

} // verus!
