use vstd::prelude::*;
use aes_gcm::aead::{Aead, KeyInit};
use crate::codec::{
    base64_decode_standard, base64_encode, base64_encode_standard, base64_std_decode, fill_random,
    lemma_base64_std_decode_encoded,
};
use crate::error::{is_internal, ApiError};

verus! {

/// AES-256-GCM encryption of `plaintext` under `key` and the 12-byte
/// `nonce`, with no associated data: the ciphertext followed by the 16-byte
/// tag, as `aes_gcm` computes it.
pub uninterp spec fn aes256gcm_seal(key: Seq<u8>, nonce: Seq<u8>, plaintext: Seq<u8>) -> Seq<u8>;

/// AES-256-GCM decryption of `sealed` (ciphertext and tag) under `key` and
/// `nonce`: the plaintext, or `None` where the tag does not authenticate.
pub uninterp spec fn aes256gcm_open(key: Seq<u8>, nonce: Seq<u8>, sealed: Seq<u8>) -> Option<Seq<u8>>;

/// The largest plaintext that AES-GCM encrypts (`aes_gcm::P_MAX`, 2^36 bytes).
pub open spec fn aes_gcm_max_plaintext() -> nat {
    0x10_0000_0000
}

/// `aes_gcm::Aes256Gcm::new_from_slice(key)` and then `Aead::encrypt` of
/// `plaintext` under `nonce`. The source refuses (`None`) exactly a plaintext
/// longer than `P_MAX`; otherwise it returns the ciphertext with the 16-byte
/// tag appended, which decryption under the same key and nonce gives back.
#[verifier::external_body]
pub(crate) fn aes_seal(key: &[u8; 32], nonce: &[u8], plaintext: &[u8]) -> (r: Option<Vec<u8>>)
    requires
        nonce@.len() == 12,
    ensures
        r is Some <==> plaintext@.len() <= aes_gcm_max_plaintext(),
        r matches Some(c) ==> {
            &&& c@ == aes256gcm_seal(key@, nonce@, plaintext@)
            &&& c@.len() == plaintext@.len() + 16
            &&& aes256gcm_open(key@, nonce@, c@) == Some(plaintext@)
        },
{
    let cipher = aes_gcm::Aes256Gcm::new_from_slice(key).ok()?;
    cipher.encrypt(aes_gcm::Nonce::from_slice(nonce), plaintext).ok()
}

/// `aes_gcm::Aes256Gcm::new_from_slice(key)` and then `Aead::decrypt` of
/// `sealed` under `nonce`.
#[verifier::external_body]
pub(crate) fn aes_open(key: &[u8; 32], nonce: &[u8], sealed: &[u8]) -> (r: Option<Vec<u8>>)
    requires
        nonce@.len() == 12,
    ensures
        r is Some <==> aes256gcm_open(key@, nonce@, sealed@) is Some,
        r matches Some(p) ==> aes256gcm_open(key@, nonce@, sealed@) == Some(p@),
{
    let cipher = aes_gcm::Aes256Gcm::new_from_slice(key).ok()?;
    cipher.decrypt(aes_gcm::Nonce::from_slice(nonce), sealed).ok()
}

/// `String::from_utf8`: the text that the bytes encode, or the error's text
/// where they are not valid UTF-8.
#[verifier::external_body]
pub(crate) fn utf8_to_string(bytes: Vec<u8>) -> (r: Result<String, String>)
    ensures
        r is Ok <==> vstd::utf8::valid_utf8(bytes@),
        r matches Ok(s) ==> s@ == vstd::utf8::decode_utf8(bytes@),
{
    String::from_utf8(bytes).map_err(|e| e.to_string())
}

/// The stored form of a secret `value` sealed under `key` with `nonce`: the
/// nonce followed by the sealed UTF-8 bytes, in padded standard base64.
pub open spec fn sealed_text(key: Seq<u8>, nonce: Seq<u8>, value: Seq<char>) -> Seq<char> {
    base64_encode(nonce + aes256gcm_seal(key, nonce, vstd::utf8::encode_utf8(value)), false, true)
}

/// The secret that the stored form `text` holds under `key`, or `None` where
/// it cannot be decoded, is too short, does not authenticate or is not text.
pub open spec fn opened_text(key: Seq<u8>, text: Seq<char>) -> Option<Seq<char>> {
    match base64_std_decode(text) {
        None => None,
        Some(packed) => if packed.len() < 13 {
            None
        } else {
            match aes256gcm_open(key, packed.take(12), packed.skip(12)) {
                None => None,
                Some(p) => if vstd::utf8::valid_utf8(p) {
                    Some(vstd::utf8::decode_utf8(p))
                } else {
                    None
                },
            }
        },
    }
}

/// Seals `value` under `key` with the given 12-byte `nonce`.
pub fn encrypt_secret_with_nonce(key: &[u8; 32], nonce: &[u8], value: &str) -> (r: Result<String, ApiError>)
    requires
        nonce@.len() == 12,
    ensures
        r is Ok <==> vstd::utf8::encode_utf8(value@).len() <= aes_gcm_max_plaintext(),
        r matches Ok(t) ==> t@ == sealed_text(key@, nonce@, value@),
        r matches Ok(t) ==> opened_text(key@, t@) == Some(value@),
        r matches Err(e) ==> is_internal(e, "aead::Error"@),
{
    let sealed = match aes_seal(key, nonce, value.as_bytes()) {
        Some(c) => c,
        None => return Err(ApiError::internal("aead::Error")),
    };
    let mut packed: Vec<u8> = Vec::new();
    packed.extend_from_slice(nonce);
    let mut tail = sealed;
    packed.append(&mut tail);
    proof {
        assert(packed@ =~= nonce@ + aes256gcm_seal(key@, nonce@, vstd::utf8::encode_utf8(value@)));
    }
    let text = base64_encode_standard(packed.as_slice());
    proof {
        lemma_base64_std_decode_encoded(packed@);
        lemma_open_sealed(key@, nonce@, value@);
    }
    Ok(text)
}

/// Encrypts a storage credential under the master `key` with a fresh random
/// nonce, for storage as text.
pub fn encrypt_secret(key: &[u8; 32], value: &str) -> (r: Result<String, ApiError>)
    ensures
        r is Ok <==> vstd::utf8::encode_utf8(value@).len() <= aes_gcm_max_plaintext(),
        r matches Ok(t) ==> exists|nonce: Seq<u8>|
            nonce.len() == 12 && t@ == #[trigger] sealed_text(key@, nonce, value@),
        r matches Ok(t) ==> opened_text(key@, t@) == Some(value@),
        r matches Err(e) ==> is_internal(e, "aead::Error"@),
{
    let mut nonce: Vec<u8> = vec![0u8; 12];
    fill_random(&mut nonce);
    encrypt_secret_with_nonce(key, nonce.as_slice(), value)
}

/// Decrypts a storage credential stored as text under the master `key`.
pub fn decrypt_secret(key: &[u8; 32], value: &str) -> (r: Result<String, ApiError>)
    ensures
        r is Ok <==> opened_text(key@, value@) is Some,
        r matches Ok(s) ==> opened_text(key@, value@) == Some(s@),
        base64_std_decode(value@) is None ==> (r matches Err(e) && is_internal(
            e,
            "Stored credential cannot be decoded"@,
        )),
        base64_std_decode(value@) matches Some(p) && p.len() < 13 ==> (r matches Err(e)
            && is_internal(e, "Stored credential is malformed"@)),
        base64_std_decode(value@) matches Some(p) && p.len() >= 13 && aes256gcm_open(
            key@,
            p.take(12),
            p.skip(12),
        ) is None ==> (r matches Err(e) && is_internal(e, "Stored credential cannot be decrypted"@)),
        r matches Err(e) ==> e is Internal,
{
    let mut packed = match base64_decode_standard(value) {
        Some(p) => p,
        None => return Err(ApiError::internal("Stored credential cannot be decoded")),
    };
    proof {
        lemma_base64_std_decode_encoded(packed@);
    }
    if packed.len() < 13 {
        return Err(ApiError::internal("Stored credential is malformed"));
    }
    let ghost whole = packed@;
    let sealed = packed.split_off(12);
    proof {
        assert(packed@ =~= whole.take(12));
        assert(sealed@ =~= whole.skip(12));
    }
    let plain = match aes_open(key, packed.as_slice(), sealed.as_slice()) {
        Some(p) => p,
        None => return Err(ApiError::internal("Stored credential cannot be decrypted")),
    };
    match utf8_to_string(plain) {
        Ok(s) => Ok(s),
        Err(message) => Err(ApiError::Internal(message)),
    }
}

proof fn lemma_open_sealed(key: Seq<u8>, nonce: Seq<u8>, value: Seq<char>)
    requires
        nonce.len() == 12,
        base64_std_decode(sealed_text(key, nonce, value)) == Some(
            nonce + aes256gcm_seal(key, nonce, vstd::utf8::encode_utf8(value)),
        ),
        aes256gcm_open(key, nonce, aes256gcm_seal(key, nonce, vstd::utf8::encode_utf8(value)))
            == Some(vstd::utf8::encode_utf8(value)),
        aes256gcm_seal(key, nonce, vstd::utf8::encode_utf8(value)).len()
            == vstd::utf8::encode_utf8(value).len() + 16,
    ensures
        opened_text(key, sealed_text(key, nonce, value)) == Some(value),
{
    let sealed = aes256gcm_seal(key, nonce, vstd::utf8::encode_utf8(value));
    let packed = nonce + sealed;
    assert(packed.take(12) =~= nonce);
    assert(packed.skip(12) =~= sealed);
    vstd::utf8::encode_utf8_valid_utf8(value);
    vstd::utf8::encode_utf8_decode_utf8(value);
}

} // verus!
