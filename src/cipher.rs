//! AES-256-GCM encryption of the vault payload.
//!
//! A blob is the base64 text of `nonce || ciphertext || tag`, with a fresh
//! random 96-bit nonce for every call of `encrypt`.

use crate::encoding::{b64_decode, b64_decoded, b64_encode, b64_encoded};
use crate::random::random_bytes;
use aes_gcm::aead::{Aead, KeyInit};
use vstd::prelude::*;

verus! {

#[verifier::external_type_specification]
#[verifier::external_body]
pub struct ExAeadError(aes_gcm::Error);

/// Length of the nonce that starts every decoded blob.
pub const NONCE_SIZE: usize = 12;

/// Length of the authentication tag that follows the ciphertext.
pub const TAG_SIZE: usize = 16;

/// The longest plaintext that AES-GCM accepts: 2^36 bytes.
pub const PLAINTEXT_MAX: u64 = 0x10_0000_0000;

/// Why a blob could not be made or opened.
#[derive(Debug, PartialEq, Eq, Structural)]
pub enum CipherError {
    /// The plaintext is too long for AES-GCM.
    EncryptionFailed,
    /// Wrong key, altered ciphertext, or a payload cut short: one outcome.
    DecryptionFailed,
    /// The blob is not base64, or too short to hold a nonce.
    InvalidFormat,
}

/// AES-256-GCM ciphertext and tag of `plaintext`, without associated data.
pub uninterp spec fn gcm_sealed(key: Seq<u8>, nonce: Seq<u8>, plaintext: Seq<u8>) -> Seq<u8>;

/// AES-256-GCM plaintext of `ciphertext` if its tag is authentic.
pub uninterp spec fn gcm_opened(key: Seq<u8>, nonce: Seq<u8>, ciphertext: Seq<u8>) -> Option<
    Seq<u8>,
>;

/// Relies on `Aead::encrypt` of `aes_gcm::Aes256Gcm` with no associated
/// data: it fails only for a plaintext over 2^36 bytes; what it returns is
/// the ciphertext (as long as the plaintext) followed by a 16-byte tag, and
/// opens to the same plaintext under the same key and nonce.
#[verifier::external_body]
fn gcm_seal(key: &[u8; 32], nonce: &[u8], plaintext: &[u8]) -> (r: Result<Vec<u8>, aes_gcm::Error>)
    requires
        nonce@.len() == NONCE_SIZE,
    ensures
        r is Ok <==> plaintext@.len() <= PLAINTEXT_MAX,
        r matches Ok(c) ==> c@.len() == plaintext@.len() + TAG_SIZE,
        r matches Ok(c) ==> c@ == gcm_sealed(key@, nonce@, plaintext@) && gcm_opened(
            key@,
            nonce@,
            c@,
        ) == Some(plaintext@),
{
    let cipher = aes_gcm::Aes256Gcm::new(key.into());
    cipher.encrypt(aes_gcm::Nonce::from_slice(nonce), plaintext)
}

/// Relies on `Aead::decrypt` of `aes_gcm::Aes256Gcm` with no associated data.
#[verifier::external_body]
fn gcm_open(key: &[u8; 32], nonce: &[u8], ciphertext: &[u8]) -> (r: Result<Vec<u8>, aes_gcm::Error>)
    requires
        nonce@.len() == NONCE_SIZE,
    ensures
        match r {
            Ok(p) => gcm_opened(key@, nonce@, ciphertext@) == Some(p@),
            Err(_) => gcm_opened(key@, nonce@, ciphertext@) is None,
        },
{
    let cipher = aes_gcm::Aes256Gcm::new(key.into());
    cipher.decrypt(aes_gcm::Nonce::from_slice(nonce), ciphertext)
}

/// `text` is the blob of `plaintext` under `key` for some nonce: it decodes to
/// that nonce followed by the sealed payload, which opens to `plaintext`.
pub open spec fn sealed_by(key: Seq<u8>, plaintext: Seq<u8>, text: Seq<char>) -> bool {
    exists|nonce: Seq<u8>| #[trigger] sealed_with(key, plaintext, text, nonce)
}

/// `text` is the blob of `plaintext` under `key` with the given nonce.
pub open spec fn sealed_with(key: Seq<u8>, plaintext: Seq<u8>, text: Seq<char>, nonce: Seq<u8>) -> bool {
    let body = gcm_sealed(key, nonce, plaintext);
    &&& nonce.len() == NONCE_SIZE
    &&& body.len() == plaintext.len() + TAG_SIZE
    &&& text == b64_encoded(nonce + body)
    &&& b64_decoded(text) == Some(nonce + body)
    &&& gcm_opened(key, nonce, body) == Some(plaintext)
}

/// What `decrypt` returns for a key and a blob.
pub open spec fn decrypt_spec(key: Seq<u8>, text: Seq<char>) -> Result<Seq<u8>, CipherError> {
    match b64_decoded(text) {
        None => Err(CipherError::InvalidFormat),
        Some(bytes) => if bytes.len() < NONCE_SIZE {
            Err(CipherError::InvalidFormat)
        } else {
            match gcm_opened(
                key,
                bytes.subrange(0, NONCE_SIZE as int),
                bytes.subrange(NONCE_SIZE as int, bytes.len() as int),
            ) {
                Some(p) => Ok(p),
                None => Err(CipherError::DecryptionFailed),
            }
        },
    }
}

/// Encrypts `plaintext` under `key` with a fresh random nonce.
pub fn encrypt(key: &[u8; 32], plaintext: &[u8]) -> (r: Result<String, CipherError>)
    ensures
        r is Ok <==> plaintext@.len() <= PLAINTEXT_MAX,
        r matches Ok(s) ==> sealed_by(key@, plaintext@, s@),
        r matches Err(e) ==> e == CipherError::EncryptionFailed,
{
    let mut nonce = random_bytes(NONCE_SIZE);
    let sealed = gcm_seal(key, nonce.as_slice(), plaintext);
    match sealed {
        Err(_) => Err(CipherError::EncryptionFailed),
        Ok(body) => {
            let ghost n = nonce@;
            let ghost b = body@;
            let mut body = body;
            nonce.append(&mut body);
            let s = b64_encode(nonce.as_slice());
            assert(sealed_with(key@, plaintext@, s@, n));
            Ok(s)
        },
    }
}

/// Decrypts a blob that `encrypt` made.
pub fn decrypt(key: &[u8; 32], ciphertext_b64: &str) -> (r: Result<Vec<u8>, CipherError>)
    ensures
        match r {
            Ok(p) => decrypt_spec(key@, ciphertext_b64@) == Ok::<Seq<u8>, CipherError>(p@),
            Err(e) => decrypt_spec(key@, ciphertext_b64@) == Err::<Seq<u8>, CipherError>(e),
        },
{
    let combined = match b64_decode(ciphertext_b64) {
        Ok(v) => v,
        Err(_) => return Err(CipherError::InvalidFormat),
    };
    if combined.len() < NONCE_SIZE {
        return Err(CipherError::InvalidFormat);
    }
    let nonce = vstd::slice::slice_subrange(combined.as_slice(), 0, NONCE_SIZE);
    let body = vstd::slice::slice_subrange(combined.as_slice(), NONCE_SIZE, combined.len());
    match gcm_open(key, nonce, body) {
        Ok(p) => Ok(p),
        Err(_) => Err(CipherError::DecryptionFailed),
    }
}

/// Decrypting under the same key gives back what was encrypted.
pub proof fn lemma_decrypt_inverts_encrypt(key: Seq<u8>, plaintext: Seq<u8>, text: Seq<char>)
    requires
        sealed_by(key, plaintext, text),
    ensures
        decrypt_spec(key, text) == Ok::<Seq<u8>, CipherError>(plaintext),
{
    let nonce = choose|nonce: Seq<u8>| sealed_with(key, plaintext, text, nonce);
    let body = gcm_sealed(key, nonce, plaintext);
    let bytes = nonce + body;
    assert(bytes.subrange(0, NONCE_SIZE as int) =~= nonce);
    assert(bytes.subrange(NONCE_SIZE as int, bytes.len() as int) =~= body);
}

} // verus!
