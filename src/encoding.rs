//! Base64 text for the bytes that the vault and the session file store.

use base64::engine::general_purpose::STANDARD;
use base64::Engine;
use vstd::prelude::*;

verus! {

#[verifier::external_type_specification]
#[verifier::external_body]
pub struct ExDecodeError(base64::DecodeError);

/// The standard, padded base64 text of some bytes.
pub uninterp spec fn b64_encoded(bytes: Seq<u8>) -> Seq<char>;

/// The bytes that a standard, padded base64 text stands for, if it is one.
pub uninterp spec fn b64_decoded(text: Seq<char>) -> Option<Seq<u8>>;

/// Relies on `base64::Engine::encode` with the `STANDARD` engine: the text
/// that it returns decodes back to the same bytes.
#[verifier::external_body]
pub(crate) fn b64_encode(bytes: &[u8]) -> (r: String)
    ensures
        r@ == b64_encoded(bytes@),
        b64_decoded(r@) == Some(bytes@),
{
    STANDARD.encode(bytes)
}

/// Relies on `base64::Engine::decode` with the `STANDARD` engine.
#[verifier::external_body]
pub(crate) fn b64_decode(text: &str) -> (r: Result<Vec<u8>, base64::DecodeError>)
    ensures
        match r {
            Ok(v) => b64_decoded(text@) == Some(v@),
            Err(_) => b64_decoded(text@) is None,
        },
{
    STANDARD.decode(text)
}

} // verus!
