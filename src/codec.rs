//! Standard Base64 (RFC 4648 alphabet, canonical `=` padding), done by the
//! `base64` crate's `STANDARD` engine.
use base64::engine::general_purpose;
use base64::Engine;
use vstd::prelude::*;

verus! {

#[verifier::external_type_specification]
#[verifier::external_body]
pub struct ExDecodeError(base64::DecodeError);

/// What the standard engine decodes `text` to, or `None` where it reports an
/// error (a symbol outside the alphabet, a wrong length, non-canonical
/// padding or trailing bits).
pub uninterp spec fn base64_decoded(text: Seq<char>) -> Option<Seq<u8>>;

/// What the standard engine encodes `bytes` to.
pub uninterp spec fn base64_encoded(bytes: Seq<u8>) -> Seq<char>;

/// The bytes a Base64 text stands for, with malformed text standing for no
/// bytes at all.
pub open spec fn decoded_content(text: Seq<char>) -> Seq<u8> {
    match base64_decoded(text) {
        Some(bytes) => bytes,
        None => Seq::empty(),
    }
}

/// Relies on `Engine::decode` of `general_purpose::STANDARD`: `Ok` with the
/// decoded bytes, or `Err` for text the engine rejects.
#[verifier::external_body]
pub(crate) fn standard_decode(text: &str) -> (r: Result<Vec<u8>, base64::DecodeError>)
    ensures
        match r {
            Ok(bytes) => base64_decoded(text@) == Some(bytes@),
            Err(_) => base64_decoded(text@) is None,
        },
{
    general_purpose::STANDARD.decode(text)
}

/// Relies on `Engine::encode` of `general_purpose::STANDARD`: canonical padded
/// output, which the same engine decodes back to the input. The engine panics
/// when the output length overflows `usize`, which the bound rules out.
#[verifier::external_body]
fn standard_encode(bytes: &[u8]) -> (r: String)
    requires
        bytes@.len() <= usize::MAX / 2,
    ensures
        r@ == base64_encoded(bytes@),
        base64_decoded(r@) == Some(bytes@),
{
    general_purpose::STANDARD.encode(bytes)
}

/// Encodes `bytes` as standard padded Base64.
///
/// Decoding the result gives `bytes` back: `decode_base64` on it yields a
/// buffer holding exactly these bytes.
pub fn encode_base64(bytes: &[u8]) -> (r: String)
    requires
        bytes@.len() <= usize::MAX / 2,
    ensures
        r@ == base64_encoded(bytes@),
        base64_decoded(r@) == Some(bytes@),
        decoded_content(r@) == bytes@,
{
    standard_encode(bytes)
}

} // verus!
