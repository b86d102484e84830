//! Base64 payloads of `Data` messages, through the `base64` crate's
//! standard engine (RFC 4648 alphabet, canonical padding).

use vstd::prelude::*;
use base64::Engine;

verus! {

#[verifier::external_type_specification]
#[verifier::external_body]
pub struct ExDecodeError(base64::DecodeError);

/// The text that `base64::engine::general_purpose::STANDARD.encode` produces for `data`.
pub uninterp spec fn standard_encoded(data: Seq<u8>) -> Seq<char>;

/// The bytes that `base64::engine::general_purpose::STANDARD.decode` gives for `text`,
/// or `None` where it answers with an error.
pub uninterp spec fn standard_decoded(text: Seq<char>) -> Option<Seq<u8>>;

/// Calls `Engine::encode` of `base64::engine::general_purpose::STANDARD`.
/// Claims: the result is the standard encoding of `data` (a name), and the
/// same engine decodes it back to `data` (canonical RFC 4648 encoding with
/// padding, which the engine's `RequireCanonical` decoding accepts).
/// `encode` panics when the encoded length overflows `usize`; `requires` rules that out.
#[verifier::external_body]
pub(crate) fn standard_encode(data: &[u8]) -> (r: String)
    requires
        data@.len() <= usize::MAX / 4 * 3,
    ensures
        r@ == standard_encoded(data@),
        standard_decoded(r@) == Some(data@),
{
    base64::engine::general_purpose::STANDARD.encode(data)
}

/// Calls `Engine::decode` of `base64::engine::general_purpose::STANDARD` on the
/// UTF-8 bytes of `text`. Claims: success and the decoded bytes are those the
/// name `standard_decoded` gives for `text`.
#[verifier::external_body]
pub(crate) fn standard_decode(text: &str) -> (r: Result<Vec<u8>, base64::DecodeError>)
    ensures
        match r {
            Ok(bytes) => standard_decoded(text@) == Some(bytes@),
            Err(_) => standard_decoded(text@) is None,
        },
{
    base64::engine::general_purpose::STANDARD.decode(text)
}

} // verus!
