//! Standard base64, as the `base64` crate's padded standard engine reads and
//! writes it.

use vstd::prelude::*;
use base64::Engine;

verus! {

/// Makes `base64::DecodeError` known as an opaque type.
#[verifier::external_type_specification]
#[verifier::external_body]
pub struct ExDecodeError(base64::DecodeError);

/// What the standard engine decodes `text` to; `None` where it rejects the
/// text.
pub uninterp spec fn base64_standard_decoding(text: Seq<char>) -> Option<Seq<u8>>;

/// The standard engine's padded encoding of `bytes`.
pub uninterp spec fn base64_standard_encoding(bytes: Seq<u8>) -> Seq<char>;

/// The length of the padded encoding of `len` bytes: four characters for
/// every three bytes or part of three.
pub open spec fn encoded_len(len: nat) -> nat {
    if len % 3 == 0 {
        (len / 3) * 4
    } else {
        (len / 3) * 4 + 4
    }
}

/// Whether the padded encoding of `len` bytes has a length that fits in
/// `usize`.
pub open spec fn encodable_len(len: nat) -> bool {
    encoded_len(len) <= usize::MAX
}

/// Whether `len` bytes can be encoded.
pub fn fits_encoding(len: usize) -> (fits: bool)
    ensures
        fits == encodable_len(len as nat),
{
    if len % 3 == 0 {
        len / 3 <= usize::MAX / 4
    } else {
        len / 3 <= (usize::MAX - 4) / 4
    }
}

/// Decodes padded standard base64.
///
/// Trusted: calls `Engine::decode` on `general_purpose::STANDARD`. The
/// contract only names the outcome: the call returns the same for the same
/// text, an error where the text is not canonical padded base64 in the
/// standard alphabet.
#[verifier::external_body]
pub(crate) fn decode_standard(text: &str) -> (decoded: Result<Vec<u8>, base64::DecodeError>)
    ensures
        decoded is Ok <==> base64_standard_decoding(text@) is Some,
        decoded is Ok ==> Some(decoded->Ok_0@) == base64_standard_decoding(text@),
{
    base64::engine::general_purpose::STANDARD.decode(text)
}

/// Encodes bytes as padded standard base64.
///
/// Trusted: calls `Engine::encode` on `general_purpose::STANDARD`, which
/// panics only where the length of the encoding does not fit in `usize`;
/// the contract names the text that comes back.
#[verifier::external_body]
pub(crate) fn encode_standard(bytes: &[u8]) -> (text: String)
    requires
        encodable_len(bytes@.len()),
    ensures
        text@ == base64_standard_encoding(bytes@),
{
    base64::engine::general_purpose::STANDARD.encode(bytes)
}

} // verus!
