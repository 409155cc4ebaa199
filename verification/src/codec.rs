//! Text encodings of bytes: lowercase hexadecimal (through `hex`) and
//! standard base64 (through `base64`).

use vstd::prelude::*;
use base64::Engine;
use crate::ident::hex_digit;

verus! {

/// The lowercase hexadecimal text of `bytes`: two digits per byte, the
/// high nibble first.
pub open spec fn hex_text(bytes: Seq<u8>) -> Seq<char> {
    Seq::new(
        2 * bytes.len(),
        |k: int|
            if k % 2 == 0 {
                hex_digit(bytes[k / 2] as int / 16)
            } else {
                hex_digit(bytes[k / 2] as int % 16)
            },
    )
}

/// Encodes bytes as lowercase hexadecimal through `hex::encode`, which
/// writes each byte as two digits from `0123456789abcdef`, high nibble
/// first.
#[verifier::external_body]
pub(crate) fn hex_encode(bytes: &[u8]) -> (s: String)
    ensures
        s@ == hex_text(bytes@),
{
    hex::encode(bytes)
}

/// What `base64::engine::general_purpose::STANDARD.decode` gives for some
/// input text: the decoded bytes, or the text of the decoding error.
pub uninterp spec fn base64_standard_decoded(input: Seq<char>) -> Result<Seq<u8>, Seq<char>>;

/// Decodes standard base64 (with padding) through
/// `base64::engine::general_purpose::STANDARD.decode`; a refusal is
/// carried as the error's text.
///
/// The alphabet, padding and canonicity rules are left to the name
/// `base64_standard_decoded`.
#[verifier::external_body]
pub(crate) fn base64_decode(input: &str) -> (r: Result<Vec<u8>, String>)
    ensures
        r matches Ok(b) ==> base64_standard_decoded(input@) is Ok
            && base64_standard_decoded(input@)->Ok_0 == b@,
        r matches Err(t) ==> base64_standard_decoded(input@) is Err
            && base64_standard_decoded(input@)->Err_0 == t@,
{
    match base64::engine::general_purpose::STANDARD.decode(input) {
        Ok(b) => Ok(b),
        Err(e) => Err(e.to_string()),
    }
}

} // verus!
