use base64::Engine;
use vstd::prelude::*;

verus! {

/// `DecodeError` of the base64 crate: why a text was refused. Nothing is
/// claimed of what it holds.
#[verifier::external_type_specification]
#[verifier::external_body]
pub struct ExBase64DecodeError(base64::DecodeError);

/// The bytes that a text stands for in standard padded base64, or `None`
/// where the text is not valid base64.
pub uninterp spec fn base64_decoded(text: Seq<char>) -> Option<Seq<u8>>;

/// The standard padded base64 text of a byte sequence.
pub uninterp spec fn base64_encoded(bytes: Seq<u8>) -> Seq<char>;

/// Whether the base64 text of `len` bytes has a length that fits in `usize`.
pub open spec fn encodable_len(len: nat) -> bool {
    (len / 3) * 4 + 4 <= usize::MAX
}

/// A text that is not valid base64.
#[derive(Debug)]
pub struct DecodeFailure;

/// Calls `Engine::decode` of the base64 crate on its `STANDARD` engine.
/// The contract names the decoded bytes and claims only that the call is a
/// function of the text: it returns the named bytes, or an error exactly
/// where the name is `None`.
#[verifier::external_body]
fn standard_decode(text: &str) -> (decoded: Result<Vec<u8>, base64::DecodeError>)
    ensures
        match decoded {
            Ok(bytes) => base64_decoded(text@) == Some(bytes@),
            Err(_) => base64_decoded(text@) is None,
        },
{
    base64::engine::general_purpose::STANDARD.decode(text)
}

/// Calls `Engine::encode` of the base64 crate on its `STANDARD` engine.
/// The contract names the text and claims only that the call is a function
/// of the bytes. The call panics where the length of the text overflows
/// `usize`, so such inputs are left out.
#[verifier::external_body]
pub(crate) fn standard_encode(bytes: &Vec<u8>) -> (text: String)
    requires
        encodable_len(bytes@.len()),
    ensures
        text@ == base64_encoded(bytes@),
{
    base64::engine::general_purpose::STANDARD.encode(bytes)
}

/// Decodes standard padded base64 text into bytes.
pub fn decode(text: &str) -> (decoded: Result<Vec<u8>, DecodeFailure>)
    ensures
        match decoded {
            Ok(bytes) => base64_decoded(text@) == Some(bytes@),
            Err(_) => base64_decoded(text@) is None,
        },
{
    match standard_decode(text) {
        Ok(bytes) => Ok(bytes),
        Err(_) => Err(DecodeFailure),
    }
}

} // verus!
