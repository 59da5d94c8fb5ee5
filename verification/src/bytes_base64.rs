//! Bytes written as text in base64, with the standard alphabet and padding.

use base64::prelude::BASE64_STANDARD;
use base64::Engine;
use vstd::prelude::*;
use vstd::string::StringExecFns;

verus! {

/// The error of the `base64` crate's decoder.
#[verifier::external_type_specification]
#[verifier::external_body]
pub struct ExDecodeError(base64::DecodeError);

/// What `Engine::decode_vec` of the standard engine decodes from `text`:
/// the bytes, or `None` where it reports an error.
pub uninterp spec fn base64_decoded(text: Seq<char>) -> Option<Seq<u8>>;

/// What `Engine::encode` of the standard engine makes of `bytes`.
pub uninterp spec fn base64_encoded(bytes: Seq<u8>) -> Seq<char>;

/// Calls `Engine::decode_vec` on the standard engine. The buffer is empty
/// before the call; where the call succeeds, it holds the decoded bytes
/// after it, and the call fails exactly where `text` is not valid base64.
#[verifier::external_body]
fn decode_vec(text: &str, buffer: &mut Vec<u8>) -> (outcome: core::result::Result<
    (),
    base64::DecodeError,
>)
    requires
        old(buffer)@.len() == 0,
    ensures
        match outcome {
            Ok(_) => base64_decoded(text@) == Some(final(buffer)@),
            Err(_) => base64_decoded(text@) is None,
        },
{
    BASE64_STANDARD.decode_vec(text, buffer)
}

/// Renders an error of the decoder as the `base64` crate words it. Nothing
/// is claimed of the text.
#[verifier::external_body]
fn describe(err: &base64::DecodeError) -> (detail: String) {
    format!("{}", err)
}

/// Calls `Engine::encode` on the standard engine. The call is made only
/// where the length of the encoded text fits in `usize`.
#[verifier::external_body]
fn encode(bytes: &[u8]) -> (text: String)
    requires
        (bytes@.len() / 3) * 4 + 4 <= usize::MAX,
    ensures
        text@ == base64_encoded(bytes@),
{
    BASE64_STANDARD.encode(bytes)
}

/// The message for text that is not valid base64, given what the decoder
/// said of it.
pub open spec fn invalid_base64_text(detail: Seq<char>) -> Seq<char> {
    "invalid base64: "@ + detail
}

/// Whether `message` is the message for text that is not valid base64, with
/// whatever the decoder said of it.
pub open spec fn is_invalid_base64(message: Seq<char>) -> bool {
    exists|detail: Seq<char>| message == invalid_base64_text(detail)
}

/// The message for text that is not valid base64.
pub fn invalid_base64(detail: &str) -> (message: String)
    ensures
        message@ == invalid_base64_text(detail@),
{
    let mut message = String::from_str("invalid base64: ");
    message.append(detail);
    message
}

/// Decodes `text`: the bytes where it is valid base64, and otherwise the
/// message `invalid base64: ` followed by the decoder's own words.
pub fn deserialize(text: &str) -> (r: core::result::Result<Vec<u8>, String>)
    ensures
        match base64_decoded(text@) {
            Some(bytes) => r is Ok && r->Ok_0@ == bytes,
            None => r is Err && is_invalid_base64(r->Err_0@),
        },
{
    let mut data: Vec<u8> = Vec::new();
    match decode_vec(text, &mut data) {
        Ok(_) => Ok(data),
        Err(err) => {
            let detail = describe(&err);
            let message = invalid_base64(detail.as_str());
            Err(message)
        },
    }
}

/// Encodes `x` as text. The encoded text must fit in memory: its length,
/// four characters for every three bytes, fits in `usize`.
pub fn serialize(x: &Vec<u8>) -> (text: String)
    requires
        (x@.len() / 3) * 4 + 4 <= usize::MAX,
    ensures
        text@ == base64_encoded(x@),
{
    encode(x.as_slice())
}

} // verus!
