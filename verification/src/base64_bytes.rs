//! The text form of a payload: standard base64 with padding, as carried in
//! the `data` field of a JSON `data` message.

use vstd::prelude::*;
use base64::engine::general_purpose::STANDARD;
use base64::DecodeError;
use base64::Engine;

verus! {

#[verifier::external_type_specification]
#[verifier::external_body]
pub struct ExDecodeError(DecodeError);

/// The standard base64 text of `bytes`.
pub uninterp spec fn base64_text(bytes: Seq<u8>) -> Seq<char>;

/// The bytes that `text` encodes in standard base64, if it is well formed.
pub uninterp spec fn base64_payload(text: Seq<char>) -> Option<Seq<u8>>;

/// The payload was not well-formed base64.
#[derive(Debug, Clone, Copy, PartialEq, Eq)]
pub struct InvalidBase64;

/// `Engine::encode` of base64's `STANDARD` engine.  The text depends on the
/// bytes alone.  The engine panics when the length of the text would not fit
/// in `usize`, which no input of at most `isize::MAX` bytes causes.
#[verifier::external_body]
fn standard_encode(bytes: &[u8]) -> (text: String)
    requires
        bytes@.len() <= isize::MAX,
    ensures
        text@ == base64_text(bytes@),
{
    STANDARD.encode(bytes)
}

/// `Engine::decode` of base64's `STANDARD` engine.  Whether it succeeds, and
/// with which bytes, depends on the text alone.
#[verifier::external_body]
fn standard_decode(text: &str) -> (r: Result<Vec<u8>, DecodeError>)
    ensures
        r is Ok <==> base64_payload(text@) is Some,
        r matches Ok(bytes) ==> base64_payload(text@) == Some(bytes@),
{
    STANDARD.decode(text)
}

/// Renders a payload as the text that a JSON `data` message carries.
pub fn serialize(bytes: &Vec<u8>) -> (text: String)
    requires
        bytes@.len() <= isize::MAX,
    ensures
        text@ == base64_text(bytes@),
{
    standard_encode(bytes.as_slice())
}

/// Reads a payload back from the text of a JSON `data` message.
pub fn deserialize(text: &str) -> (r: Result<Vec<u8>, InvalidBase64>)
    ensures
        match r {
            Ok(bytes) => base64_payload(text@) == Some(bytes@),
            Err(_) => base64_payload(text@) is None,
        },
{
    match standard_decode(text) {
        Ok(bytes) => Ok(bytes),
        Err(_) => Err(InvalidBase64),
    }
}

} // verus!
