//! The calls this library makes into other crates.
//!
//! Everything here is believed, not proved: each function's body makes one
//! call into another crate and hands on what came back, and its contract
//! says what that crate's source and documentation show of the call.

use base64::Engine;
use vstd::prelude::*;

use crate::text::decimal;

verus! {

/// `base64::DecodeError`, the reason why `base64` rejects a text. Nothing
/// is read out of it.
#[verifier::external_type_specification]
#[verifier::external_body]
pub struct ExDecodeError(base64::DecodeError);

/// `url::ParseError`, the reason why `url` rejects a text. Nothing is read
/// out of it.
#[verifier::external_type_specification]
#[verifier::external_body]
pub struct ExUrlParseError(url::ParseError);

/// `serde_json::Error`, the failure of a serialization. Nothing is read
/// out of it.
#[verifier::external_type_specification]
#[verifier::external_body]
pub struct ExJsonError(serde_json::Error);

/// The text that `base64`'s standard engine (RFC 4648 alphabet, `=` padding)
/// produces for `bytes`.
pub uninterp spec fn base64_standard(bytes: Seq<u8>) -> Seq<char>;

/// The bytes that `base64`'s standard engine reads out of `text`, where it
/// accepts `text` at all.
pub uninterp spec fn base64_standard_decoded(text: Seq<char>) -> Option<Seq<u8>>;

/// The serialization that the `url` crate gives to `text` once parsed as an
/// absolute URL, where it parses.
pub uninterp spec fn normalized_url(text: Seq<char>) -> Option<Seq<char>>;

/// The longest input whose base64 text still fits in one allocation.
pub open spec fn base64_input_limit() -> nat {
    ((isize::MAX as nat) / 4) * 3
}

/// `base64::Engine::encode` on `base64::prelude::BASE64_STANDARD`.
///
/// Claims that the returned text is the engine's encoding of `bytes`. The
/// engine panics when the encoded length overflows or cannot be allocated;
/// the bound on the input keeps four thirds of it below `isize::MAX`.
#[verifier::external_body]
pub(crate) fn base64_encode(bytes: &[u8]) -> (text: String)
    requires
        bytes@.len() <= base64_input_limit(),
    ensures
        text@ == base64_standard(bytes@),
{
    base64::prelude::BASE64_STANDARD.encode(bytes)
}

/// `base64::Engine::decode` on `base64::prelude::BASE64_STANDARD`.
///
/// Claims that the outcome depends on `text` alone, and that the engine reads
/// back what it wrote: text that is the encoding of some bytes decodes to
/// exactly those bytes. The standard engine insists on canonical padding and
/// rejects stray trailing bits, so no two byte strings share an encoding.
#[verifier::external_body]
pub(crate) fn base64_decode(text: &str) -> (r: Result<Vec<u8>, base64::DecodeError>)
    ensures
        r matches Ok(bytes) ==> base64_standard_decoded(text@) == Some(bytes@),
        r is Err ==> base64_standard_decoded(text@) is None,
        forall|bytes: Seq<u8>| #[trigger]
            base64_standard(bytes) == text@ ==> r is Ok && r->Ok_0@ == bytes,
{
    base64::prelude::BASE64_STANDARD.decode(text)
}

/// `url::Url::parse`, followed by the conversion of the parsed URL into its
/// serialization (`From<Url> for String`).
///
/// Claims only that the outcome depends on `text` alone.
#[verifier::external_body]
pub(crate) fn parse_url(text: &str) -> (r: Result<String, url::ParseError>)
    ensures
        r matches Ok(normal) ==> normalized_url(text@) == Some(normal@),
        r is Err ==> normalized_url(text@) is None,
{
    url::Url::parse(text).map(String::from)
}

/// `serde_json::to_string` on an `i64`.
///
/// Claims that the call succeeds and yields the integer in decimal, with a
/// leading `-` for negative numbers and no other decoration: `serde_json`
/// writes integers with `itoa` into a buffer in memory, which cannot fail.
#[verifier::external_body]
pub(crate) fn json_integer(value: i64) -> (r: Result<String, serde_json::Error>)
    ensures
        r is Ok,
        r matches Ok(text) ==> text@ == decimal(value as int),
{
    serde_json::to_string(&value)
}

/// `chrono::Utc::now`, read as milliseconds since the Unix epoch
/// (`DateTime::timestamp_millis`).
///
/// Nothing is claimed of the value: it is whatever the system clock says.
/// `chrono` panics if that clock stands before 1970.
#[verifier::external_body]
pub(crate) fn now_millis() -> i64 {
    chrono::Utc::now().timestamp_millis()
}

} // verus!
