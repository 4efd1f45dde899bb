//! The calls into code outside this crate.
//!
//! Everything here is believed, not proved: each function's contract says
//! what the outside function is documented to do, and the proofs of the rest
//! of the crate rest on it. A result that is a function of the arguments
//! alone, and too long to write out, has a name, a spec function without a
//! body; a result that depends on the clock or on chance has none.

use vstd::prelude::*;
use vstd::utf8::{decode_utf8, valid_utf8};
use crate::time::Timestamp;

verus! {

/// `str`'s `==` from the standard library: two slices are equal exactly when
/// they hold the same characters in the same order.
pub assume_specification[ <str as PartialEq>::eq ](a: &str, b: &str) -> (r: bool)
    ensures
        r == (a@ == b@),
;

/// The instant that an RFC 3339 text denotes, as seconds since the Unix epoch
/// and nanoseconds into the second, or `None` where the text is not a valid
/// RFC 3339 date and time.
pub uninterp spec fn rfc3339_instant(text: Seq<char>) -> Option<(int, int)>;

/// The two parts of an optional timestamp, as plain integers.
pub open spec fn instant_parts(at: Option<Timestamp>) -> Option<(int, int)> {
    match at {
        Some(t) => Some((t.seconds as int, t.nanos as int)),
        None => None,
    }
}

/// Parses an RFC 3339 date and time with `chrono::DateTime::parse_from_rfc3339`
/// and reads the result off in UTC with `timestamp` and
/// `timestamp_subsec_nanos`. The parse depends on the text alone, the offset
/// being part of it; what it gives is named `rfc3339_instant`, and a text that
/// chrono refuses gives `None`.
#[verifier::external_body]
pub(crate) fn parse_rfc3339(text: &str) -> (at: Option<Timestamp>)
    ensures
        instant_parts(at) == rfc3339_instant(text@),
{
    match chrono::DateTime::parse_from_rfc3339(text) {
        Ok(parsed) => Some(
            Timestamp { seconds: parsed.timestamp(), nanos: parsed.timestamp_subsec_nanos() },
        ),
        Err(_) => None,
    }
}

/// Reads the clock with `chrono::Utc::now`. Nothing is known of the instant
/// but that it is built from the system time, whose sub-second part stays
/// below one second. chrono stops the program if the system clock stands
/// before the Unix epoch.
#[verifier::external_body]
pub(crate) fn now_utc() -> (at: Timestamp)
    ensures
        at.nanos < 1_000_000_000,
{
    let now = chrono::Utc::now();
    Timestamp { seconds: now.timestamp(), nanos: now.timestamp_subsec_nanos() }
}

/// Draws a random identifier with `uuid::Uuid::new_v4` and writes it with the
/// type's `Display`, which is the hyphenated lower-case form of 36 characters.
/// Which identifier comes is left open.
#[verifier::external_body]
pub(crate) fn fresh_id() -> (id: String)
    ensures
        id@.len() == 36,
{
    uuid::Uuid::new_v4().to_string()
}

/// The bytes that a text in standard base64, with padding, stands for, or
/// `None` where the text is not such an encoding.
pub uninterp spec fn base64_standard_decoding(text: Seq<char>) -> Option<Seq<u8>>;

/// Optional bytes, taken by their view.
pub open spec fn bytes_view(bytes: Option<Vec<u8>>) -> Option<Seq<u8>> {
    match bytes {
        Some(b) => Some(b@),
        None => None,
    }
}

/// Decodes a text with `decode` of base64's `STANDARD` engine. The result
/// depends on the text alone and is named `base64_standard_decoding`; a text
/// that the engine refuses gives `None`.
#[verifier::external_body]
pub(crate) fn base64_decode(text: &str) -> (bytes: Option<Vec<u8>>)
    ensures
        bytes_view(bytes) == base64_standard_decoding(text@),
{
    match base64::Engine::decode(&base64::prelude::BASE64_STANDARD, text) {
        Ok(decoded) => Some(decoded),
        Err(_) => None,
    }
}

/// Turns bytes into a string with `String::from_utf8` of the standard
/// library, which takes exactly the valid UTF-8 sequences and gives the text
/// that they encode.
#[verifier::external_body]
pub(crate) fn string_from_utf8(bytes: Vec<u8>) -> (text: Option<String>)
    ensures
        match text {
            Some(s) => valid_utf8(bytes@) && s@ == decode_utf8(bytes@),
            None => !valid_utf8(bytes@),
        },
{
    match String::from_utf8(bytes) {
        Ok(text) => Some(text),
        Err(_) => None,
    }
}

/// `serde_json::Value`, a JSON value of any shape. It is carried as it is:
/// of what one holds, only `json_member` and `json_text` speak.
#[verifier::external_type_specification]
#[verifier::external_body]
pub struct ExJsonValue(serde_json::Value);

/// The member that a JSON value holds under `key`: `None` where the value is
/// no object or the object has no such member.
pub uninterp spec fn json_member(json: serde_json::Value, key: Seq<char>) -> Option<
    serde_json::Value,
>;

/// The text that a JSON value holds: `None` where the value is no string.
pub uninterp spec fn json_text(json: serde_json::Value) -> Option<Seq<char>>;

/// An optional reference to a JSON value, as the value.
pub open spec fn member_view(member: Option<&serde_json::Value>) -> Option<serde_json::Value> {
    match member {
        Some(value) => Some(*value),
        None => None,
    }
}

/// An optional string slice, as its text.
pub open spec fn text_view(text: Option<&str>) -> Option<Seq<char>> {
    match text {
        Some(t) => Some(t@),
        None => None,
    }
}

/// Looks a member up with `serde_json::Value::get` and a string key, which
/// gives the member of an object under that key and `None` in every other
/// case. What it gives is named `json_member`.
#[verifier::external_body]
pub(crate) fn json_get<'a>(json: &'a serde_json::Value, key: &str) -> (member: Option<
    &'a serde_json::Value,
>)
    ensures
        member_view(member) == json_member(*json, key@),
{
    json.get(key)
}

/// Reads a JSON string with `serde_json::Value::as_str`, which gives the text
/// of a string and `None` for every other value. What it gives is named
/// `json_text`.
#[verifier::external_body]
pub(crate) fn json_as_str<'a>(json: &'a serde_json::Value) -> (text: Option<&'a str>)
    ensures
        text_view(text) == json_text(*json),
{
    json.as_str()
}

/// The bytes of the principal that a text denotes, or, where the text is no
/// principal, the message that says why.
pub uninterp spec fn principal_of_text(text: Seq<char>) -> Result<Seq<u8>, Seq<char>>;

/// The result of parsing a principal, as plain values.
pub open spec fn principal_view(r: Result<Vec<u8>, String>) -> Result<Seq<u8>, Seq<char>> {
    match r {
        Ok(bytes) => Ok(bytes@),
        Err(reason) => Err(reason@),
    }
}

/// Parses an account's identity with `Principal::from_text` and hands out the
/// principal's bytes, or the text of the error. Both depend on the text
/// alone; what comes is named `principal_of_text`. A principal has 29 bytes
/// at most.
#[verifier::external_body]
pub(crate) fn principal_from_text(text: &str) -> (r: Result<Vec<u8>, String>)
    ensures
        principal_view(r) == principal_of_text(text@),
        r is Ok ==> r->Ok_0@.len() <= 29,
{
    match ic_agent::export::Principal::from_text(text) {
        Ok(principal) => Ok(principal.as_slice().to_vec()),
        Err(e) => Err(e.to_string()),
    }
}

} // verus!
