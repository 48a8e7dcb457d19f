//! The two encodings an inbound message is wrapped in, JSON and base64.
//! Both are decoded by the `serde_json` and `base64` crates; the functions
//! here are the only places where those crates are called, and their
//! contracts are assumed, not proved.
use vstd::prelude::*;

verus! {

/// `serde_json::Value`, a parsed JSON document. Opaque to the verifier.
#[verifier::external_type_specification]
#[verifier::external_body]
pub struct ExJsonValue(serde_json::Value);

/// `serde_json::Error`. Opaque to the verifier.
#[verifier::external_type_specification]
#[verifier::external_body]
pub struct ExJsonError(serde_json::Error);

/// `base64::DecodeError`. Opaque to the verifier.
#[verifier::external_type_specification]
#[verifier::external_body]
pub struct ExBase64DecodeError(base64::DecodeError);

/// The string members of a JSON document: where `doc` is an object, the map
/// from each key whose value is a JSON string to that string; the empty map
/// for every other document. Where a key occurs more than once in an object,
/// its last value is the member.
pub uninterp spec fn json_string_members(doc: serde_json::Value) -> Map<Seq<char>, Seq<char>>;

/// What parsing `body` as one JSON document gives: `None` where `body` is not
/// a JSON text, else the string members of the document.
pub uninterp spec fn json_parsed_members(body: Seq<u8>) -> Option<Map<Seq<char>, Seq<char>>>;

/// What decoding `text` as standard base64 (the alphabet with `+` and `/`,
/// canonical `=` padding required) gives: `None` where `text` is not such an
/// encoding.
pub uninterp spec fn base64_standard_decoding(text: Seq<char>) -> Option<Seq<u8>>;

/// Calls `serde_json::from_slice` for a `serde_json::Value`. Assumed: the
/// result depends on the bytes alone, and the document returned has the
/// string members that [`json_parsed_members`] names.
#[verifier::external_body]
pub(crate) fn parse_json(body: &[u8]) -> (parsed: Result<serde_json::Value, serde_json::Error>)
    ensures
        match parsed {
            Ok(doc) => json_parsed_members(body@) == Some(json_string_members(doc)),
            Err(_) => json_parsed_members(body@) is None,
        },
{
    serde_json::from_slice::<serde_json::Value>(body)
}

/// Calls `serde_json::Value::get` with a string key and takes the string out
/// of the member found. Assumed: `Some` exactly where `key` is among the
/// string members of `doc`, with that member's string.
#[verifier::external_body]
pub(crate) fn string_member(doc: &serde_json::Value, key: &str) -> (member: Option<String>)
    ensures
        match member {
            Some(text) => json_string_members(*doc).contains_key(key@) && json_string_members(
                *doc,
            )[key@] == text@,
            None => !json_string_members(*doc).contains_key(key@),
        },
{
    match doc.get(key) {
        Some(serde_json::Value::String(text)) => Some(text.clone()),
        _ => None,
    }
}

/// Calls `base64::Engine::decode` on `base64::engine::general_purpose::STANDARD`.
/// Assumed: the result depends on the text alone, and is the byte string
/// that [`base64_standard_decoding`] names, or an error where there is none.
#[verifier::external_body]
pub(crate) fn decode_base64(text: &str) -> (decoded: Result<Vec<u8>, base64::DecodeError>)
    ensures
        match decoded {
            Ok(bytes) => base64_standard_decoding(text@) == Some(bytes@),
            Err(_) => base64_standard_decoding(text@) is None,
        },
{
    base64::Engine::decode(&base64::engine::general_purpose::STANDARD, text)
}

} // verus!
