//! JSON as `serde_json` reads and writes it: the decoding of a completion
//! reply and the quoting of a text. Nothing of that crate is proved here:
//! the items of this file state what the rest of the library takes from it.

use vstd::prelude::*;

verus! {

/// A decoded JSON document. Its inside is not visible to proofs.
#[verifier::external_type_specification]
#[verifier::external_body]
pub struct ExValue(serde_json::Value);

/// The decoder's error. Its inside is not visible to proofs.
#[verifier::external_type_specification]
#[verifier::external_body]
pub struct ExError(serde_json::Error);

/// The members of a JSON object whose value is a string, by key; the empty
/// map for a document that is no object.
pub uninterp spec fn string_members(doc: serde_json::Value) -> Map<Seq<char>, Seq<char>>;

/// The string members of the document that a text decodes to, or `None`
/// where the text is not one JSON document.
pub uninterp spec fn decoded_members(text: Seq<char>) -> Option<Map<Seq<char>, Seq<char>>>;

/// The JSON string literal of a text: the text between double quotes, with
/// the escapes that JSON asks for.
pub uninterp spec fn json_string(text: Seq<char>) -> Seq<char>;

/// Calls `serde_json::to_string` on a `str`. Claimed: a literal always comes
/// back, and it depends on the text alone, so it is the one named by
/// `json_string`. That crate documents two causes of an error, a `Serialize`
/// impl that decides to fail and a map with keys that are no strings; a
/// `str` has neither, and the writer it is written to is a vector in memory.
#[verifier::external_body]
pub(crate) fn quote(text: &str) -> (r: Result<String, serde_json::Error>)
    ensures
        r is Ok,
        r matches Ok(literal) ==> literal@ == json_string(text@),
{
    serde_json::to_string(text)
}

/// Calls `serde_json::from_str` for a `serde_json::Value`. Claimed: the
/// outcome depends on the text alone, so a document that comes back is the
/// one named by `decoded_members`, and an error comes back exactly for a
/// text that names none.
#[verifier::external_body]
pub(crate) fn decode(text: &str) -> (r: Result<serde_json::Value, serde_json::Error>)
    ensures
        match r {
            Ok(doc) => decoded_members(text@) == Some(string_members(doc)),
            Err(_) => decoded_members(text@) is None,
        },
{
    serde_json::from_str::<serde_json::Value>(text)
}

/// Calls `serde_json::Value::get` with a string key. Claimed: a string comes
/// back exactly where the document is an object that holds the key with a
/// string value, and it is that value.
#[verifier::external_body]
pub(crate) fn string_member(doc: &serde_json::Value, key: &str) -> (r: Option<String>)
    ensures
        match r {
            Some(s) => string_members(*doc).contains_key(key@) && string_members(*doc)[key@]
                == s@,
            None => !string_members(*doc).contains_key(key@),
        },
{
    match doc.get(key) {
        Some(serde_json::Value::String(s)) => Some(s.clone()),
        _ => None,
    }
}

/// Calls `to_string` on a `serde_json::Error`, which renders the decoder's
/// message with the line and column. Nothing is claimed of the text.
#[verifier::external_body]
pub(crate) fn error_text(e: &serde_json::Error) -> (text: String) {
    e.to_string()
}

} // verus!
