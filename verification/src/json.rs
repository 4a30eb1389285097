//! The two uses that the control client makes of JSON: reading one text
//! member out of a document, and writing a document of one text member. The
//! JSON itself, its grammar and its escapes, is `serde_json`'s.

use vstd::prelude::*;

verus! {

/// What `serde_json` finds when it reads `document` and looks for the text
/// member `key`: `Err` with the parser's message where `document` is not one
/// JSON value; else `Ok` of the member's text where the value is an object
/// that has a member `key` whose value is a string, and `Ok(None)` in every
/// other case.
pub uninterp spec fn json_text_member(document: Seq<u8>, key: Seq<char>) -> Result<
    Option<Seq<char>>,
    Seq<char>,
>;

/// `serde_json::from_slice` to a `serde_json::Value`, then `Value::get` with
/// `key`.
///
/// Claimed of the outside code: what comes back depends on the bytes and the
/// key alone.
#[verifier::external_body]
pub(crate) fn read_text_member(document: &[u8], key: &str) -> (found: Result<
    Option<String>,
    String,
>)
    ensures
        json_text_member(document@, key@) == match found {
            Ok(Some(text)) => Ok(Some(text@)),
            Ok(None) => Ok(None),
            Err(message) => Err(message@),
        },
{
    match serde_json::from_slice::<serde_json::Value>(document) {
        Ok(value) => match value.get(key) {
            Some(serde_json::Value::String(text)) => Ok(Some(text.clone())),
            _ => Ok(None),
        },
        Err(error) => Err(error.to_string()),
    }
}

/// The bytes that `serde_json` writes for the JSON object whose one member
/// `key` has the text `value`, or the serializer's message if it fails.
pub uninterp spec fn json_object_of_member(key: Seq<char>, value: Seq<char>) -> Result<
    Seq<u8>,
    Seq<char>,
>;

/// `serde_json::to_vec` of the object with the one member `key: value`.
///
/// Claimed of the outside code: what comes back depends on the key and the
/// value alone.
#[verifier::external_body]
pub(crate) fn write_text_member(key: &str, value: &str) -> (written: Result<Vec<u8>, String>)
    ensures
        json_object_of_member(key@, value@) == match written {
            Ok(bytes) => Ok(bytes@),
            Err(message) => Err(message@),
        },
{
    let mut members = serde_json::Map::new();
    members.insert(key.to_string(), serde_json::Value::String(value.to_string()));
    match serde_json::to_vec(&serde_json::Value::Object(members)) {
        Ok(bytes) => Ok(bytes),
        Err(error) => Err(error.to_string()),
    }
}

} // verus!
