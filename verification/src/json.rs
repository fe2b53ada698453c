//! The trusted boundary around serde_json: deciding whether the input
//! is well-formed JSON, picking a string member out of it, and encoding
//! the one-member output document.

use vstd::prelude::*;

verus! {

/// Whether serde_json::from_str accepts `s` as one well-formed JSON
/// document, within the limits (nesting depth, number range) that it
/// enforces.
pub uninterp spec fn json_parses(s: Seq<char>) -> bool;

/// The string member of the document `s` under `key`: `Some(v)` when
/// `s` parses to an object with a member `key` holding the JSON string
/// `v`; `None` when the document is not an object, the member is
/// absent, or it holds a value of another kind. Meaningful only where
/// `json_parses(s)` holds.
pub uninterp spec fn json_string_field(s: Seq<char>, key: Seq<char>) -> Option<Seq<char>>;

/// The compact serde_json encoding of the object `{key: value}` with a
/// single string-valued member.
pub uninterp spec fn json_object_one(key: Seq<char>, value: Seq<char>) -> Seq<char>;

/// A character that serde_json's string encoder emits as itself:
/// anything but the quote, the backslash, and the control range.
pub open spec fn plain_json_char(c: char) -> bool {
    c != '"' && c != '\\' && c as u32 >= 0x20
}

/// A string that serde_json encodes with no escape sequence.
pub open spec fn plain_json(s: Seq<char>) -> bool {
    forall|i: int| 0 <= i < s.len() ==> plain_json_char(s[i])
}

/// The encoding of `{key: value}` where no character of either string
/// needs an escape: each stands between its quotes literally.
pub open spec fn plain_object_encoding(key: Seq<char>, value: Seq<char>) -> Seq<char> {
    "{\""@ + key + "\":\""@ + value + "\"}"@
}

#[verifier::external_type_specification]
#[verifier::external_body]
pub struct ExJsonError(serde_json::Error);

/// Relies on serde_json::from_str, whose acceptance of `s` is what
/// `json_parses` names, and on serde_json::Value::get and
/// serde_json::Value::as_str, which together yield the string under
/// `key` when the document is an object and that member is a string,
/// and `None` otherwise. All three depend on their arguments alone.
#[verifier::external_body]
pub(crate) fn parse_string_field(s: &str, key: &str) -> (r: Result<Option<String>, serde_json::Error>)
    ensures
        r is Ok <==> json_parses(s@),
        r matches Ok(Some(v)) ==> json_string_field(s@, key@) == Some(v@),
        r matches Ok(None) ==> json_string_field(s@, key@) is None,
{
    match serde_json::from_str::<serde_json::Value>(s) {
        Ok(doc) => Ok(doc.get(key).and_then(|v| v.as_str()).map(|v| v.to_owned())),
        Err(e) => Err(e),
    }
}

/// Relies on serde_json::to_string, whose only failure causes (a
/// failing Serialize impl, a map with non-string keys) cannot arise for
/// an object of one string member, and on serde_json's string encoder,
/// which escapes exactly the quote, the backslash and the control
/// range, so that a string free of those passes through literally.
#[verifier::external_body]
pub(crate) fn encode_object_one(key: &str, value: &str) -> (r: Result<String, serde_json::Error>)
    ensures
        r is Ok,
        r matches Ok(out) ==> out@ == json_object_one(key@, value@),
        r matches Ok(out) ==> plain_json(key@) && plain_json(value@) ==> out@
            == plain_object_encoding(key@, value@),
{
    let mut doc = serde_json::Map::new();
    doc.insert(key.to_owned(), serde_json::Value::String(value.to_owned()));
    serde_json::to_string(&serde_json::Value::Object(doc))
}

} // verus!
