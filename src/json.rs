//! The JSON values that the library reads and writes, through serde_json.

use vstd::prelude::*;

verus! {

#[verifier::external_type_specification]
#[verifier::external_body]
pub struct ExValue(serde_json::Value);

#[verifier::external_type_specification]
#[verifier::external_body]
pub struct ExJsonError(serde_json::Error);

/// Whether serde_json accepts the text as one JSON document.
pub uninterp spec fn json_accepts(text: Seq<char>) -> bool;

/// The string that the JSON pointer designates in the document written in
/// `text`, or `None` where it designates nothing or something other than a string.
pub uninterp spec fn json_string_at(text: Seq<char>, pointer: Seq<char>) -> Option<Seq<char>>;

/// The JSON string literal that serde_json writes for the characters.
pub uninterp spec fn json_quoted(s: Seq<char>) -> Seq<char>;

/// A parsed JSON document, together with the text it was parsed from.
pub(crate) struct JsonDoc {
    pub(crate) value: serde_json::Value,
    pub(crate) text: Ghost<Seq<char>>,
}

pub open spec fn opt_view(o: Option<String>) -> Option<Seq<char>> {
    match o {
        Some(s) => Some(s@),
        None => None,
    }
}

/// Relies on serde_json::from_str into a serde_json::Value: it succeeds exactly
/// when the text is one JSON document.
#[verifier::external_body]
pub(crate) fn parse_json(text: &str) -> (r: Result<JsonDoc, serde_json::Error>)
    ensures
        r is Ok <==> json_accepts(text@),
        r matches Ok(doc) ==> doc.text@ == text@,
{
    match serde_json::from_str::<serde_json::Value>(text) {
        Ok(value) => Ok(JsonDoc { value, text: Ghost(text@) }),
        Err(e) => Err(e),
    }
}

/// Relies on serde_json::Value::pointer to find the value that a JSON pointer
/// designates; only a string value is handed out.
#[verifier::external_body]
pub(crate) fn string_at(doc: &JsonDoc, pointer: &str) -> (r: Option<String>)
    ensures
        opt_view(r) == json_string_at(doc.text@, pointer@),
{
    match doc.value.pointer(pointer) {
        Some(serde_json::Value::String(s)) => Some(s.clone()),
        _ => None,
    }
}

/// Relies on serde_json::to_string on a `str`: the JSON string literal for the
/// characters. Writing a `str` into memory never fails there.
#[verifier::external_body]
pub(crate) fn quote_json(s: &str) -> (r: String)
    ensures
        r@ == json_quoted(s@),
{
    serde_json::to_string(s).unwrap_or_default()
}

/// Relies on serde_json::Error's `Display`: the error's message.
#[verifier::external_body]
pub(crate) fn error_text(e: &serde_json::Error) -> (r: String) {
    e.to_string()
}

} // verus!
