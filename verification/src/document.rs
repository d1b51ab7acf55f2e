//! Reading a JSON text, which `serde_json` does.
//!
//! Nothing here is proved: the items of this file say what the library takes
//! on trust from `serde_json`.
use serde_json::Value;
use vstd::prelude::*;

verus! {

/// `serde_json::Value`, a parsed JSON document. Its inside is not looked at.
#[verifier::external_type_specification]
#[verifier::external_body]
pub struct ExValue(serde_json::Value);

/// What `serde_json::from_str` makes of `text` when it is asked for a `Value`:
/// the document, or the message of the error that it gives.
pub uninterp spec fn parsed(text: Seq<char>) -> Result<Value, Seq<char>>;

/// The members of `document` whose value is a JSON string, each under its
/// name. A document that is no JSON object has none.
pub uninterp spec fn text_members(document: Value) -> Map<Seq<char>, Seq<char>>;

/// Calls `serde_json::from_str::<Value>`; an error is handed on as the text
/// that its `Display` writes. Taken on trust: the outcome is a function of the
/// text alone, named [`parsed`].
#[verifier::external_body]
pub(crate) fn parse(text: &str) -> (outcome: Result<Value, String>)
    ensures
        match outcome {
            Ok(document) => parsed(text@) == Ok::<Value, Seq<char>>(document),
            Err(message) => parsed(text@) == Err::<Value, Seq<char>>(message@),
        },
{
    serde_json::from_str::<Value>(text).map_err(|error| error.to_string())
}

/// Calls `Value::get` with a name, then `Value::as_str` on what was found.
/// Taken on trust: `get` finds a member only in a JSON object and only under
/// its exact name, and `as_str` gives the text of a JSON string and nothing
/// for any other value.
#[verifier::external_body]
pub(crate) fn text_member<'a>(document: &'a Value, name: &str) -> (found: Option<&'a str>)
    ensures
        match found {
            Some(text) => text_members(*document).contains_key(name@) && text_members(
                *document,
            )[name@] == text@,
            None => !text_members(*document).contains_key(name@),
        },
{
    document.get(name).and_then(Value::as_str)
}

} // verus!
