//! Reading the metadata query's structured output.
//!
//! The external metadata query prints a JSON document whose top-level object
//! carries the `workspace_root` and `target_directory` string fields.
//! Decoding JSON is delegated to serde_json; what a named top-level string
//! field of a given document holds is a fixed function of the text and the
//! key, which `json_str_field` names and the wrapper below relates to.

use vstd::prelude::*;

verus! {

/// The string value of the named top-level field of a JSON document, when
/// the document is an object and the field holds a string.
pub uninterp spec fn json_str_field(text: Seq<char>, key: Seq<char>) -> Option<Seq<char>>;

/// Relies on `serde_json::from_str::<Value>`, `Value::get` and
/// `Value::as_str`: each is a pure function of its input, so the string
/// value of a named top-level field is a function of the document text and
/// the key alone, here called `json_str_field`.  `None` comes back exactly
/// when the text does not parse, the document is not an object, the field is
/// absent, or the field does not hold a string.
#[verifier::external_body]
pub(crate) fn json_string_field(text: &str, key: &str) -> (r: Option<String>)
    ensures
        (r is Some) == (json_str_field(text@, key@) is Some),
        r matches Some(v) ==> json_str_field(text@, key@) == Some(v@),
{
    match serde_json::from_str::<serde_json::Value>(text) {
        Ok(doc) => match doc.get(key) {
            Some(field) => field.as_str().map(|s| s.to_owned()),
            None => None,
        },
        Err(_) => None,
    }
}

} // verus!
