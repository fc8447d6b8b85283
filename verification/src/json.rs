//! What the library asks of `serde_json`: the JSON text of a list of strings,
//! and the text of an error.

use crate::text::views;
use vstd::prelude::*;

verus! {

/// The error type of `serde_json`, `serde_json::Error`.
#[verifier::external_type_specification]
#[verifier::external_body]
pub struct ExJsonError(serde_json::Error);

/// The JSON array that `serde_json::to_string` writes for a list of strings.
pub uninterp spec fn json_array(names: Seq<Seq<char>>) -> Seq<char>;

/// Writes a list of strings as a JSON array.
///
/// Trusted: calls `serde_json::to_string`, whose output depends on the strings
/// alone; the contract gives that output its name. The call succeeds: writing
/// fails only where the value refuses to be written, where a map has a key
/// that is no string, or where the writer fails, and a list of strings written
/// into memory has none of these.
#[verifier::external_body]
pub(crate) fn encode_names(names: &Vec<String>) -> (encoded: Result<String, serde_json::Error>)
    ensures
        encoded is Ok,
        encoded->Ok_0@ == json_array(views(names@)),
{
    serde_json::to_string(names)
}

/// The message of a `serde_json` error.
///
/// Trusted: calls the error's `to_string`. Nothing is promised of the text.
#[verifier::external_body]
pub(crate) fn error_text(error: &serde_json::Error) -> (text: String) {
    error.to_string()
}

} // verus!
