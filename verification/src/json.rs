//! Text values in JSON notation, written by `serde_json`.

use vstd::prelude::*;

verus! {

/// The error with which `serde_json` reports that a value could not be written.
#[verifier::external_type_specification]
#[verifier::external_body]
pub struct ExJsonError(near_sdk::serde_json::Error);

/// What `serde_json` makes of a text: the JSON string literal that it
/// writes for it, which is the text between double quotes with the escapes
/// that JSON asks for, or `None` where it reports an error.
pub uninterp spec fn json_text(s: Seq<char>) -> Option<Seq<char>>;

/// Calls `near_sdk::serde_json::to_string` on a `str`. Trusted: whether the
/// call succeeds, and what it then returns, depends on the characters of `s`
/// alone. Nothing is claimed of the texts on which it succeeds.
#[verifier::external_body]
pub(crate) fn write_text(s: &str) -> (r: Result<String, near_sdk::serde_json::Error>)
    ensures
        match r {
            Ok(t) => json_text(s@) == Some(t@),
            Err(_) => json_text(s@) is None,
        },
{
    near_sdk::serde_json::to_string(s)
}

/// The JSON string literal of `s`, or `None` exactly where `serde_json`
/// fails to write it.
pub fn encode_text(s: &str) -> (r: Option<String>)
    ensures
        match r {
            Some(t) => json_text(s@) == Some(t@),
            None => json_text(s@) is None,
        },
{
    match write_text(s) {
        Ok(t) => Some(t),
        Err(_) => None,
    }
}

} // verus!
