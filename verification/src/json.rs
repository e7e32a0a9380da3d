//! JSON payloads. The library carries them through untouched and only asks
//! `serde_json` to print or read them.

use vstd::prelude::*;

verus! {

/// `serde_json::Value`, carried through as it comes; nothing is known of what
/// it holds.
#[verifier::external_type_specification]
#[verifier::external_body]
pub struct ExJsonValue(serde_json::Value);

/// The text that `serde_json` prints for a value, or `None` where it refuses
/// to print it.
pub uninterp spec fn json_text(value: serde_json::Value) -> Option<Seq<char>>;

/// The value that `serde_json` reads from a text, or `None` where it rejects
/// the text.
pub uninterp spec fn json_value(text: Seq<char>) -> Option<serde_json::Value>;

/// Whether `text` reads as JSON.
pub open spec fn json_reads(text: Seq<char>) -> bool {
    json_value(text) is Some
}

/// Calls `serde_json::to_string` on a `serde_json::Value`.
///
/// Trusted: the text, or the refusal, is a function of the value alone.
/// Nothing is claimed of what the text looks like, nor that it reads back.
#[verifier::external_body]
pub(crate) fn print_json(value: &serde_json::Value) -> (r: Result<String, serde_json::Error>)
    ensures
        match r {
            Ok(text) => json_text(*value) == Some(text@),
            Err(_) => json_text(*value) is None,
        },
{
    serde_json::to_string(value)
}

/// Calls `serde_json::from_str` for a `serde_json::Value`.
///
/// Trusted: the value, or the refusal, is a function of the text alone: the
/// parser reads the text and nothing else, and its limit on nesting is fixed.
/// Nothing is claimed of which texts it takes.
#[verifier::external_body]
pub(crate) fn read_json(text: &str) -> (r: Result<serde_json::Value, serde_json::Error>)
    ensures
        match r {
            Ok(value) => json_value(text@) == Some(value),
            Err(_) => json_value(text@) is None,
        },
        r is Ok <==> json_reads(text@),
{
    serde_json::from_str(text)
}

} // verus!
