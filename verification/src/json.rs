use vstd::prelude::*;

verus! {

/// A parsed JSON document, carried opaquely from the parser to the
/// response that returns it.
#[verifier::external_type_specification]
#[verifier::external_body]
pub struct ExValue(serde_json::Value);

/// The parser's error value, carried opaquely until its message is taken.
#[verifier::external_type_specification]
#[verifier::external_body]
pub struct ExJsonError(serde_json::Error);

/// Whether the JSON parser accepts a text; acceptance depends on the text
/// alone.
pub uninterp spec fn json_parses(s: Seq<char>) -> bool;

/// Relies on `serde_json::from_str::<Value>`: whether it returns `Ok`, and
/// which value, is a function of the input text alone.
#[verifier::external_body]
pub(crate) fn parse_json(s: &str) -> (r: Result<serde_json::Value, serde_json::Error>)
    ensures
        r is Ok <==> json_parses(s@),
{
    serde_json::from_str::<serde_json::Value>(s)
}

/// Relies on `serde_json::Error`'s `Display` implementation, through
/// `ToString`, for the parser's diagnostic message; nothing is claimed of
/// the message's content.
#[verifier::external_body]
pub(crate) fn parse_error_text(e: &serde_json::Error) -> (r: String) {
    e.to_string()
}

} // verus!
