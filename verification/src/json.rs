//! Trusted boundary to the JSON tree type and its parser.
//!
//! The pipeline carries parsed JSON documents through opaquely; the only
//! question the verified logic ever asks of the parser is whether a given
//! text is valid JSON, so that is the one fact the boundary states.

use vstd::prelude::*;

verus! {

#[verifier::external_type_specification]
#[verifier::external_body]
pub struct ExJsonValue(serde_json::Value);

/// Whether `serde_json` accepts `text` as a JSON document.
/// The parse result depends on the text alone.
pub uninterp spec fn json_parse_ok(text: Seq<char>) -> bool;

/// Relies on `serde_json::from_str::<serde_json::Value>`: parses a text as a
/// JSON document, succeeding exactly on valid JSON; the result depends on the
/// text alone. The error arm carries the parser's own message.
#[verifier::external_body]
pub fn parse_json(text: &str) -> (r: Result<serde_json::Value, String>)
    ensures
        r is Ok <==> json_parse_ok(text@),
{
    serde_json::from_str::<serde_json::Value>(text).map_err(|e| e.to_string())
}

} // verus!
