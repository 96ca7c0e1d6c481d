//! The two outside readers that request checking relies on: base64 decoding and JSON
//! parsing.

use base64::engine::general_purpose::STANDARD;
use base64::Engine;

use vstd::prelude::*;

verus! {

/// Whether the standard base64 engine (padding required, canonical trailing bits)
/// decodes the text's UTF-8 bytes.
pub uninterp spec fn base64_accepts(text: Seq<char>) -> bool;

/// How `serde_json` reads a text as a JSON value: `Err` with the parser's message when
/// it is not JSON, `Ok(Some(n))` for an array of `n` items, `Ok(None)` for any other
/// value.
pub uninterp spec fn json_reading(text: Seq<char>) -> Result<Option<usize>, Seq<char>>;

/// `base64::engine::general_purpose::STANDARD.decode`: only whether decoding succeeds
/// is kept, and it is named `base64_accepts`; the decoded bytes are dropped.
#[verifier::external_body]
pub(crate) fn decodes_as_base64(value: &str) -> (ok: bool)
    ensures
        ok == base64_accepts(value@),
{
    STANDARD.decode(value.as_bytes()).is_ok()
}

/// `serde_json::from_str::<serde_json::Value>`: the outcome is named `json_reading`;
/// of a parsed value only whether it is an array, and of how many items, is kept.
#[verifier::external_body]
pub(crate) fn read_json(text: &str) -> (r: Result<Option<usize>, String>)
    ensures
        match r {
            Ok(shape) => json_reading(text@) == Ok::<Option<usize>, Seq<char>>(shape),
            Err(message) => json_reading(text@) == Err::<Option<usize>, Seq<char>>(message@),
        },
{
    match serde_json::from_str::<serde_json::Value>(text) {
        Ok(serde_json::Value::Array(items)) => Ok(Some(items.len())),
        Ok(_) => Ok(None),
        Err(err) => Err(err.to_string()),
    }
}

} // verus!
