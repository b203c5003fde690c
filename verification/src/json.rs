//! Whether a text is JSON, as `serde_json` decides it.
use vstd::prelude::*;

verus! {

/// Whether `serde_json` parses `text` as a JSON value (the recursion limit of
/// its parser included).
pub uninterp spec fn json_text_parses(text: Seq<char>) -> bool;

/// Calls `serde_json::from_str::<serde_json::Value>` and reports whether it
/// succeeded. The contract names the outcome; JSON's grammar is not restated.
#[verifier::external_body]
pub(crate) fn is_json_text(text: &str) -> (r: bool)
    ensures
        r == json_text_parses(text@),
{
    serde_json::from_str::<serde_json::Value>(text).is_ok()
}

} // verus!
