use vstd::prelude::*;

verus! {

/// What `serde_json` reports when `text` is read as one JSON document: `None` when the text is a
/// well-formed JSON value, otherwise the text of the parser's error.
pub uninterp spec fn json_syntax_error(text: Seq<char>) -> Option<Seq<char>>;

/// Reads `text` with `serde_json::from_str::<serde_json::Value>` and reports the parser's
/// error text, if any. Trusted: the result is `json_syntax_error` of the text.
#[verifier::external_body]
pub(crate) fn json_syntax_error_of(text: &str) -> (r: Option<String>)
    ensures
        r.deep_view() == json_syntax_error(text@),
{
    match serde_json::from_str::<serde_json::Value>(text) {
        Ok(_) => None,
        Err(e) => Some(e.to_string()),
    }
}

} // verus!
