use vstd::prelude::*;

verus! {

/// Whether `text` is one well-formed JSON value.
pub uninterp spec fn json_valid(text: Seq<char>) -> bool;

/// The JSON string literal (quoted and escaped) that encodes `s`.
pub uninterp spec fn json_string_literal(s: Seq<char>) -> Seq<char>;

/// Relies on `serde_json::from_str::<serde_json::Value>`: it succeeds exactly
/// on well-formed JSON text, which the empty text is not.
#[verifier::external_body]
pub(crate) fn is_json(text: &str) -> (r: bool)
    ensures
        r == json_valid(text@),
        text@.len() == 0 ==> !r,
{
    serde_json::from_str::<serde_json::Value>(text).is_ok()
}

/// Relies on `serde_json::to_string` on a `str`: the quoted, escaped literal.
#[verifier::external_body]
pub(crate) fn quote(s: &str) -> (r: String)
    ensures
        r@ == json_string_literal(s@),
{
    match serde_json::to_string(s) {
        Ok(t) => t,
        Err(_) => String::new(),
    }
}

} // verus!
