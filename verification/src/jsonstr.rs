//! JSON string quoting, delegated to the serializer the documents are written
//! for.
use vstd::prelude::*;

verus! {

/// What serializing a string as JSON returns: a quoted, escaped JSON string
/// literal, a function of the characters alone.
pub uninterp spec fn json_string_of(s: Seq<char>) -> Seq<char>;

/// Relies on serde_json::to_string for string slices: the result is the JSON
/// string literal for exactly the given characters, and serializing a string
/// value cannot fail.
#[verifier::external_body]
pub(crate) fn json_quote(s: &str) -> (r: String)
    ensures
        r@ == json_string_of(s@),
{
    serde_json::to_string(s).unwrap()
}

} // verus!
