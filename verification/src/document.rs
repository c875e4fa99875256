//! Configuration documents, and when two of them say the same.

use crate::text::same_text;
use vstd::prelude::*;
use vstd::string::*;

verus! {

/// The compact text that `serde_json` writes for the value that it reads
/// from `text`; none where it reads no value from it.
pub uninterp spec fn canonical(text: Seq<char>) -> Option<Seq<char>>;

/// The characters of an optional text.
pub open spec fn option_text(text: Option<String>) -> Option<Seq<char>> {
    match text {
        Some(text) => Some(text@),
        None => None,
    }
}

/// Whether two documents say the same, given what each reads as: two texts
/// that read as values say the same if the values are written alike; two
/// texts that do not read as values say the same if they are the same text;
/// and a text that reads as a value never says the same as one that does not.
pub open spec fn agree_as(
    first: Seq<char>,
    second: Seq<char>,
    first_value: Option<Seq<char>>,
    second_value: Option<Seq<char>>,
) -> bool {
    match (first_value, second_value) {
        (Some(a), Some(b)) => a == b,
        (None, None) => first == second,
        _ => false,
    }
}

/// Whether two documents say the same: as values where both read as values,
/// so that neither the order of the members of an object nor the space
/// between the parts counts; as texts where neither does.
pub open spec fn same_document(first: Seq<char>, second: Seq<char>) -> bool {
    agree_as(first, second, canonical(first), canonical(second))
}

/// Reads `text` with `serde_json::from_str` as a `serde_json::Value` and
/// writes the value with `serde_json::to_string`; none where either fails.
/// The contract gives the result its name, [`canonical`], and so claims
/// one thing of it: that the same text gives the same result.
#[verifier::external_body]
fn canonical_text(text: &str) -> (value: Option<String>)
    ensures
        option_text(value) == canonical(text@),
{
    match serde_json::from_str::<serde_json::Value>(text) {
        Ok(value) => match serde_json::to_string(&value) {
            Ok(written) => Some(written),
            Err(_) => None,
        },
        Err(_) => None,
    }
}

/// Whether two documents say the same, given what each reads as: see [`agree_as`].
pub fn documents_agree_as(
    first: &str,
    second: &str,
    first_value: &Option<String>,
    second_value: &Option<String>,
) -> (yes: bool)
    ensures
        yes == agree_as(first@, second@, option_text(*first_value), option_text(*second_value)),
{
    match (first_value, second_value) {
        (Some(a), Some(b)) => same_text(a.as_str(), b.as_str()),
        (None, None) => same_text(first, second),
        _ => false,
    }
}

/// Whether two documents say the same: see [`same_document`].
pub fn documents_agree(first: &str, second: &str) -> (yes: bool)
    ensures
        yes == same_document(first@, second@),
{
    let first_value = canonical_text(first);
    let second_value = canonical_text(second);
    documents_agree_as(first, second, &first_value, &second_value)
}

/// Saying the same is an equivalence: every document says the same as
/// itself, and if one says the same as another, the other says the same as it,
/// and as every document that the first says the same as.
pub proof fn law_same_document_is_equivalence(a: Seq<char>, b: Seq<char>, c: Seq<char>)
    ensures
        same_document(a, a),
        same_document(a, b) ==> same_document(b, a),
        same_document(a, b) && same_document(b, c) ==> same_document(a, c),
{
}

} // verus!
