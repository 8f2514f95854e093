//! Text primitives shared by the filter and the parsers.

use vstd::prelude::*;

verus! {

/// The lower-case form of a text, as `str::to_lowercase` computes it.
pub uninterp spec fn lowercase_of(text: Seq<char>) -> Seq<char>;

/// `needle` occurs in `hay` as a contiguous run of characters.
pub open spec fn occurs_in(needle: Seq<char>, hay: Seq<char>) -> bool {
    exists|i: int|
        0 <= i && i + needle.len() <= hay.len() && #[trigger] hay.subrange(
            i,
            i + needle.len(),
        ) == needle
}

/// `name` matches `query` when the lower-cased query occurs in the
/// lower-cased name.
pub open spec fn matches_query(name: Seq<char>, query: Seq<char>) -> bool {
    occurs_in(lowercase_of(query), lowercase_of(name))
}

/// Calls `str::to_lowercase`. Trusted: the result is the lower-case form of
/// `text`, a function of `text` alone.
#[verifier::external_body]
pub(crate) fn lowercase(text: &str) -> (lowered: String)
    ensures
        lowered@ == lowercase_of(text@),
{
    text.to_lowercase()
}

/// Calls `str::contains` with a string pattern. Trusted: the result tells
/// whether `needle` occurs in `hay` as a contiguous run of characters.
#[verifier::external_body]
pub(crate) fn contains(hay: &str, needle: &str) -> (found: bool)
    ensures
        found == occurs_in(needle@, hay@),
{
    hay.contains(needle)
}

/// Whether two texts hold the same characters.
pub fn same_text(left: &str, right: &str) -> (same: bool)
    ensures
        same == (left@ == right@),
{
    left.to_string() == right.to_string()
}

/// Whether `name` matches the filter `query`.
pub fn name_matches(name: &str, query: &str) -> (found: bool)
    ensures
        found == matches_query(name@, query@),
{
    let lowered_name = lowercase(name);
    let lowered_query = lowercase(query);
    contains(lowered_name.as_str(), lowered_query.as_str())
}

} // verus!
