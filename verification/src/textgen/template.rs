//! Literal substitution of several patterns at once.
//!
//! The substitution is done by the `aho-corasick` crate. Its result is named,
//! not described: nothing in this module is proved.

use vstd::prelude::*;

verus! {

/// The text that `AhoCorasick::new(patterns).replace_all(haystack, replacements)`
/// returns: `haystack` with each match of a pattern replaced by the
/// replacement at the pattern's position, the matches being those that the
/// automaton's `find_iter` reports under its default match kind.
pub uninterp spec fn replaced_all(
    patterns: Seq<Seq<char>>,
    haystack: Seq<char>,
    replacements: Seq<Seq<char>>,
) -> Seq<char>;

/// The texts of a sequence of string slices, in the same order.
pub open spec fn slice_texts(slices: Seq<&str>) -> Seq<Seq<char>> {
    slices.map_values(|s: &str| s@)
}

/// The texts of a sequence of strings, in the same order.
pub open spec fn string_texts(strings: Seq<String>) -> Seq<Seq<char>> {
    strings.map_values(|s: String| s@)
}

/// Builds an automaton with `AhoCorasick::new` and calls its `replace_all`.
/// Trusted: the result is `replaced_all` of the arguments. The call panics
/// unless every pattern has a replacement, so that is required; and the
/// patterns are kept non-empty, so that every match begins and ends between
/// characters.
#[verifier::external_body]
pub(crate) fn replace_all(patterns: &Vec<&str>, haystack: &str, replacements: &Vec<String>) -> (out:
    String)
    requires
        patterns.len() == replacements.len(),
        forall|i: int| 0 <= i < patterns.len() ==> (#[trigger] patterns[i])@.len() > 0,
    ensures
        out@ == replaced_all(slice_texts(patterns@), haystack@, string_texts(replacements@)),
{
    aho_corasick::AhoCorasick::new(patterns).replace_all(haystack, replacements)
}

} // verus!
