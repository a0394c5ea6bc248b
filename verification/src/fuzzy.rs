use vstd::prelude::*;

verus! {

/// The match/no-match decision of skim-style fuzzy matching of a pattern
/// against a candidate string. The decision is a pure function of the two
/// character sequences; it is given a name here rather than a definition,
/// and the library's contracts speak of that name.
pub uninterp spec fn skim_match(choice: Seq<char>, pattern: Seq<char>) -> bool;

/// Relies on fuzzy_matcher's `SkimMatcherV2::fuzzy_match` (default settings):
/// it returns a score exactly when the pattern fuzzy-matches the choice, its
/// decision depends on the two strings alone, and an empty pattern always
/// matches.
#[verifier::external_body]
pub(crate) fn fuzzy_match(choice: &str, pattern: &str) -> (r: bool)
    ensures
        r == skim_match(choice@, pattern@),
        pattern@.len() == 0 ==> r,
{
    let matcher = fuzzy_matcher::skim::SkimMatcherV2::default();
    fuzzy_matcher::FuzzyMatcher::fuzzy_match(&matcher, choice, pattern).is_some()
}

} // verus!
