//! The regular-expression engine, as far as this library relies on it.
//!
//! Everything in this module is believed, not proved: the types of the
//! `regex` crate, names for what its searches return, and one thin function
//! around each of its calls. The rest of the library is verified against the
//! contracts stated here.

use regex::Regex;
use regex::RegexBuilder;
use regex::RegexSet;
use regex::RegexSetBuilder;
use vstd::prelude::*;

verus! {

/// `regex::Regex`: one compiled pattern.
#[verifier::external_type_specification]
#[verifier::external_body]
pub struct ExRegex(regex::Regex);

/// `regex::RegexSet`: several patterns compiled to be searched together.
#[verifier::external_type_specification]
#[verifier::external_body]
pub struct ExRegexSet(regex::RegexSet);

/// `regex::Error`: why a pattern could not be compiled.
#[verifier::external_type_specification]
#[verifier::external_body]
pub struct ExRegexError(regex::Error);

/// The pattern text that `re` was compiled from: what `Regex::as_str`
/// returns.
pub uninterp spec fn regex_source(re: Regex) -> Seq<char>;

/// Whether `re` was made by a `RegexBuilder` with `case_insensitive(true)`
/// and every other option left at its default.
pub uninterp spec fn regex_is_caseless(re: Regex) -> bool;

/// The pattern texts that `set` was compiled from, in order: what
/// `RegexSet::patterns` returns.
pub uninterp spec fn set_sources(set: RegexSet) -> Seq<Seq<char>>;

/// Whether `set` was made by a `RegexSetBuilder` with
/// `case_insensitive(true)` and every other option left at its default.
pub uninterp spec fn set_is_caseless(set: RegexSet) -> bool;

/// Whether the engine compiles `pattern` case-insensitively: whether
/// `RegexBuilder::build` returns `Ok` for it, with `case_insensitive(true)`
/// and the builder's own limits. The build reads nothing but the pattern and
/// sizes that are fixed when the program is compiled.
pub uninterp spec fn caseless_compiles(pattern: Seq<char>) -> bool;

/// Whether the engine compiles `patterns` together, case-insensitively:
/// whether `RegexSetBuilder::build` returns `Ok` for them, with
/// `case_insensitive(true)` and the builder's own limits.
pub uninterp spec fn caseless_set_compiles(patterns: Seq<Seq<char>>) -> bool;

/// The substrings of `text` that `Regex::find_iter` yields, in order, for
/// `pattern` compiled case-insensitively: the successive non-overlapping
/// leftmost matches.
pub uninterp spec fn caseless_matches(pattern: Seq<char>, text: Seq<char>) -> Seq<Seq<char>>;

/// Whether `pattern`, compiled case-insensitively, matches anywhere in
/// `text`: what `RegexSet::matches` reports of a member of the set.
pub uninterp spec fn caseless_is_match(pattern: Seq<char>, text: Seq<char>) -> bool;

/// The character sequences of a sequence of string slices.
pub open spec fn views(strs: Seq<&str>) -> Seq<Seq<char>> {
    strs.map_values(|s: &str| s@)
}

/// The number of characters in all of `parts` together.
pub open spec fn total_len(parts: Seq<Seq<char>>) -> nat
    decreases parts.len(),
{
    if parts.len() == 0 {
        0
    } else {
        total_len(parts.drop_last()) + parts.last().len()
    }
}

/// `RegexBuilder::new(pattern).case_insensitive(true).build()`.
///
/// Claims that the build succeeds exactly on the patterns that the engine
/// compiles, and that a successful build hands back a regex that remembers
/// `pattern` as its source and folds case. A pattern that the engine refuses
/// comes back as the engine's error; nothing panics.
#[verifier::external_body]
pub(crate) fn regex_builder(pattern: &str) -> (built: Result<Regex, regex::Error>)
    ensures
        built is Ok <==> caseless_compiles(pattern@),
        built matches Ok(re) ==> regex_is_caseless(re) && regex_source(re) == pattern@,
{
    RegexBuilder::new(pattern).case_insensitive(true).build()
}

/// `RegexSetBuilder::new(patterns).case_insensitive(true).build()`.
///
/// Claims that the build succeeds exactly on the lists of patterns that the
/// engine compiles together, and that a successful build hands back a set
/// that remembers `patterns`, in their order, as its sources and folds case.
/// A list that the engine refuses comes back as the engine's error; nothing
/// panics.
#[verifier::external_body]
pub(crate) fn regexset_builder(patterns: &[&str]) -> (built: Result<RegexSet, regex::Error>)
    ensures
        built is Ok <==> caseless_set_compiles(views(patterns@)),
        built matches Ok(set) ==> set_is_caseless(set) && set_sources(set) == views(patterns@),
{
    RegexSetBuilder::new(patterns).case_insensitive(true).build()
}

/// `Regex::find_iter`, each match handed out as the substring it covers
/// (`Match::as_str`).
///
/// Claims that the substrings are the named matches of the regex's source
/// in `text`. Of every such result it claims two bounds, both because
/// matches are successive and never overlap, and because the search moves on
/// by at least one character after an empty match: no two matches start at
/// the same place, so there is at most one per character and one at the end;
/// and together the matches hold no more characters than `text`.
#[verifier::external_body]
pub(crate) fn find_all<'a>(re: &Regex, text: &'a str) -> (found: Vec<&'a str>)
    requires
        regex_is_caseless(*re),
    ensures
        views(found@) == caseless_matches(regex_source(*re), text@),
        found@.len() <= text@.len() + 1,
        total_len(views(found@)) <= text@.len(),
{
    re.find_iter(text).map(|m| m.as_str()).collect()
}

/// `RegexSet::matches`, with the set of matches handed out as the indices
/// that `SetMatches::iter` yields.
///
/// Claims that the indices come in ascending order, that each is the place
/// of a source of `set` that matches somewhere in `text`, and that the place
/// of every source that does is among them.
#[verifier::external_body]
pub(crate) fn matched_indices(set: &RegexSet, text: &str) -> (found: Vec<usize>)
    requires
        set_is_caseless(*set),
    ensures
        forall|i: int, j: int| 0 <= i < j < found@.len() ==> found@[i] < found@[j],
        forall|k: int|
            0 <= k < found@.len() ==> (#[trigger] found@[k]) < set_sources(*set).len()
                && caseless_is_match(set_sources(*set)[found@[k] as int], text@),
        forall|p: int|
            0 <= p < set_sources(*set).len() && caseless_is_match(
                #[trigger] set_sources(*set)[p],
                text@,
            ) ==> exists|k: int| 0 <= k < found@.len() && #[trigger] found@[k] == p,
{
    set.matches(text).iter().collect()
}

} // verus!
