//! Splitting text into words and counting its sentences.

use vstd::prelude::*;
use crate::catalog::Catalog;
use crate::catalog::SENTENCE_PATTERN;
use crate::catalog::WORD_PATTERN;
use crate::engine::caseless_matches;
use crate::engine::total_len;
use crate::engine::views;

verus! {

/// The words of `text`, in order: the matches of the WORD pattern. An empty
/// text holds no word.
pub open spec fn words_of(text: Seq<char>) -> Seq<Seq<char>> {
    if text.len() == 0 {
        Seq::empty()
    } else {
        caseless_matches(WORD_PATTERN@, text)
    }
}

/// The number of words in `text`.
pub open spec fn word_count_of(text: Seq<char>) -> nat {
    words_of(text).len()
}

/// The number of sentences of a text with `ends` runs of terminators: one
/// to a run, and one where there is no run.
pub open spec fn sentences_for(ends: nat) -> nat {
    if ends < 1 {
        1
    } else {
        ends
    }
}

/// The number of sentences in `text`: its runs of terminators, and one where
/// it has none.
pub open spec fn sentence_count_of(text: Seq<char>) -> nat {
    sentences_for(caseless_matches(SENTENCE_PATTERN@, text).len())
}

/// The words of `text`, in order, as slices of it.
///
/// Beside naming the words, the contract bounds them: there are no more
/// words than the text has characters and one, and together they hold no
/// more characters than the text.
pub fn words<'a>(catalog: &Catalog, text: &'a str) -> (found: Vec<&'a str>)
    ensures
        views(found@) == words_of(text@),
        found@.len() <= text@.len() + 1,
        total_len(views(found@)) <= text@.len(),
{
    if text.is_empty() {
        let found: Vec<&'a str> = Vec::new();
        assert(views(found@) =~= Seq::<Seq<char>>::empty());
        found
    } else {
        catalog.word_matches(text)
    }
}

/// Counts the words of `text`.
pub fn word_count(catalog: &Catalog, text: &str) -> (count: usize)
    ensures
        count == word_count_of(text@),
{
    let found = words(catalog, text);
    found.len()
}

/// Counts the sentences of a text in which `ends` runs of terminators were
/// found; never fewer than one.
pub fn count_sentences(ends: usize) -> (count: usize)
    ensures
        count == sentences_for(ends as nat),
        count >= 1,
{
    if ends < 1 {
        1
    } else {
        ends
    }
}

/// Counts the sentences of `text`; never fewer than one.
pub fn sentence_count(catalog: &Catalog, text: &str) -> (count: usize)
    ensures
        count == sentence_count_of(text@),
        count >= 1,
        text@.len() == 0 ==> count == 1,
{
    let ends = catalog.sentence_matches(text).len();
    count_sentences(ends)
}

} // verus!
