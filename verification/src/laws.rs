//! What holds of the counts for every text, stated over the specification
//! functions that the counting functions' contracts use.

use vstd::prelude::*;
use crate::syllables::syllables_of_words;
use crate::syllables::text_syllables;
use crate::syllables::word_syllables;
use crate::tokenizer::sentence_count_of;
use crate::tokenizer::word_count_of;
use crate::tokenizer::words_of;

verus! {

/// Every word is estimated at one syllable or more, whatever it matches.
pub proof fn law_word_has_a_syllable(word: Seq<char>)
    ensures
        word_syllables(word) >= 1,
{
}

/// Every text counts as one sentence or more, the empty text too.
pub proof fn law_text_has_a_sentence(text: Seq<char>)
    ensures
        sentence_count_of(text) >= 1,
{
}

/// The empty text has no words and no syllables.
pub proof fn law_empty_text_counts_nothing(text: Seq<char>)
    requires
        text.len() == 0,
    ensures
        word_count_of(text) == 0,
        text_syllables(text) == 0,
{
}

/// A list of words has a syllable or more for each of its words.
pub proof fn law_syllables_cover_words(words: Seq<Seq<char>>)
    ensures
        syllables_of_words(words) >= words.len(),
    decreases words.len(),
{
    if words.len() > 0 {
        law_syllables_cover_words(words.drop_last());
    }
}

/// A text has a syllable or more for each of its words.
pub proof fn law_text_syllables_cover_words(text: Seq<char>)
    ensures
        text_syllables(text) >= word_count_of(text),
{
    law_syllables_cover_words(words_of(text));
}

/// The counts are functions of the text's characters and of nothing else:
/// two texts that agree character by character have the same counts, so
/// counting the same text twice gives the same answer.
pub proof fn law_counts_follow_the_text(first: Seq<char>, second: Seq<char>)
    requires
        first.len() == second.len(),
        forall|i: int| 0 <= i < first.len() ==> first[i] == second[i],
    ensures
        word_count_of(first) == word_count_of(second),
        sentence_count_of(first) == sentence_count_of(second),
        text_syllables(first) == text_syllables(second),
{
    assert(first =~= second);
}

} // verus!
