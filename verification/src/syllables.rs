//! The syllable estimator: vowel groups, corrected by the ADD and DEDUCT
//! tables, never less than one syllable to a word.

use vstd::prelude::*;
use vstd::set_lib::lemma_int_range;
use vstd::set_lib::lemma_len_subset;
use vstd::set_lib::set_int_range;
use crate::catalog::add_table;
use crate::catalog::Catalog;
use crate::catalog::deduct_table;
use crate::catalog::lists_matching;
use crate::catalog::VOWEL_GROUPS_PATTERN;
use crate::engine::caseless_is_match;
use crate::engine::caseless_matches;
use crate::engine::total_len;
use crate::engine::views;
use crate::tokenizer::words;
use crate::tokenizer::words_of;

verus! {

/// The estimate for a word with the given counts: its vowel groups, plus
/// the ADD patterns it matches, minus the DEDUCT patterns it matches, and 1
/// where that would be less.
pub open spec fn estimate(vowel_groups: nat, add_count: nat, deduct_count: nat) -> nat {
    if vowel_groups + add_count < deduct_count + 1 {
        1
    } else {
        (vowel_groups + add_count - deduct_count) as nat
    }
}

/// The number of vowel groups in `word`.
pub open spec fn vowel_group_count(word: Seq<char>) -> nat {
    caseless_matches(VOWEL_GROUPS_PATTERN@, word).len()
}

/// The places in `patterns` of the patterns that match somewhere in `word`.
pub open spec fn matching_set(patterns: Seq<Seq<char>>, word: Seq<char>) -> Set<int> {
    Set::new(|i: int| 0 <= i < patterns.len() && caseless_is_match(patterns[i], word))
}

/// The number of patterns of `patterns` that match somewhere in `word`; a
/// pattern counts once, however often it matches.
pub open spec fn matching_count(patterns: Seq<Seq<char>>, word: Seq<char>) -> nat {
    matching_set(patterns, word).len()
}

/// The estimated number of syllables in `word`.
pub open spec fn word_syllables(word: Seq<char>) -> nat {
    estimate(
        vowel_group_count(word),
        matching_count(add_table(), word),
        matching_count(deduct_table(), word),
    )
}

/// The sum of the estimates of `words`.
pub open spec fn syllables_of_words(words: Seq<Seq<char>>) -> nat
    decreases words.len(),
{
    if words.len() == 0 {
        0
    } else {
        syllables_of_words(words.drop_last()) + word_syllables(words.last())
    }
}

/// The estimated number of syllables in `text`: the sum over its words.
pub open spec fn text_syllables(text: Seq<char>) -> nat {
    syllables_of_words(words_of(text))
}

/// The most that the ADD table can add to a word's vowel groups, and one for
/// the vowel group that may stand at the word's end.
pub const WORD_MARGIN: usize = 134;

/// The margin is the size of the ADD table and one.
pub proof fn lemma_margin_covers_the_table()
    ensures
        WORD_MARGIN == add_table().len() + 1,
{
}

/// The most that the estimate can come to for a word of `len` characters:
/// a vowel group at every character and at the end, and every ADD pattern.
pub open spec fn word_limit(len: nat) -> nat {
    len + WORD_MARGIN as nat
}

/// The most that the estimates of the words of a text of `len` characters
/// can sum to: the words hold at most `len` characters together, and there
/// are at most `len + 1` of them.
pub open spec fn text_limit(len: nat) -> nat {
    len + (len + 1) * (WORD_MARGIN as nat)
}

/// An ascending list of the matching places is as long as the set of
/// matching places is large, and no longer than the table.
pub proof fn lemma_listed_count(found: Seq<usize>, patterns: Seq<Seq<char>>, word: Seq<char>)
    requires
        lists_matching(found, patterns, word),
    ensures
        found.len() == matching_count(patterns, word),
        found.len() <= patterns.len(),
{
    let places = found.map_values(|place: usize| place as int);
    assert(places.no_duplicates()) by {
        assert forall|i: int, j: int|
            0 <= i < places.len() && 0 <= j < places.len() && i != j implies places[i]
            != places[j] by {
            if i < j {
                assert(found[i] < found[j]);
            } else {
                assert(found[j] < found[i]);
            }
        }
    }
    assert(places.to_set() =~= matching_set(patterns, word)) by {
        assert forall|place: int| places.to_set().contains(place) implies matching_set(
            patterns,
            word,
        ).contains(place) by {
            let k = choose|k: int| 0 <= k < places.len() && places[k] == place;
            assert(found[k] == place);
        }
        assert forall|place: int| matching_set(patterns, word).contains(
            place,
        ) implies places.to_set().contains(place) by {
            assert(caseless_is_match(patterns[place], word));
            let k = choose|k: int| 0 <= k < found.len() && #[trigger] found[k] == place;
            assert(places[k] == place);
        }
    }
    places.unique_seq_to_set();
    lemma_int_range(0, patterns.len() as int);
    assert(matching_set(patterns, word).subset_of(set_int_range(0, patterns.len() as int)));
    lemma_len_subset(matching_set(patterns, word), set_int_range(0, patterns.len() as int));
}

/// The first `n` parts hold no more characters than all of them, and one
/// part more adds that part's length.
pub proof fn lemma_total_len_take(parts: Seq<Seq<char>>, n: int)
    requires
        0 <= n <= parts.len(),
    ensures
        total_len(parts.take(n)) <= total_len(parts),
        n < parts.len() ==> total_len(parts.take(n + 1)) == total_len(parts.take(n))
            + parts[n].len(),
    decreases parts.len() - n,
{
    if n < parts.len() {
        assert(parts.take(n + 1).drop_last() =~= parts.take(n));
        lemma_total_len_take(parts, n + 1);
    } else {
        assert(parts.take(n) =~= parts);
    }
}

/// One word more keeps a running total within the limit of the whole text.
proof fn lemma_limit_step(done: nat, most: nat, margin: nat)
    requires
        done < most,
    ensures
        (done + 1) * margin == done * margin + margin,
        (done + 1) * margin <= most * margin,
        margin <= most * margin,
{
    assert((done + 1) * margin == done * margin + margin) by (nonlinear_arith);
    assert((done + 1) * margin <= most * margin) by (nonlinear_arith)
        requires
            done + 1 <= most,
    ;
    assert(margin <= most * margin) by (nonlinear_arith)
        requires
            1 <= most,
    ;
}

/// Applies the floor-of-one rule to the three counts of a word.
pub fn syllable_estimate(
    vowel_groups: usize,
    add_count: usize,
    deduct_count: usize,
) -> (count: usize)
    requires
        estimate(vowel_groups as nat, add_count as nat, deduct_count as nat) <= usize::MAX,
    ensures
        count == estimate(vowel_groups as nat, add_count as nat, deduct_count as nat),
        count >= 1,
{
    if add_count >= deduct_count {
        let surplus = add_count - deduct_count;
        if vowel_groups == 0 && surplus == 0 {
            1
        } else {
            vowel_groups + surplus
        }
    } else {
        let deficit = deduct_count - add_count;
        if vowel_groups <= deficit {
            1
        } else {
            vowel_groups - deficit
        }
    }
}

/// The sum of `values`.
pub open spec fn total(values: Seq<usize>) -> nat
    decreases values.len(),
{
    if values.len() == 0 {
        0
    } else {
        total(values.drop_last()) + values.last() as nat
    }
}

/// The first `n` values sum to no more than all of them, and one value more
/// adds that value.
pub proof fn lemma_total_take(values: Seq<usize>, n: int)
    requires
        0 <= n <= values.len(),
    ensures
        total(values.take(n)) <= total(values),
        n < values.len() ==> total(values.take(n + 1)) == total(values.take(n)) + values[n],
    decreases values.len() - n,
{
    if n < values.len() {
        assert(values.take(n + 1).drop_last() =~= values.take(n));
        lemma_total_take(values, n + 1);
    } else {
        assert(values.take(n) =~= values);
    }
}

/// The first `n` words have no more syllables than all of them, and one word
/// more adds that word's estimate.
pub proof fn lemma_syllables_take(words: Seq<Seq<char>>, n: int)
    requires
        0 <= n <= words.len(),
    ensures
        syllables_of_words(words.take(n)) <= syllables_of_words(words),
        n < words.len() ==> syllables_of_words(words.take(n + 1)) == syllables_of_words(
            words.take(n),
        ) + word_syllables(words[n]),
    decreases words.len() - n,
{
    if n < words.len() {
        assert(words.take(n + 1).drop_last() =~= words.take(n));
        lemma_syllables_take(words, n + 1);
    } else {
        assert(words.take(n) =~= words);
    }
}

/// Sums the estimates of a text's words; `None` where the sum does not fit
/// the machine's word.
pub fn sum_estimates(estimates: &Vec<usize>) -> (sum: Option<usize>)
    ensures
        sum matches Some(n) ==> n == total(estimates@),
        sum is None <==> total(estimates@) > usize::MAX,
{
    let mut sum: usize = 0;
    let mut done: usize = 0;
    while done < estimates.len()
        invariant
            done <= estimates.len(),
            sum == total(estimates@.take(done as int)),
        decreases estimates.len() - done,
    {
        proof {
            lemma_total_take(estimates@, done as int);
            lemma_total_take(estimates@, done + 1);
        }
        match sum.checked_add(estimates[done]) {
            Some(more) => {
                sum = more;
            },
            None => {
                return None;
            },
        }
        done = done + 1;
    }
    proof {
        assert(estimates@.take(done as int) =~= estimates@);
    }
    Some(sum)
}

/// Estimates the syllables of one word; `None` where the estimate does not
/// fit the machine's word, which no word within [`word_limit`] brings about.
pub fn checked_syllables_in_word(catalog: &Catalog, word: &str) -> (count: Option<usize>)
    ensures
        count matches Some(n) ==> n == word_syllables(word@) && 1 <= n <= word_limit(
            word@.len(),
        ),
        count is None <==> word_syllables(word@) > usize::MAX,
        word_limit(word@.len()) <= usize::MAX ==> count is Some,
{
    let vowel_groups = catalog.vowel_group_matches(word).len();
    let add = catalog.add_matches(word);
    let deduct = catalog.deduct_matches(word);
    proof {
        lemma_listed_count(add@, add_table(), word@);
        lemma_listed_count(deduct@, deduct_table(), word@);
        lemma_margin_covers_the_table();
    }
    let add_count = add.len();
    let deduct_count = deduct.len();
    if add_count > deduct_count && vowel_groups > usize::MAX - (add_count - deduct_count) {
        None
    } else {
        Some(syllable_estimate(vowel_groups, add_count, deduct_count))
    }
}

/// Estimates the syllables of one word that is within [`word_limit`].
pub fn syllables_in_word(catalog: &Catalog, word: &str) -> (count: usize)
    requires
        word_limit(word@.len()) <= usize::MAX,
    ensures
        count == word_syllables(word@),
        1 <= count <= word_limit(word@.len()),
{
    checked_syllables_in_word(catalog, word).unwrap()
}

/// Estimates the syllables of a text, the sum of the estimates of its words;
/// `None` where the sum does not fit the machine's word, which no text
/// within [`text_limit`] brings about.
pub fn checked_syllables_in_text(catalog: &Catalog, text: &str) -> (count: Option<usize>)
    ensures
        count matches Some(n) ==> n == text_syllables(text@) && words_of(text@).len() <= n
            <= text_limit(text@.len()),
        count is None <==> text_syllables(text@) > usize::MAX,
        text_limit(text@.len()) <= usize::MAX ==> count is Some,
{
    let found = words(catalog, text);
    let ghost parts = views(found@);
    let mut estimates: Vec<usize> = Vec::new();
    let mut done: usize = 0;
    while done < found.len()
        invariant
            done <= found.len(),
            parts == views(found@),
            parts == words_of(text@),
            parts.len() <= text@.len() + 1,
            total_len(parts) <= text@.len(),
            estimates@.len() == done,
            total(estimates@) == syllables_of_words(parts.take(done as int)),
            done <= total(estimates@) <= total_len(parts.take(done as int)) + done * WORD_MARGIN,
        decreases found.len() - done,
    {
        let word = found[done];
        proof {
            lemma_total_len_take(parts, done as int);
            lemma_total_len_take(parts, done + 1);
            lemma_syllables_take(parts, done as int);
            lemma_syllables_take(parts, done + 1);
            lemma_limit_step(done as nat, text@.len() + 1, WORD_MARGIN as nat);
            assert(parts[done as int] == word@);
        }
        match checked_syllables_in_word(catalog, word) {
            Some(more) => {
                let ghost before = estimates@;
                estimates.push(more);
                proof {
                    assert(estimates@.drop_last() =~= before);
                }
            },
            None => {
                return None;
            },
        }
        done = done + 1;
    }
    proof {
        assert(parts.take(done as int) =~= parts);
        if done > 0 {
            lemma_limit_step((done - 1) as nat, text@.len() + 1, WORD_MARGIN as nat);
        }
    }
    sum_estimates(&estimates)
}

/// Estimates the syllables of a text that is within [`text_limit`]: the sum
/// of the estimates of its words.
pub fn syllables_in_text(catalog: &Catalog, text: &str) -> (count: usize)
    requires
        text_limit(text@.len()) <= usize::MAX,
    ensures
        count == text_syllables(text@),
        words_of(text@).len() <= count <= text_limit(text@.len()),
{
    checked_syllables_in_text(catalog, text).unwrap()
}

} // verus!
