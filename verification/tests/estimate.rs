use kincaid::syllable_estimate;
use kincaid::count_sentences;
use kincaid::sum_estimates;

#[test]
fn estimate_adds_and_deducts() {
    assert_eq!(syllable_estimate(2, 1, 0), 3);
    assert_eq!(syllable_estimate(3, 0, 0), 3);
    assert_eq!(syllable_estimate(3, 2, 1), 4);
    assert_eq!(syllable_estimate(4, 1, 3), 2);
    assert_eq!(syllable_estimate(2, 0, 1), 1);
}

#[test]
fn estimate_is_never_below_one() {
    assert_eq!(syllable_estimate(0, 0, 0), 1);
    assert_eq!(syllable_estimate(1, 0, 1), 1);
    assert_eq!(syllable_estimate(1, 0, 3), 1);
    assert_eq!(syllable_estimate(0, 2, 5), 1);
    assert_eq!(syllable_estimate(0, 1, 0), 1);
    assert_eq!(syllable_estimate(0, 0, usize::MAX), 1);
}

#[test]
fn estimate_reaches_the_largest_count() {
    assert_eq!(syllable_estimate(usize::MAX, 0, 0), usize::MAX);
    assert_eq!(syllable_estimate(usize::MAX, 5, 5), usize::MAX);
    assert_eq!(syllable_estimate(usize::MAX, 5, 7), usize::MAX - 2);
    assert_eq!(syllable_estimate(usize::MAX - 3, 4, 1), usize::MAX);
}

#[test]
fn estimates_sum_to_their_total() {
    assert_eq!(sum_estimates(&vec![]), Some(0));
    assert_eq!(sum_estimates(&vec![2]), Some(2));
    assert_eq!(sum_estimates(&vec![2, 1, 1, 1, 1, 1]), Some(7));
    assert_eq!(sum_estimates(&vec![usize::MAX - 3, 1, 2]), Some(usize::MAX));
}

#[test]
fn estimates_past_the_largest_count_have_no_sum() {
    assert_eq!(sum_estimates(&vec![usize::MAX, 1]), None);
    assert_eq!(sum_estimates(&vec![1, usize::MAX, 0]), None);
    assert_eq!(sum_estimates(&vec![usize::MAX - 3, 1, 2, 1]), None);
}

#[test]
fn a_text_without_terminators_is_one_sentence() {
    assert_eq!(count_sentences(0), 1);
    assert_eq!(count_sentences(1), 1);
    assert_eq!(count_sentences(2), 2);
    assert_eq!(count_sentences(usize::MAX), usize::MAX);
}
