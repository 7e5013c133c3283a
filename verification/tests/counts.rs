use kincaid::checked_syllables_in_text;
use kincaid::checked_syllables_in_word;
use kincaid::sentence_count;
use kincaid::syllables_in_text;
use kincaid::syllables_in_word;
use kincaid::word_count;
use kincaid::words;
use kincaid::Catalog;

fn catalog() -> Catalog {
    Catalog::new().expect("the pattern catalog compiles")
}

#[test]
fn test_syllables_in_text() {
    let catalog = catalog();
    assert_eq!(syllables_in_text(&catalog, ""), 0);
    assert_eq!(syllables_in_text(&catalog, "Hello"), 2);
    assert_eq!(syllables_in_text(&catalog, "Hello World"), 3);
    assert_eq!(syllables_in_text(&catalog, "Test-case"), 2);
    assert_eq!(syllables_in_text(&catalog, "Hello, World! This is a test"), 7);
    assert_eq!(syllables_in_text(&catalog, "Zylka"), 2);
}

#[test]
fn test_syllables_in_word() {
    let catalog = catalog();
    assert_eq!(syllables_in_word(&catalog, "unaware"), 3);
    assert_eq!(syllables_in_word(&catalog, "sum"), 1);
    assert_eq!(syllables_in_word(&catalog, "some"), 1);
    assert_eq!(syllables_in_word(&catalog, "pernicious"), 3);
    assert_eq!(syllables_in_word(&catalog, "egregious"), 3);
}

#[test]
fn test_word_count() {
    let catalog = catalog();
    assert_eq!(word_count(&catalog, "sample text"), 2);
    assert_eq!(word_count(&catalog, "$5 only"), 1);
    assert_eq!(word_count(&catalog, "This is noted in the book(1)"), 6);
    assert_eq!(
        word_count(
            &catalog,
            "A sentence that's long\u{e2}\u{20ac}\u{201d}very-long, and contains some real world stuff;funny!"
        ),
        12
    );
}

#[test]
fn empty_text_has_no_words_no_syllables_and_one_sentence() {
    let catalog = catalog();
    assert_eq!(word_count(&catalog, ""), 0);
    assert_eq!(syllables_in_text(&catalog, ""), 0);
    assert_eq!(sentence_count(&catalog, ""), 1);
    assert!(words(&catalog, "").is_empty());
}

#[test]
fn text_without_words_has_no_syllables() {
    let catalog = catalog();
    assert_eq!(word_count(&catalog, "12 + 34 = 46 ... ?!"), 0);
    assert_eq!(syllables_in_text(&catalog, "12 + 34 = 46 ... ?!"), 0);
}

#[test]
fn sentence_count_counts_runs_of_terminators() {
    let catalog = catalog();
    assert_eq!(sentence_count(&catalog, "no terminator here"), 1);
    assert_eq!(sentence_count(&catalog, "One."), 1);
    assert_eq!(sentence_count(&catalog, "One. Two! Three?"), 3);
    assert_eq!(sentence_count(&catalog, "Wait... really?"), 2);
    assert_eq!(sentence_count(&catalog, "What?!"), 1);
    assert_eq!(sentence_count(&catalog, "a.b"), 1);
    assert_eq!(sentence_count(&catalog, ". . ."), 3);
}

#[test]
fn digits_and_symbols_are_not_words() {
    let catalog = catalog();
    assert_eq!(words(&catalog, "$5 only"), vec!["only"]);
    assert_eq!(words(&catalog, "book(1)"), vec!["book"]);
    assert_eq!(word_count(&catalog, "42"), 0);
}

#[test]
fn hyphen_and_apostrophe_join_two_runs_of_letters() {
    let catalog = catalog();
    assert_eq!(words(&catalog, "Test-case"), vec!["Test-case"]);
    assert_eq!(word_count(&catalog, "Test-case"), 1);
    assert_eq!(syllables_in_text(&catalog, "Test-case"), 2);
    assert_eq!(words(&catalog, "wasn't"), vec!["wasn't"]);
    assert_eq!(words(&catalog, "well- done"), vec!["well", "done"]);
    assert_eq!(words(&catalog, "-well 'done'"), vec!["well", "done"]);
    assert_eq!(words(&catalog, "mother-in-law"), vec!["mother-in", "law"]);
}

#[test]
fn words_come_in_text_order() {
    let catalog = catalog();
    assert_eq!(
        words(&catalog, "Hello, World! This is a test"),
        vec!["Hello", "World", "This", "is", "a", "test"]
    );
}

#[test]
fn letters_of_any_script_make_words() {
    let catalog = catalog();
    assert_eq!(words(&catalog, "na\u{ef}ve caf\u{e9}"), vec!["na\u{ef}ve", "caf\u{e9}"]);
    assert_eq!(word_count(&catalog, "\u{3b1}\u{3b2}\u{3b3} \u{434}\u{430}"), 2);
}

#[test]
fn matching_ignores_case() {
    let catalog = catalog();
    assert_eq!(syllables_in_word(&catalog, "HELLO"), 2);
    assert_eq!(syllables_in_word(&catalog, "hello"), 2);
    assert_eq!(syllables_in_word(&catalog, "SOME"), 1);
    assert_eq!(syllables_in_text(&catalog, "PERNICIOUS Egregious"), 6);
}

#[test]
fn text_syllables_are_the_sum_over_its_words() {
    let catalog = catalog();
    let text = "Hello, World! This is a test";
    let mut sum = 0;
    for word in words(&catalog, text) {
        sum += syllables_in_word(&catalog, word);
    }
    assert_eq!(sum, 7);
    assert_eq!(syllables_in_text(&catalog, text), sum);
}

#[test]
fn every_word_has_a_syllable() {
    let catalog = catalog();
    assert_eq!(syllables_in_word(&catalog, "x"), 1);
    assert_eq!(syllables_in_word(&catalog, "hmm"), 1);
    assert_eq!(syllables_in_word(&catalog, "e"), 1);
    assert_eq!(syllables_in_word(&catalog, "the"), 1);
    let text = "the hmm x e";
    assert!(syllables_in_text(&catalog, text) >= word_count(&catalog, text));
}

#[test]
fn counting_twice_gives_the_same_counts() {
    let catalog = catalog();
    let other = Catalog::new().expect("the pattern catalog compiles");
    let text = "Hello, World! This is a test. Is it?";
    assert_eq!(word_count(&catalog, text), word_count(&catalog, text));
    assert_eq!(word_count(&catalog, text), word_count(&other, text));
    assert_eq!(sentence_count(&catalog, text), sentence_count(&other, text));
    assert_eq!(syllables_in_text(&catalog, text), syllables_in_text(&other, text));
    assert_eq!(word_count(&catalog, text), 8);
    assert_eq!(sentence_count(&catalog, text), 3);
}

#[test]
fn checked_estimates_agree_with_the_plain_ones() {
    let catalog = catalog();
    assert_eq!(checked_syllables_in_word(&catalog, "unaware"), Some(3));
    assert_eq!(checked_syllables_in_word(&catalog, "some"), Some(1));
    assert_eq!(checked_syllables_in_word(&catalog, ""), Some(1));
    assert_eq!(checked_syllables_in_text(&catalog, ""), Some(0));
    assert_eq!(checked_syllables_in_text(&catalog, "Hello World"), Some(3));
    assert_eq!(
        checked_syllables_in_text(&catalog, "Hello, World! This is a test"),
        Some(7)
    );
    let text = "A sentence that's long, and contains some real world stuff; funny!";
    assert_eq!(
        checked_syllables_in_text(&catalog, text),
        Some(syllables_in_text(&catalog, text))
    );
}
