//! Readability metrics for natural-language text: word, sentence and
//! syllable counts, estimated with a fixed catalog of case-insensitive
//! regular expressions.

pub mod catalog;
pub mod engine;
pub mod laws;
pub mod syllables;
pub mod tokenizer;

pub use catalog::Catalog;
pub use catalog::CatalogError;
pub use catalog::PatternGroup;
pub use catalog::SENTENCE_PATTERN;
pub use catalog::VOWEL_GROUPS_PATTERN;
pub use catalog::WORD_PATTERN;
pub use syllables::checked_syllables_in_text;
pub use syllables::checked_syllables_in_word;
pub use syllables::sum_estimates;
pub use syllables::syllable_estimate;
pub use syllables::syllables_in_text;
pub use syllables::syllables_in_word;
pub use tokenizer::count_sentences;
pub use tokenizer::sentence_count;
pub use tokenizer::word_count;
pub use tokenizer::words;
