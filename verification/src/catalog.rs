//! The pattern catalog: the literal text of the five pattern groups, and
//! their compiled form, built once and shared read-only by every count.
//!
//! The syllable heuristic lives in the two tables of corrections: they are
//! data, kept apart from the code that applies them.

use regex::Regex;
use regex::RegexSet;
use vstd::prelude::*;
use crate::engine::caseless_is_match;
use crate::engine::caseless_compiles;
use crate::engine::caseless_matches;
use crate::engine::caseless_set_compiles;
use crate::engine::find_all;
use crate::engine::matched_indices;
use crate::engine::regex_builder;
use crate::engine::regex_is_caseless;
use crate::engine::regex_source;
use crate::engine::regexset_builder;
use crate::engine::set_is_caseless;
use crate::engine::set_sources;
use crate::engine::total_len;
use crate::engine::views;

verus! {

/// A word: a maximal run of letters, optionally joined to a second run by a
/// single hyphen or apostrophe, between word boundaries.
pub const WORD_PATTERN: &'static str = r"\b(\p{L}+(?:[-']\p{L}+)?)\b";

/// A sentence boundary: one or more consecutive terminators.
pub const SENTENCE_PATTERN: &'static str = r"[.?!]+";

/// A vowel group: a maximal run of vowels.
pub const VOWEL_GROUPS_PATTERN: &'static str = r"[aeiou]+";

/// Patterns that mark a word as having one syllable fewer than its vowel
/// groups suggest.
pub const DEDUCT_PATTERNS: [&'static str; 74] = [
    r"e\b", r"ey\b", r"ed\b", r"ay\b", r"[kmrpbdtnvrw]es\b", r"ely\b",
    r"oy\b", r"cia", r"[aeilouy]le\b", r"tia[nl]?\b", r"tia([nl]s)?\b",
    r"[aeo]ym", r"eness\b", r"\bfore", r"ay[bclntrw]", r"ement", r"iles\b",
    r"[ao]les\b", r"eman\b", r"aying\b", r"oy[cln]", r"eful", r"\bey",
    r"geon", r"\bhome", r"eyn", r"ically", r"eless", r"sian\b", r"yles",
    r"\bwhite", r"eway", r"georg", r"lles\b", r"busine", r"illia", r"ules\b",
    r"\bhym", r"ryst", r"eyl", r"ehou", r"eyw", r"ekeep", r"people", r"every",
    r"\blife", r"giu", r"eyin", r"eout", r"oying\b", r"gues\b", r"\breine",
    r"geou", r"ques\b", r"vior", r"sewo", r"oseb", r"eyc", r"\bspace",
    r"\bstone", r"eover", r"ehol", r"iliar", r"estone", r"eyb", r"oyk",
    r"velan", r"piet", r"\bgia", r"somet", r"esvil", r"lyst", r"arriag",
    r"gior",
];

/// Patterns that mark a word as having one syllable more than its vowel
/// groups suggest.
pub const ADD_PATTERNS: [&'static str; 133] = [
    r"y\b", r"ia", r"\bmc", r"[il]e\b", r"ted\b", r"ee\b", r"io\b", r"ded\b",
    r"[io]er\b", r"y[bckglmnrstwxv]", r"sms?\b", r"eo", r"[eior]ed\b", r"iol",
    r"\bhy", r"iu", r"s'", r"oe\b", r"iot", r"tua", r"aue", r"ea\b",
    r"iest\b", r"ios", r"yst", r"nte\b", r"ce's", r"ying\b",
    r"[bcdfgkopt]led\b", r"ciat", r"lement", r"typ", r"ly[dehops]",
    r"[drv]ious", r"z's\b", r"ae\b", r"io[mpr]", r"tre\b", r"ione\b",
    r"[cdehlorn]ue\b", r"se's", r"nua", r"x'", r"oing", r"yz", r"creat",
    r"lua", r"iod", r"\breass", r"eing\b", r"dua", r"[bdprz]ion", r"iello\b",
    r"oa\b", r"ge's", r"phys", r"eact", r"ioc", r"iog", r"scien", r"dys",
    r"uou", r"\brein", r"ienn", r"rya", r"bre\b", r"tke\b", r"ryd", r"sh's\b",
    r"rua", r"ryp", r"rient", r"uing", r"xual", r"eely\b", r"leman\b",
    r"fluen", r"he'", r"dre\b", r"iet", r"loui", r"dl\b", r"\bio", r"rys",
    r"tui", r"rye", r"\bcoe", r"\breali", r"ntes\b", r"ch'", r"mye",
    r"eeman\b", r"ryo", r"linea", r"theat", r"reapp", r"oers\b", r"tys",
    r"\bcyp", r"eemp", r"nys", r"aic\b", r"cua", r"tl\b", r"tres\b", r"ciano",
    r"lione", r"eand", r"\bdya", r"gyp", r"croat", r"heroi", r"rearr", r"eex",
    r"cre\b", r"oniou", r"eum\b", r"fred\b", r"dien", r"oua", r"oincid",
    r"coordi", r"nucle", r"nyd", r"\breen", r"\breun", r"bys", r"iale\b",
    r"ifiers", r"rean", r"pre\b", r"iore\b", r"-in\b",
];

/// The DEDUCT table as pattern text.
pub open spec fn deduct_table() -> Seq<Seq<char>> {
    views(DEDUCT_PATTERNS@)
}

/// The ADD table as pattern text.
pub open spec fn add_table() -> Seq<Seq<char>> {
    views(ADD_PATTERNS@)
}

/// One of the catalog's five pattern groups, in the order in which the
/// catalog is put together.
#[derive(Clone, Copy, Debug, PartialEq, Eq, Structural)]
pub enum PatternGroup {
    Word,
    Sentence,
    VowelGroups,
    Deduct,
    Add,
}

/// A pattern group that the engine refused to compile, with the engine's own
/// account of why.
#[derive(Debug)]
pub struct CatalogError {
    pub group: PatternGroup,
    pub cause: regex::Error,
}

/// The compiled pattern catalog.
///
/// A catalog can only be made by [`Catalog::new`] or [`Catalog::assemble`],
/// so each of its five groups is known to be the case-insensitive
/// compilation of the pattern text with the same name.
pub struct Catalog {
    word: Regex,
    sentence: Regex,
    vowel_groups: Regex,
    deduct: RegexSet,
    add: RegexSet,
}

/// The pattern text of a catalog's five groups.
pub struct CatalogText {
    pub word: Seq<char>,
    pub sentence: Seq<char>,
    pub vowel_groups: Seq<char>,
    pub deduct: Seq<Seq<char>>,
    pub add: Seq<Seq<char>>,
}

/// The pattern text that every catalog is compiled from.
pub open spec fn catalog_text() -> CatalogText {
    CatalogText {
        word: WORD_PATTERN@,
        sentence: SENTENCE_PATTERN@,
        vowel_groups: VOWEL_GROUPS_PATTERN@,
        deduct: deduct_table(),
        add: add_table(),
    }
}

impl View for Catalog {
    type V = CatalogText;

    /// The pattern text that the catalog's groups were compiled from.
    closed spec fn view(&self) -> CatalogText {
        CatalogText {
            word: regex_source(self.word),
            sentence: regex_source(self.sentence),
            vowel_groups: regex_source(self.vowel_groups),
            deduct: set_sources(self.deduct),
            add: set_sources(self.add),
        }
    }
}

/// `found` lists, in ascending order and without gaps, the places in
/// `patterns` of the patterns that match somewhere in `text`.
pub open spec fn lists_matching(
    found: Seq<usize>,
    patterns: Seq<Seq<char>>,
    text: Seq<char>,
) -> bool {
    &&& forall|i: int, j: int| 0 <= i < j < found.len() ==> found[i] < found[j]
    &&& forall|k: int|
        0 <= k < found.len() ==> (#[trigger] found[k]) < patterns.len() && caseless_is_match(
            patterns[found[k] as int],
            text,
        )
    &&& forall|p: int|
        0 <= p < patterns.len() && caseless_is_match(#[trigger] patterns[p], text) ==> exists|
            k: int,
        | 0 <= k < found.len() && #[trigger] found[k] == p
}

/// `built` is, if anything, the case-insensitive compilation of `pattern`.
pub open spec fn compiles(built: Result<Regex, regex::Error>, pattern: Seq<char>) -> bool {
    built matches Ok(re) ==> regex_is_caseless(re) && regex_source(re) == pattern
}

/// `built` is, if anything, the case-insensitive compilation of `patterns`.
pub open spec fn compiles_set(
    built: Result<RegexSet, regex::Error>,
    patterns: Seq<Seq<char>>,
) -> bool {
    built matches Ok(set) ==> set_is_caseless(set) && set_sources(set) == patterns
}

/// The first group, in catalog order, whose compilation failed, with the
/// engine's error; `None` when all five succeeded.
pub open spec fn first_failure(
    word: Result<Regex, regex::Error>,
    sentence: Result<Regex, regex::Error>,
    vowel_groups: Result<Regex, regex::Error>,
    deduct: Result<RegexSet, regex::Error>,
    add: Result<RegexSet, regex::Error>,
) -> Option<CatalogError> {
    if let Err(cause) = word {
        Some(CatalogError { group: PatternGroup::Word, cause })
    } else if let Err(cause) = sentence {
        Some(CatalogError { group: PatternGroup::Sentence, cause })
    } else if let Err(cause) = vowel_groups {
        Some(CatalogError { group: PatternGroup::VowelGroups, cause })
    } else if let Err(cause) = deduct {
        Some(CatalogError { group: PatternGroup::Deduct, cause })
    } else if let Err(cause) = add {
        Some(CatalogError { group: PatternGroup::Add, cause })
    } else {
        None
    }
}

/// The first group, in catalog order, that the engine refuses to compile;
/// `None` when it compiles all five.
pub open spec fn refused_group() -> Option<PatternGroup> {
    if !caseless_compiles(WORD_PATTERN@) {
        Some(PatternGroup::Word)
    } else if !caseless_compiles(SENTENCE_PATTERN@) {
        Some(PatternGroup::Sentence)
    } else if !caseless_compiles(VOWEL_GROUPS_PATTERN@) {
        Some(PatternGroup::VowelGroups)
    } else if !caseless_set_compiles(deduct_table()) {
        Some(PatternGroup::Deduct)
    } else if !caseless_set_compiles(add_table()) {
        Some(PatternGroup::Add)
    } else {
        None
    }
}

impl Catalog {
    #[verifier::type_invariant]
    spec fn well_formed(&self) -> bool {
        &&& self@ == catalog_text()
        &&& regex_is_caseless(self.word)
        &&& regex_is_caseless(self.sentence)
        &&& regex_is_caseless(self.vowel_groups)
        &&& set_is_caseless(self.deduct)
        &&& set_is_caseless(self.add)
    }

    /// Compiles the five pattern groups, case-insensitively, and assembles
    /// the catalog from them.
    ///
    /// The catalog is made exactly when the engine compiles all five groups;
    /// otherwise the error names the first group, in catalog order, that it
    /// refuses.
    pub fn new() -> (made: Result<Catalog, CatalogError>)
        ensures
            made is Ok <==> caseless_compiles(WORD_PATTERN@) && caseless_compiles(
                SENTENCE_PATTERN@,
            ) && caseless_compiles(VOWEL_GROUPS_PATTERN@) && caseless_set_compiles(deduct_table())
                && caseless_set_compiles(add_table()),
            made matches Ok(catalog) ==> catalog@ == catalog_text(),
            made matches Err(error) ==> refused_group() == Some(error.group),
    {
        let word = regex_builder(WORD_PATTERN);
        let sentence = regex_builder(SENTENCE_PATTERN);
        let vowel_groups = regex_builder(VOWEL_GROUPS_PATTERN);
        let deduct = regexset_builder(DEDUCT_PATTERNS.as_slice());
        let add = regexset_builder(ADD_PATTERNS.as_slice());
        Catalog::assemble(word, sentence, vowel_groups, deduct, add)
    }

    /// Puts a catalog together from the outcomes of compiling its five
    /// groups: the catalog when all five compiled, else the error of the
    /// first group, in catalog order, that did not.
    pub fn assemble(
        word: Result<Regex, regex::Error>,
        sentence: Result<Regex, regex::Error>,
        vowel_groups: Result<Regex, regex::Error>,
        deduct: Result<RegexSet, regex::Error>,
        add: Result<RegexSet, regex::Error>,
    ) -> (made: Result<Catalog, CatalogError>)
        requires
            compiles(word, WORD_PATTERN@),
            compiles(sentence, SENTENCE_PATTERN@),
            compiles(vowel_groups, VOWEL_GROUPS_PATTERN@),
            compiles_set(deduct, deduct_table()),
            compiles_set(add, add_table()),
        ensures
            made is Ok <==> first_failure(word, sentence, vowel_groups, deduct, add) is None,
            made matches Ok(catalog) ==> catalog@ == catalog_text(),
            made matches Err(error) ==> first_failure(word, sentence, vowel_groups, deduct, add)
                == Some(error),
    {
        let word = match word {
            Ok(re) => re,
            Err(cause) => { return Err(CatalogError { group: PatternGroup::Word, cause }); },
        };
        let sentence = match sentence {
            Ok(re) => re,
            Err(cause) => { return Err(CatalogError { group: PatternGroup::Sentence, cause }); },
        };
        let vowel_groups = match vowel_groups {
            Ok(re) => re,
            Err(cause) => { return Err(CatalogError { group: PatternGroup::VowelGroups, cause }); },
        };
        let deduct = match deduct {
            Ok(set) => set,
            Err(cause) => { return Err(CatalogError { group: PatternGroup::Deduct, cause }); },
        };
        let add = match add {
            Ok(set) => set,
            Err(cause) => { return Err(CatalogError { group: PatternGroup::Add, cause }); },
        };
        Ok(Catalog { word, sentence, vowel_groups, deduct, add })
    }

    /// The matches of the WORD pattern in `text`, in order.
    pub fn word_matches<'a>(&self, text: &'a str) -> (found: Vec<&'a str>)
        ensures
            views(found@) == caseless_matches(WORD_PATTERN@, text@),
            found@.len() <= text@.len() + 1,
            total_len(views(found@)) <= text@.len(),
    {
        proof {
            use_type_invariant(self);
        }
        find_all(&self.word, text)
    }

    /// The matches of the SENTENCE pattern in `text`, in order.
    pub fn sentence_matches<'a>(&self, text: &'a str) -> (found: Vec<&'a str>)
        ensures
            views(found@) == caseless_matches(SENTENCE_PATTERN@, text@),
            found@.len() <= text@.len() + 1,
            total_len(views(found@)) <= text@.len(),
    {
        proof {
            use_type_invariant(self);
        }
        find_all(&self.sentence, text)
    }

    /// The matches of the VOWEL_GROUPS pattern in `word`, in order.
    pub fn vowel_group_matches<'a>(&self, word: &'a str) -> (found: Vec<&'a str>)
        ensures
            views(found@) == caseless_matches(VOWEL_GROUPS_PATTERN@, word@),
            found@.len() <= word@.len() + 1,
            total_len(views(found@)) <= word@.len(),
    {
        proof {
            use_type_invariant(self);
        }
        find_all(&self.vowel_groups, word)
    }

    /// The places in the DEDUCT table of the patterns that match somewhere
    /// in `word`, ascending.
    pub fn deduct_matches(&self, word: &str) -> (found: Vec<usize>)
        ensures
            lists_matching(found@, deduct_table(), word@),
    {
        proof {
            use_type_invariant(self);
        }
        matched_indices(&self.deduct, word)
    }

    /// The places in the ADD table of the patterns that match somewhere in
    /// `word`, ascending.
    pub fn add_matches(&self, word: &str) -> (found: Vec<usize>)
        ensures
            lists_matching(found@, add_table(), word@),
    {
        proof {
            use_type_invariant(self);
        }
        matched_indices(&self.add, word)
    }
}

} // verus!
