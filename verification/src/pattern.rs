//! A compiled set of name patterns with a single yes/no union query, as the
//! visibility policy needs it. Matching is done by regex's `RegexSet`.

use vstd::prelude::*;
use crate::error::Error;

verus! {

/// regex's compiled pattern-set type, carried opaquely.
#[verifier::external_type_specification]
#[verifier::external_body]
pub struct ExRegexSet(regex::RegexSet);

/// The pattern strings a compiled `regex::RegexSet` was built from.
pub uninterp spec fn regex_set_patterns(rs: regex::RegexSet) -> Seq<Seq<char>>;

/// Whether compiling the given pattern strings as one set succeeds; a
/// function of the patterns alone.
pub uninterp spec fn regex_compile_ok(patterns: Seq<Seq<char>>) -> bool;

/// Whether any of the given patterns matches the given text; a function of
/// the patterns and the text alone.
pub uninterp spec fn regex_set_match(patterns: Seq<Seq<char>>, text: Seq<char>) -> bool;

/// Relies on regex::RegexSet::new: compiles the given patterns into one set;
/// whether that succeeds (the syntax of every pattern is valid and the set
/// stays within regex's size limit) depends on the pattern strings alone. A
/// failure is handed back as its rendered message.
#[verifier::external_body]
fn compile_regex_set(patterns: &Vec<String>) -> (r: Result<regex::RegexSet, String>)
    ensures
        r is Ok <==> regex_compile_ok(patterns.deep_view()),
        r matches Ok(rs) ==> regex_set_patterns(rs) == patterns.deep_view(),
{
    match regex::RegexSet::new(patterns) {
        Ok(rs) => Ok(rs),
        Err(e) => Err(format!("{}", e)),
    }
}

/// Relies on regex::RegexSet::is_match: whether any pattern of the set
/// matches the text, a function of the patterns and the text alone.
#[verifier::external_body]
fn regex_set_is_match(rs: &regex::RegexSet, text: &str) -> (b: bool)
    ensures
        b == regex_set_match(regex_set_patterns(*rs), text@),
{
    rs.is_match(text)
}

/// One of the two visibility pattern sets: absent when the run gave no
/// patterns of its kind, else a compiled matcher.
pub struct PatternSet {
    pub set: Option<regex::RegexSet>,
}

impl PatternSet {
    /// Whether some pattern of this set matches the text. An absent set
    /// matches nothing.
    pub open spec fn spec_matches(self, text: Seq<char>) -> bool {
        match self.set {
            Option::None => false,
            Option::Some(rs) => regex_set_match(regex_set_patterns(rs), text),
        }
    }

    /// Whether this set was built from the given pattern strings; an absent
    /// set stands for no patterns at all.
    pub open spec fn built_from(self, patterns: Option<Seq<Seq<char>>>) -> bool {
        match self.set {
            Option::None => patterns is None,
            Option::Some(rs) => patterns == Option::Some(regex_set_patterns(rs)),
        }
    }

    /// The empty set, used when a run gives no patterns of this kind.
    pub fn none() -> (r: PatternSet)
        ensures
            r.built_from(None),
            forall|text: Seq<char>| !r.spec_matches(text),
    {
        PatternSet { set: None }
    }

    /// Compile the given pattern strings into one set; fails exactly when
    /// they do not compile, with a pattern error.
    pub fn compile(patterns: &Vec<String>) -> (r: Result<PatternSet, Error>)
        ensures
            r is Ok <==> regex_compile_ok(patterns.deep_view()),
            r matches Ok(ps) ==> ps.built_from(Some(patterns.deep_view())),
            r matches Err(e) ==> e.is_pattern_error(),
    {
        match compile_regex_set(patterns) {
            Ok(rs) => Ok(PatternSet { set: Some(rs) }),
            Err(m) => Err(Error::Regex(m)),
        }
    }

    /// Test the union query: does any pattern of this set match the name?
    pub fn matches(&self, text: &str) -> (b: bool)
        ensures
            b == self.spec_matches(text@),
    {
        match &self.set {
            Option::None => false,
            Option::Some(rs) => regex_set_is_match(rs, text),
        }
    }
}

} // verus!
