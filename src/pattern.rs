//! Path patterns: sets of regular expressions compiled and searched by the
//! `regex` crate.
use crate::text::views;
use vstd::prelude::*;

verus! {

#[verifier::external_type_specification]
#[verifier::external_body]
pub struct ExRegexSet(regex::RegexSet);

#[verifier::external_type_specification]
#[verifier::external_body]
pub struct ExRegexError(regex::Error);

/// The expressions that a compiled set holds, in the order given to it.
pub uninterp spec fn set_patterns(set: regex::RegexSet) -> Seq<Seq<char>>;

/// Whether a list of expressions compiles into a set; this depends on the
/// expressions alone.
pub uninterp spec fn set_compiles(patterns: Seq<Seq<char>>) -> bool;

/// Whether one expression matches somewhere in a text. The search is not
/// anchored unless the expression itself says so.
pub uninterp spec fn pattern_finds(pattern: Seq<char>, text: Seq<char>) -> bool;

/// Whether any of the expressions matches somewhere in the text.
pub open spec fn any_pattern_finds(patterns: Seq<Seq<char>>, text: Seq<char>) -> bool {
    exists|i: int| 0 <= i < patterns.len() && pattern_finds(#[trigger] patterns[i], text)
}

/// Relies on regex::RegexSet::new: whether it succeeds depends on the
/// expressions alone (it fails on an invalid one), and the set it builds keeps
/// the expressions in the order given, as `RegexSet::patterns` reports them.
#[verifier::external_body]
fn build_set(patterns: &Vec<String>) -> (r: Result<regex::RegexSet, regex::Error>)
    ensures
        r is Ok <==> set_compiles(views(patterns@)),
        r matches Ok(set) ==> set_patterns(set) == views(patterns@),
{
    regex::RegexSet::new(patterns)
}

/// Relies on regex::RegexSet::is_match: true if and only if one of the set's
/// expressions matches somewhere in the haystack.
pub assume_specification[ regex::RegexSet::is_match ](set: &regex::RegexSet, haystack: &str) -> (r: bool)
    ensures
        r == (exists|i: int| 0 <= i < set_patterns(*set).len() && pattern_finds(set_patterns(*set)[i], haystack@)),
;

/// Compiles a list of expressions into a set; `None` when one of them is not
/// a valid expression.
pub fn compile(patterns: &Vec<String>) -> (r: Option<regex::RegexSet>)
    ensures
        r is Some <==> set_compiles(views(patterns@)),
        r matches Some(set) ==> set_patterns(set) == views(patterns@),
{
    match build_set(patterns) {
        Ok(set) => Some(set),
        Err(_) => None,
    }
}

} // verus!
