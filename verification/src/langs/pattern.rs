//! Sets of regular expressions, compiled and matched by the `regex` crate.

use vstd::prelude::*;
use super::lang_def::texts;

verus! {

/// A compiled set of regular expressions that searches byte strings.
#[verifier::external_type_specification]
#[verifier::external_body]
pub struct ExRegexSet(regex::bytes::RegexSet);

/// Why a set of regular expressions was not compiled.
#[verifier::external_type_specification]
#[verifier::external_body]
pub struct ExRegexError(regex::Error);

/// The patterns that a compiled set was made from, in their order.
pub uninterp spec fn set_patterns(set: regex::bytes::RegexSet) -> Seq<Seq<char>>;

/// Whether `regex::bytes::RegexSet::new` accepts these patterns.
pub uninterp spec fn patterns_compile(patterns: Seq<Seq<char>>) -> bool;

/// Whether a set compiled from `patterns` with the default options finds a
/// match of at least one of them in `haystack`.
pub uninterp spec fn any_pattern_matches(patterns: Seq<Seq<char>>, haystack: Seq<u8>) -> bool;

/// `regex::bytes::RegexSet::new` on `patterns`: whether the patterns compile
/// depends on the patterns alone, and the set that comes back was made from
/// exactly these patterns.
#[verifier::external_body]
pub(crate) fn compile_set(patterns: &Vec<&'static str>) -> (r: Result<
    regex::bytes::RegexSet,
    regex::Error,
>)
    ensures
        r is Ok <==> patterns_compile(texts(patterns@)),
        r matches Ok(set) ==> set_patterns(set) == texts(patterns@),
{
    regex::bytes::RegexSet::new(patterns.iter())
}

/// `regex::bytes::RegexSet::is_match`: whether one of the set's patterns
/// matches somewhere in `haystack` depends on the patterns and the haystack
/// alone.
#[verifier::external_body]
pub(crate) fn set_is_match(set: &regex::bytes::RegexSet, haystack: &[u8]) -> (r: bool)
    ensures
        r == any_pattern_matches(set_patterns(*set), haystack@),
{
    set.is_match(haystack)
}

/// Compiles `patterns`, or gives nothing where the `regex` crate refuses
/// them.
pub fn compile(patterns: &Vec<&'static str>) -> (r: Option<regex::bytes::RegexSet>)
    ensures
        r is Some <==> patterns_compile(texts(patterns@)),
        r matches Some(set) ==> set_patterns(set) == texts(patterns@),
{
    match compile_set(patterns) {
        Ok(set) => Some(set),
        Err(_) => None,
    }
}

} // verus!
