//! Trusted boundary to the `regex` crate.
//!
//! A compiled `regex::Regex` is opaque to the verifier; `regex_pattern`
//! names the pattern string it was compiled from, `pattern_ok` names
//! whether a pattern compiles, and `pattern_matches` names whether a
//! pattern finds a match in a line.  Matching is deterministic: it
//! depends on the pattern and the haystack alone.

use vstd::prelude::*;

verus! {

#[verifier::external_type_specification]
#[verifier::external_body]
pub struct ExRegex(regex::Regex);

/// Whether `regex::Regex::new` accepts `pattern` (valid syntax and
/// within the default size limit).
pub uninterp spec fn pattern_ok(pattern: Seq<char>) -> bool;

/// The pattern string a compiled `regex::Regex` was built from
/// (what `regex::Regex::as_str` returns).
pub uninterp spec fn regex_pattern(re: regex::Regex) -> Seq<char>;

/// Whether the regex compiled from `pattern` finds a match anywhere in
/// `line` (not anchored; a partial match suffices).
pub uninterp spec fn pattern_matches(pattern: Seq<char>, line: Seq<char>) -> bool;

/// Relies on `regex::Regex::new`: it returns `Ok` exactly when the
/// pattern is a valid regex within the default size limit, and the
/// compiled regex keeps the pattern string it was built from.
#[verifier::external_body]
pub(crate) fn regex_new(pattern: &str) -> (r: Option<regex::Regex>)
    ensures
        r is Some <==> pattern_ok(pattern@),
        r is Some ==> regex_pattern(r->0) == pattern@,
{
    regex::Regex::new(pattern).ok()
}

/// Relies on `regex::Regex::is_match`: true if and only if the regex
/// finds a match anywhere in `line`; the result depends on the compiled
/// pattern and on `line` alone.
#[verifier::external_body]
pub(crate) fn regex_is_match(re: &regex::Regex, line: &str) -> (r: bool)
    ensures
        r == pattern_matches(regex_pattern(*re), line@),
{
    re.is_match(line)
}

} // verus!
