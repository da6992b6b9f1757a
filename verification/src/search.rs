//! The search engine: filters the lines of a text by a regex pattern.

use vstd::prelude::*;

use crate::config::Config;
use crate::lines::{split_lines, split_lines_exec};
use crate::pattern::{pattern_matches, pattern_ok, regex_is_match, regex_new, regex_pattern};

verus! {

/// Failure of a search operation.
#[derive(Clone, Copy, Debug, PartialEq, Eq, Structural)]
pub enum SearchError {
    /// The query does not parse as a valid regex pattern.
    InvalidPattern,
}

impl SearchError {
    /// A human-readable description of the error.
    pub fn message(&self) -> (r: &'static str)
        ensures
            r@ == "invalid regex pattern"@,
    {
        match self {
            SearchError::InvalidPattern => "invalid regex pattern",
        }
    }
}

/// The predicate "the pattern `p` finds a match in this line".
pub open spec fn line_pred(p: Seq<char>) -> spec_fn(Seq<char>) -> bool {
    |l: Seq<char>| pattern_matches(p, l)
}

/// The lines of `contents` in which the pattern `p` finds a match, in
/// original order.
pub open spec fn search_matches(p: Seq<char>, contents: Seq<char>) -> Seq<Seq<char>> {
    split_lines(contents).filter(line_pred(p))
}

/// The case-insensitive form of a pattern: the inline modifier `(?i)`
/// applied to the whole of it.
pub open spec fn ci_pattern(p: Seq<char>) -> Seq<char> {
    "(?i)"@ + p
}

/// Keeps, in order, the lines in which the compiled regex finds a match.
fn filter_lines<'a>(re: &regex::Regex, lines: Vec<&'a str>) -> (r: Vec<&'a str>)
    ensures
        r.deep_view() == lines.deep_view().filter(line_pred(regex_pattern(*re))),
{
    let mut r: Vec<&'a str> = Vec::new();
    let mut i: usize = 0;
    proof {
        reveal_with_fuel(Seq::filter, 2);
        assert(lines.deep_view().subrange(0, 0) =~= Seq::<Seq<char>>::empty());
        assert(r.deep_view() =~= Seq::<Seq<char>>::empty());
    }
    while i < lines.len()
        invariant
            i <= lines.len(),
            r.deep_view() == lines.deep_view().subrange(0, i as int).filter(
                line_pred(regex_pattern(*re)),
            ),
        decreases lines.len() - i,
    {
        let line = lines[i];
        let ghost old_r = r.deep_view();
        let matched = regex_is_match(re, line);
        if matched {
            r.push(line);
        }
        proof {
            let p = line_pred(regex_pattern(*re));
            let pre = lines.deep_view().subrange(0, i as int);
            let one = seq![line@];
            assert(lines.deep_view().subrange(0, i + 1) =~= pre + one);
            Seq::filter_distributes_over_add(pre, one, p);
            reveal_with_fuel(Seq::filter, 2);
            assert(one.drop_last() =~= Seq::<Seq<char>>::empty());
            assert(one.filter(p) == if p(line@) {
                seq![line@]
            } else {
                Seq::<Seq<char>>::empty()
            });
            if matched {
                assert(r.deep_view() =~= old_r.push(line@));
                assert(r.deep_view() =~= pre.filter(p) + one.filter(p));
            } else {
                assert(r.deep_view() =~= pre.filter(p) + one.filter(p));
            }
        }
        i = i + 1;
    }
    proof {
        assert(lines.deep_view().subrange(0, lines.len() as int) =~= lines.deep_view());
    }
    r
}

/// Compiles the (valid) pattern and filters the lines of `contents`
/// by it.
fn search_with_pattern<'a>(pattern: &str, contents: &'a str) -> (r: Vec<&'a str>)
    requires
        pattern_ok(pattern@),
    ensures
        r.deep_view() == search_matches(pattern@, contents@),
{
    let re = regex_new(pattern).unwrap();
    let lines = split_lines_exec(contents);
    filter_lines(&re, lines)
}

/// Returns, in original order, every line of `contents` in which the
/// pattern `query` finds a match.  The query must be a valid pattern;
/// `try_search` is the checked form.
pub fn search<'a>(query: &str, contents: &'a str) -> (r: Vec<&'a str>)
    requires
        pattern_ok(query@),
    ensures
        r.deep_view() == search_matches(query@, contents@),
{
    search_with_pattern(query, contents)
}

/// As `search`, but the pattern is applied case-insensitively, by the
/// inline modifier `(?i)` prefixed to the whole of it.  The prefixed
/// query must be a valid pattern; `try_search_case_insensitive` is the
/// checked form.
pub fn search_case_insensitive<'a>(query: &str, contents: &'a str) -> (r: Vec<&'a str>)
    requires
        pattern_ok(ci_pattern(query@)),
    ensures
        r.deep_view() == search_matches(ci_pattern(query@), contents@),
{
    let p = String::from_str("(?i)").concat(query);
    search_with_pattern(p.as_str(), contents)
}

/// Returns, in original order, every line of `contents` in which the
/// pattern `query` finds a match, or `InvalidPattern` if `query` does
/// not compile.  No matching line is an empty result, not an error.
pub fn try_search<'a>(query: &str, contents: &'a str) -> (r: Result<Vec<&'a str>, SearchError>)
    ensures
        r is Ok <==> pattern_ok(query@),
        r is Ok ==> r->Ok_0.deep_view() == search_matches(query@, contents@),
        r is Err ==> r == Err::<Vec<&'a str>, SearchError>(SearchError::InvalidPattern),
{
    match regex_new(query) {
        Some(_) => Ok(search(query, contents)),
        None => Err(SearchError::InvalidPattern),
    }
}

/// As `try_search`, but case-insensitively, as `search_case_insensitive`
/// has it.
pub fn try_search_case_insensitive<'a>(query: &str, contents: &'a str) -> (r: Result<
    Vec<&'a str>,
    SearchError,
>)
    ensures
        r is Ok <==> pattern_ok(ci_pattern(query@)),
        r is Ok ==> r->Ok_0.deep_view() == search_matches(ci_pattern(query@), contents@),
        r is Err ==> r == Err::<Vec<&'a str>, SearchError>(SearchError::InvalidPattern),
{
    let p = String::from_str("(?i)").concat(query);
    match regex_new(p.as_str()) {
        Some(_) => Ok(search_case_insensitive(query, contents)),
        None => Err(SearchError::InvalidPattern),
    }
}

/// The pattern the configuration asks to apply: the query itself, or
/// its case-insensitive form when `ignore_case` is set.
pub open spec fn effective_pattern(query: Seq<char>, ignore_case: bool) -> Seq<char> {
    if ignore_case {
        ci_pattern(query)
    } else {
        query
    }
}

/// One full invocation over already-loaded contents: searches with the
/// configured query, case-insensitively when the configuration says so.
/// The caller reads the file at `config.file_path` into `contents` and
/// writes the returned lines to standard output, in order.
pub fn run<'a>(config: &Config, contents: &'a str) -> (r: Result<Vec<&'a str>, SearchError>)
    ensures
        r is Ok <==> pattern_ok(effective_pattern(config.query@, config.ignore_case)),
        r is Ok ==> r->Ok_0.deep_view() == search_matches(
            effective_pattern(config.query@, config.ignore_case),
            contents@,
        ),
        r is Err ==> r == Err::<Vec<&'a str>, SearchError>(SearchError::InvalidPattern),
{
    if config.ignore_case {
        try_search_case_insensitive(config.query.as_str(), contents)
    } else {
        try_search(config.query.as_str(), contents)
    }
}

proof fn lemma_filter_members(s: Seq<Seq<char>>, pred: spec_fn(Seq<char>) -> bool)
    ensures
        forall|i: int|
            0 <= i < s.filter(pred).len() ==> s.contains(#[trigger] s.filter(pred)[i]),
    decreases s.len(),
{
    reveal(Seq::filter);
    if s.len() > 0 {
        let sub = s.drop_last();
        lemma_filter_members(sub, pred);
        assert forall|i: int|
            0 <= i < s.filter(pred).len() implies s.contains(#[trigger] s.filter(pred)[i]) by {
            let x = s.filter(pred)[i];
            if i < sub.filter(pred).len() {
                assert(sub.contains(x));
                let j = choose|j: int| 0 <= j < sub.len() && sub[j] == x;
                assert(s[j] == x);
            } else {
                assert(x == s.last());
                assert(s[s.len() - 1] == x);
            }
        }
    }
}

proof fn lemma_filter_all_false(s: Seq<Seq<char>>, pred: spec_fn(Seq<char>) -> bool)
    requires
        forall|i: int| 0 <= i < s.len() ==> !pred(#[trigger] s[i]),
    ensures
        s.filter(pred) == Seq::<Seq<char>>::empty(),
    decreases s.len(),
{
    reveal(Seq::filter);
    if s.len() > 0 {
        assert(!pred(s[s.len() - 1]));
        lemma_filter_all_false(s.drop_last(), pred);
    }
}

/// Law: the result of a search contains exactly the matching lines of
/// the contents — every returned line is a line of the contents in
/// which the pattern matches, every line in which the pattern matches
/// is returned, and no lines are invented.  (That the returned lines
/// keep their original order is the `search_matches` equation itself,
/// stated in the `ensures` of `search`.)
pub proof fn lemma_search_exact(q: Seq<char>, contents: Seq<char>)
    ensures
        forall|i: int|
            0 <= i < search_matches(q, contents).len() ==> pattern_matches(
                q,
                #[trigger] search_matches(q, contents)[i],
            ),
        forall|i: int|
            0 <= i < search_matches(q, contents).len() ==> split_lines(contents).contains(
                #[trigger] search_matches(q, contents)[i],
            ),
        forall|i: int|
            0 <= i < split_lines(contents).len() && pattern_matches(
                q,
                #[trigger] split_lines(contents)[i],
            ) ==> search_matches(q, contents).contains(split_lines(contents)[i]),
        search_matches(q, contents).len() <= split_lines(contents).len(),
{
    broadcast use vstd::seq_lib::group_filter_ensures;

    let p = line_pred(q);
    let lines = split_lines(contents);
    lemma_filter_members(lines, p);
    assert forall|i: int|
        0 <= i < lines.len() && pattern_matches(q, #[trigger] lines[i]) implies search_matches(
        q,
        contents,
    ).contains(lines[i]) by {
        assert(p(lines[i]));
    }
}

/// Law: a search is a pure function of its inputs — two searches on the
/// same query and the same contents return the same lines.
pub proof fn lemma_search_deterministic(
    q: Seq<char>,
    contents: Seq<char>,
    r1: Seq<Seq<char>>,
    r2: Seq<Seq<char>>,
)
    requires
        r1 == search_matches(q, contents),
        r2 == search_matches(q, contents),
    ensures
        r1 == r2,
{
}

/// Law: empty contents yield an empty result, for any query.
pub proof fn lemma_search_empty_contents(q: Seq<char>)
    ensures
        search_matches(q, Seq::empty()) == Seq::<Seq<char>>::empty(),
{
    lemma_filter_all_false(split_lines(Seq::empty()), line_pred(q));
}

/// Law: contents in which no line matches yield an empty result, not
/// an error.
pub proof fn lemma_search_no_match(q: Seq<char>, contents: Seq<char>)
    requires
        forall|i: int|
            0 <= i < split_lines(contents).len() ==> !pattern_matches(
                q,
                #[trigger] split_lines(contents)[i],
            ),
    ensures
        search_matches(q, contents) == Seq::<Seq<char>>::empty(),
{
    lemma_filter_all_false(split_lines(contents), line_pred(q));
}

} // verus!
