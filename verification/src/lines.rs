//! Newline-only line splitting.
//!
//! Contents are split on `'\n'` alone: a carriage return before a newline
//! stays in its line, and a trailing newline does not produce an extra
//! empty final line.

use vstd::prelude::*;

verus! {

/// Index of the first `'\n'` in `s`, or `s.len()` if there is none.
pub open spec fn first_newline(s: Seq<char>) -> nat
    decreases s.len(),
{
    if s.len() == 0 {
        0
    } else if s[0] == '\n' {
        0
    } else {
        1 + first_newline(s.drop_first())
    }
}

/// The lines of `s`, split on `'\n'` alone.  The newline characters
/// themselves belong to no line; a trailing newline yields no extra
/// empty final line; empty contents yield no lines.
pub open spec fn split_lines(s: Seq<char>) -> Seq<Seq<char>>
    decreases s.len(),
{
    if s.len() == 0 {
        Seq::empty()
    } else {
        let i = first_newline(s) as int;
        if i >= s.len() {
            seq![s]
        } else {
            seq![s.subrange(0, i)] + split_lines(s.subrange(i + 1, s.len() as int))
        }
    }
}

proof fn lemma_first_newline_found(s: Seq<char>, i: int)
    requires
        0 <= i < s.len(),
        s[i] == '\n',
        forall|j: int| 0 <= j < i ==> s[j] != '\n',
    ensures
        first_newline(s) == i,
    decreases i,
{
    if i > 0 {
        assert(s[0] != '\n');
        lemma_first_newline_found(s.drop_first(), i - 1);
    }
}

proof fn lemma_first_newline_none(s: Seq<char>)
    requires
        forall|j: int| 0 <= j < s.len() ==> s[j] != '\n',
    ensures
        first_newline(s) == s.len(),
    decreases s.len(),
{
    if s.len() > 0 {
        lemma_first_newline_none(s.drop_first());
    }
}

/// Splits `contents` into its lines, as non-owning views into `contents`.
pub fn split_lines_exec<'a>(contents: &'a str) -> (r: Vec<&'a str>)
    ensures
        r.deep_view() == split_lines(contents@),
{
    let n = contents.unicode_len();
    let mut r: Vec<&'a str> = Vec::new();
    let mut start: usize = 0;
    let mut i: usize = 0;
    proof {
        assert(contents@.subrange(0, n as int) =~= contents@);
        assert(r.deep_view() =~= Seq::<Seq<char>>::empty());
        assert(r.deep_view() + split_lines(contents@) =~= split_lines(contents@));
    }
    while i < n
        invariant
            start <= i <= n,
            n == contents@.len(),
            forall|j: int| start <= j < i ==> contents@[j] != '\n',
            r.deep_view() + split_lines(contents@.subrange(start as int, n as int))
                == split_lines(contents@),
        decreases n - i,
    {
        let c = contents.get_char(i);
        if c == '\n' {
            let line = contents.substring_char(start, i);
            let ghost old_r = r.deep_view();
            r.push(line);
            proof {
                let suf = contents@.subrange(start as int, n as int);
                assert(suf[i - start] == '\n');
                lemma_first_newline_found(suf, i - start);
                assert(suf.subrange(0, i - start) =~= contents@.subrange(
                    start as int,
                    i as int,
                ));
                assert(suf.subrange(i - start + 1, suf.len() as int) =~= contents@.subrange(
                    i + 1,
                    n as int,
                ));
                assert(r.deep_view() =~= old_r.push(line@));
                assert(r.deep_view() + split_lines(contents@.subrange(i + 1, n as int))
                    =~= (old_r + split_lines(contents@.subrange(start as int, n as int))));
            }
            start = i + 1;
        }
        i = i + 1;
    }
    if start < n {
        let line = contents.substring_char(start, n);
        let ghost old_r = r.deep_view();
        r.push(line);
        proof {
            let suf = contents@.subrange(start as int, n as int);
            lemma_first_newline_none(suf);
            assert(split_lines(suf) == seq![suf]);
            assert(r.deep_view() =~= old_r.push(line@));
            assert(r.deep_view() =~= old_r + split_lines(suf));
        }
    } else {
        proof {
            assert(contents@.subrange(start as int, n as int).len() == 0);
            assert(r.deep_view() + split_lines(contents@.subrange(start as int, n as int))
                =~= r.deep_view());
        }
    }
    r
}

} // verus!
