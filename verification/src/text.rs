//! Character classes and substring matching over `&str`, shared by the
//! progress parser and the directive resolver.

use vstd::prelude::*;

verus! {

/// ASCII whitespace, the separator class of the extractor's progress lines.
pub open spec fn is_ws_char(c: char) -> bool {
    c == ' ' || c == '\t' || c == '\n' || c == '\r' || c == '\u{c}'
}

pub open spec fn is_digit_char(c: char) -> bool {
    '0' <= c && c <= '9'
}

/// First index at or after `i` whose character is not ASCII whitespace
/// (or the end of the text).
pub open spec fn ws_end(s: Seq<char>, i: int) -> int
    decreases s.len() - i,
{
    if i < 0 || i >= s.len() {
        i
    } else if is_ws_char(s[i]) {
        ws_end(s, i + 1)
    } else {
        i
    }
}

/// First index at or after `i` whose character is not a decimal digit.
pub open spec fn digits_end(s: Seq<char>, i: int) -> int
    decreases s.len() - i,
{
    if i < 0 || i >= s.len() {
        i
    } else if is_digit_char(s[i]) {
        digits_end(s, i + 1)
    } else {
        i
    }
}

/// First index at or after `i` whose character is ASCII whitespace
/// (or the end of the text).
pub open spec fn nonws_end(s: Seq<char>, i: int) -> int
    decreases s.len() - i,
{
    if i < 0 || i >= s.len() {
        i
    } else if !is_ws_char(s[i]) {
        nonws_end(s, i + 1)
    } else {
        i
    }
}

/// The pattern `pat` occurs in `s` starting at index `i`.
pub open spec fn match_at(s: Seq<char>, i: int, pat: Seq<char>) -> bool {
    0 <= i && i + pat.len() <= s.len() && s.subrange(i, i + pat.len()) == pat
}

/// The pattern `pat` occurs somewhere in `s`.
pub open spec fn contains_sub(s: Seq<char>, pat: Seq<char>) -> bool {
    exists|i: int| match_at(s, i, pat)
}

pub fn is_ws(c: char) -> (r: bool)
    ensures
        r == is_ws_char(c),
{
    c == ' ' || c == '\t' || c == '\n' || c == '\r' || c == '\u{c}'
}

pub fn is_digit(c: char) -> (r: bool)
    ensures
        r == is_digit_char(c),
{
    '0' <= c && c <= '9'
}

pub fn skip_ws(s: &str, from: usize, n: usize) -> (r: usize)
    requires
        n == s@.len(),
        from <= n,
    ensures
        from <= r <= n,
        r == ws_end(s@, from as int),
{
    let mut i = from;
    while i < n && is_ws(s.get_char(i))
        invariant
            from <= i <= n,
            n == s@.len(),
            ws_end(s@, from as int) == ws_end(s@, i as int),
        decreases n - i,
    {
        i = i + 1;
    }
    proof {
        assert(ws_end(s@, i as int) == i);
    }
    i
}

pub fn skip_digits(s: &str, from: usize, n: usize) -> (r: usize)
    requires
        n == s@.len(),
        from <= n,
    ensures
        from <= r <= n,
        r == digits_end(s@, from as int),
{
    let mut i = from;
    while i < n && is_digit(s.get_char(i))
        invariant
            from <= i <= n,
            n == s@.len(),
            digits_end(s@, from as int) == digits_end(s@, i as int),
        decreases n - i,
    {
        i = i + 1;
    }
    proof {
        assert(digits_end(s@, i as int) == i);
    }
    i
}

pub fn skip_nonws(s: &str, from: usize, n: usize) -> (r: usize)
    requires
        n == s@.len(),
        from <= n,
    ensures
        from <= r <= n,
        r == nonws_end(s@, from as int),
{
    let mut i = from;
    while i < n && !is_ws(s.get_char(i))
        invariant
            from <= i <= n,
            n == s@.len(),
            nonws_end(s@, from as int) == nonws_end(s@, i as int),
        decreases n - i,
    {
        i = i + 1;
    }
    proof {
        assert(nonws_end(s@, i as int) == i);
    }
    i
}

/// Does `pat` occur in `s` starting at index `i`?
pub fn str_match_at(s: &str, i: usize, n: usize, pat: &str, m: usize) -> (r: bool)
    requires
        n == s@.len(),
        m == pat@.len(),
        i <= n,
    ensures
        r == match_at(s@, i as int, pat@),
{
    if m > n - i {
        return false;
    }
    let mut j: usize = 0;
    while j < m
        invariant
            0 <= j <= m,
            i + m <= n,
            n == s@.len(),
            m == pat@.len(),
            forall|t: int| 0 <= t < j ==> s@[i + t] == pat@[t],
        decreases m - j,
    {
        if s.get_char(i + j) != pat.get_char(j) {
            proof {
                assert(s@.subrange(i as int, i + m) =~= pat@ ==> s@[i + j] == pat@[j as int]);
            }
            return false;
        }
        j = j + 1;
    }
    proof {
        assert(s@.subrange(i as int, i + m) =~= pat@);
    }
    true
}

/// Do the two strings hold the same characters?
pub fn str_eq(a: &str, b: &str) -> (r: bool)
    ensures
        r == (a@ == b@),
{
    let n = a.unicode_len();
    let m = b.unicode_len();
    if n != m {
        proof {
            assert(a@ != b@) by {
                assert(a@.len() != b@.len());
            }
        }
        return false;
    }
    let r = str_match_at(a, 0, n, b, m);
    proof {
        assert(a@.subrange(0, m as int) =~= a@);
    }
    r
}

/// Does `pat` occur anywhere in `s`?
pub fn str_contains(s: &str, n: usize, pat: &str, m: usize) -> (r: bool)
    requires
        n == s@.len(),
        m == pat@.len(),
    ensures
        r == contains_sub(s@, pat@),
{
    if m > n {
        proof {
            assert(forall|i: int| !match_at(s@, i, pat@));
        }
        return false;
    }
    if m == 0 {
        proof {
            assert(s@.subrange(0, 0) =~= pat@);
            assert(match_at(s@, 0, pat@));
        }
        return true;
    }
    let mut i: usize = 0;
    while i <= n - m
        invariant
            0 <= i <= n - m + 1,
            1 <= m <= n,
            n == s@.len(),
            m == pat@.len(),
            forall|t: int| 0 <= t < i ==> !match_at(s@, t, pat@),
        decreases n - m + 1 - i,
    {
        if str_match_at(s, i, n, pat, m) {
            return true;
        }
        i = i + 1;
    }
    proof {
        assert(forall|t: int| t > n - m ==> !match_at(s@, t, pat@));
    }
    false
}

} // verus!
