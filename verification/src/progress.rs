//! Progress parser: best-effort extraction of percentage, transfer speed and
//! ETA from the extractor's loosely formatted progress lines.
//!
//! Three independent matchers are applied to each line; a line may match any
//! subset of them. Parsing is total: a line with no recognizable pattern
//! yields a default value, and raw bytes are decoded lossily first, so no
//! input fails.

use vstd::prelude::*;
use crate::text::{
    is_ws_char, is_digit_char, ws_end, digits_end, nonws_end, match_at, contains_sub, is_ws,
    is_digit, skip_ws, skip_digits, skip_nonws, str_match_at, str_contains,
};
use crate::decode::{lossy_utf8, decode_lossy};

verus! {

/// State of one download as reported by a progress event.
#[derive(Debug, Clone, PartialEq, Eq)]
pub enum DownloadStatus {
    Downloading,
    Completed,
    Error,
}

/// One parsed progress line. A new value is built per line; emissions are
/// independent of each other.
///
/// `percentage` holds the matched decimal token (for example `42.5`), `100`
/// on a completed line and `0` when no percentage was found; the texts of
/// `speed` and `eta` are kept raw, as matched.
#[derive(Debug, Clone, PartialEq, Eq)]
pub struct DownloadProgress {
    pub percentage: String,
    pub speed: Option<String>,
    pub eta: Option<String>,
    pub status: DownloadStatus,
}

/// A percentage match at `i`: the progress marker, whitespace, then a
/// decimal number (digits, an optional dot, digits) directly followed by a
/// percent sign. Yields the number's span.
pub open spec fn pct_at(s: Seq<char>, i: int) -> Option<(int, int)> {
    if !match_at(s, i, "[download]"@) {
        None
    } else {
        let w = i + "[download]"@.len();
        if !(w < s.len() && is_ws_char(s[w])) {
            None
        } else {
            let k = ws_end(s, w);
            if !(k < s.len() && is_digit_char(s[k])) {
                None
            } else {
                let d = digits_end(s, k);
                let e = if d < s.len() && s[d] == '.' {
                    digits_end(s, d + 1)
                } else {
                    d
                };
                if e < s.len() && s[e] == '%' {
                    Some((k, e))
                } else {
                    None
                }
            }
        }
    }
}

/// The largest `k` in `[lo, hi]` with `/s` at `k`, if any.
pub open spec fn last_slash_s(s: Seq<char>, lo: int, hi: int) -> Option<int>
    decreases hi + 1 - lo,
{
    if hi < lo {
        None
    } else if 0 <= hi && hi + 1 < s.len() && s[hi] == '/' && s[hi + 1] == 's' {
        Some(hi)
    } else {
        last_slash_s(s, lo, hi - 1)
    }
}

/// A speed match at `i`: the literal `at`, whitespace, then a non-whitespace
/// token that ends in `/s`. The token keeps its longest prefix ending in
/// `/s`, as a greedy matcher would. Yields the token's span.
pub open spec fn speed_at(s: Seq<char>, i: int) -> Option<(int, int)> {
    if !match_at(s, i, "at"@) {
        None
    } else {
        let w = i + "at"@.len();
        if !(w < s.len() && is_ws_char(s[w])) {
            None
        } else {
            let t = ws_end(s, w);
            if t >= s.len() {
                None
            } else {
                let e = nonws_end(s, t);
                match last_slash_s(s, t + 1, e - 2) {
                    Some(k) => Some((t, k + 2)),
                    None => None,
                }
            }
        }
    }
}

/// An ETA match at `i`: the literal `ETA`, whitespace, then digits, a colon
/// and digits. Yields the span of the `digits:digits` token.
pub open spec fn eta_at(s: Seq<char>, i: int) -> Option<(int, int)> {
    if !match_at(s, i, "ETA"@) {
        None
    } else {
        let w = i + "ETA"@.len();
        if !(w < s.len() && is_ws_char(s[w])) {
            None
        } else {
            let t = ws_end(s, w);
            if !(t < s.len() && is_digit_char(s[t])) {
                None
            } else {
                let d = digits_end(s, t);
                if !(d + 1 < s.len() && s[d] == ':' && is_digit_char(s[d + 1])) {
                    None
                } else {
                    Some((t, digits_end(s, d + 1)))
                }
            }
        }
    }
}

pub open spec fn pct_first_from(s: Seq<char>, i: int) -> Option<(int, int)>
    decreases s.len() - i,
{
    if i < 0 || i > s.len() {
        None
    } else if pct_at(s, i) is Some {
        pct_at(s, i)
    } else if i == s.len() {
        None
    } else {
        pct_first_from(s, i + 1)
    }
}

pub open spec fn speed_first_from(s: Seq<char>, i: int) -> Option<(int, int)>
    decreases s.len() - i,
{
    if i < 0 || i > s.len() {
        None
    } else if speed_at(s, i) is Some {
        speed_at(s, i)
    } else if i == s.len() {
        None
    } else {
        speed_first_from(s, i + 1)
    }
}

pub open spec fn eta_first_from(s: Seq<char>, i: int) -> Option<(int, int)>
    decreases s.len() - i,
{
    if i < 0 || i > s.len() {
        None
    } else if eta_at(s, i) is Some {
        eta_at(s, i)
    } else if i == s.len() {
        None
    } else {
        eta_first_from(s, i + 1)
    }
}

/// Span of the first percentage match in the line, if any.
pub open spec fn spec_percent_span(s: Seq<char>) -> Option<(int, int)> {
    pct_first_from(s, 0)
}

/// Span of the first speed match in the line, if any.
pub open spec fn spec_speed_span(s: Seq<char>) -> Option<(int, int)> {
    speed_first_from(s, 0)
}

/// Span of the first ETA match in the line, if any.
pub open spec fn spec_eta_span(s: Seq<char>) -> Option<(int, int)> {
    eta_first_from(s, 0)
}

/// The line carries the exact completion marker.
pub open spec fn completion_marked(s: Seq<char>) -> bool {
    contains_sub(s, "[download] 100%"@)
}

/// The percentage token of a line: forced to `100` on a completed line,
/// the matched token otherwise, `0` when nothing matched.
pub open spec fn spec_percentage_text(s: Seq<char>) -> Seq<char> {
    if completion_marked(s) {
        "100"@
    } else {
        match spec_percent_span(s) {
            Some(p) => s.subrange(p.0, p.1),
            None => "0"@,
        }
    }
}

pub open spec fn spec_speed_text(s: Seq<char>) -> Option<Seq<char>> {
    match spec_speed_span(s) {
        Some(p) => Some(s.subrange(p.0, p.1)),
        None => None,
    }
}

pub open spec fn spec_eta_text(s: Seq<char>) -> Option<Seq<char>> {
    match spec_eta_span(s) {
        Some(p) => Some(s.subrange(p.0, p.1)),
        None => None,
    }
}

/// What `parse_line` yields for the text `s`: the three extractions applied
/// independently, and the status forced to completed exactly on a line with
/// the completion marker.
pub open spec fn progress_for(s: Seq<char>, p: DownloadProgress) -> bool {
    &&& p.percentage@ == spec_percentage_text(s)
    &&& match p.speed {
        Some(v) => spec_speed_text(s) == Some(v@),
        None => spec_speed_text(s) is None,
    }
    &&& match p.eta {
        Some(v) => spec_eta_text(s) == Some(v@),
        None => spec_eta_text(s) is None,
    }
    &&& p.status == (if completion_marked(s) {
        DownloadStatus::Completed
    } else {
        DownloadStatus::Downloading
    })
}

fn pct_at_exec(text: &str, i: usize, n: usize) -> (r: Option<(usize, usize)>)
    requires
        n == text@.len(),
        i <= n,
    ensures
        match r {
            Some(p) => pct_at(text@, i as int) == Some((p.0 as int, p.1 as int)) && p.0 <= p.1 < n,
            None => pct_at(text@, i as int) is None,
        },
{
    proof {
        reveal_strlit("[download]");
    }
    if !str_match_at(text, i, n, "[download]", 10) {
        return None;
    }
    let w = i + 10;
    if w >= n {
        return None;
    }
    if !is_ws(text.get_char(w)) {
        return None;
    }
    let k = skip_ws(text, w, n);
    if k >= n {
        return None;
    }
    if !is_digit(text.get_char(k)) {
        return None;
    }
    let d = skip_digits(text, k, n);
    let e = if d < n && text.get_char(d) == '.' {
        skip_digits(text, d + 1, n)
    } else {
        d
    };
    if e < n && text.get_char(e) == '%' {
        Some((k, e))
    } else {
        None
    }
}

fn find_slash_s(text: &str, lo: usize, hi: usize, n: usize) -> (r: Option<usize>)
    requires
        n == text@.len(),
        1 <= lo <= hi,
        hi + 1 < n,
    ensures
        match r {
            Some(k) => last_slash_s(text@, lo as int, hi as int) == Some(k as int) && lo <= k
                <= hi,
            None => last_slash_s(text@, lo as int, hi as int) is None,
        },
{
    let mut j = hi;
    loop
        invariant
            lo <= j <= hi,
            hi + 1 < n,
            n == text@.len(),
            last_slash_s(text@, lo as int, hi as int) == last_slash_s(text@, lo as int, j as int),
        decreases j,
    {
        if text.get_char(j) == '/' && text.get_char(j + 1) == 's' {
            return Some(j);
        }
        if j == lo {
            proof {
                assert(last_slash_s(text@, lo as int, lo - 1) is None);
            }
            return None;
        }
        j = j - 1;
    }
}

fn speed_at_exec(text: &str, i: usize, n: usize) -> (r: Option<(usize, usize)>)
    requires
        n == text@.len(),
        i <= n,
    ensures
        match r {
            Some(p) => speed_at(text@, i as int) == Some((p.0 as int, p.1 as int)) && p.0 <= p.1
                <= n,
            None => speed_at(text@, i as int) is None,
        },
{
    proof {
        reveal_strlit("at");
    }
    if !str_match_at(text, i, n, "at", 2) {
        return None;
    }
    let w = i + 2;
    if w >= n {
        return None;
    }
    if !is_ws(text.get_char(w)) {
        return None;
    }
    let t = skip_ws(text, w, n);
    if t >= n {
        return None;
    }
    let e = skip_nonws(text, t, n);
    if e - t < 3 {
        return None;
    }
    match find_slash_s(text, t + 1, e - 2, n) {
        Some(k) => Some((t, k + 2)),
        None => None,
    }
}

fn eta_at_exec(text: &str, i: usize, n: usize) -> (r: Option<(usize, usize)>)
    requires
        n == text@.len(),
        i <= n,
    ensures
        match r {
            Some(p) => eta_at(text@, i as int) == Some((p.0 as int, p.1 as int)) && p.0 <= p.1
                <= n,
            None => eta_at(text@, i as int) is None,
        },
{
    proof {
        reveal_strlit("ETA");
    }
    if !str_match_at(text, i, n, "ETA", 3) {
        return None;
    }
    let w = i + 3;
    if w >= n {
        return None;
    }
    if !is_ws(text.get_char(w)) {
        return None;
    }
    let t = skip_ws(text, w, n);
    if t >= n {
        return None;
    }
    if !is_digit(text.get_char(t)) {
        return None;
    }
    let d = skip_digits(text, t, n);
    if d < n && text.get_char(d) == ':' && d + 1 < n && is_digit(text.get_char(d + 1)) {
        Some((t, skip_digits(text, d + 1, n)))
    } else {
        None
    }
}

fn find_percent_span(text: &str, n: usize) -> (r: Option<(usize, usize)>)
    requires
        n == text@.len(),
    ensures
        match r {
            Some(p) => spec_percent_span(text@) == Some((p.0 as int, p.1 as int)) && p.0 <= p.1
                < n,
            None => spec_percent_span(text@) is None,
        },
{
    let mut i: usize = 0;
    loop
        invariant
            0 <= i <= n,
            n == text@.len(),
            pct_first_from(text@, 0) == pct_first_from(text@, i as int),
        decreases n - i,
    {
        let r = pct_at_exec(text, i, n);
        if r.is_some() {
            return r;
        }
        if i == n {
            return None;
        }
        i = i + 1;
    }
}

fn find_speed_span(text: &str, n: usize) -> (r: Option<(usize, usize)>)
    requires
        n == text@.len(),
    ensures
        match r {
            Some(p) => spec_speed_span(text@) == Some((p.0 as int, p.1 as int)) && p.0 <= p.1
                <= n,
            None => spec_speed_span(text@) is None,
        },
{
    let mut i: usize = 0;
    loop
        invariant
            0 <= i <= n,
            n == text@.len(),
            speed_first_from(text@, 0) == speed_first_from(text@, i as int),
        decreases n - i,
    {
        let r = speed_at_exec(text, i, n);
        if r.is_some() {
            return r;
        }
        if i == n {
            return None;
        }
        i = i + 1;
    }
}

fn find_eta_span(text: &str, n: usize) -> (r: Option<(usize, usize)>)
    requires
        n == text@.len(),
    ensures
        match r {
            Some(p) => spec_eta_span(text@) == Some((p.0 as int, p.1 as int)) && p.0 <= p.1 <= n,
            None => spec_eta_span(text@) is None,
        },
{
    let mut i: usize = 0;
    loop
        invariant
            0 <= i <= n,
            n == text@.len(),
            eta_first_from(text@, 0) == eta_first_from(text@, i as int),
        decreases n - i,
    {
        let r = eta_at_exec(text, i, n);
        if r.is_some() {
            return r;
        }
        if i == n {
            return None;
        }
        i = i + 1;
    }
}

/// Parses one progress line. Total: every text yields a value; a line with
/// no recognizable pattern yields the default (percentage `0`, no speed, no
/// ETA, still downloading).
pub fn parse_line(text: &str) -> (p: DownloadProgress)
    ensures
        progress_for(text@, p),
{
    let n = text.unicode_len();
    proof {
        reveal_strlit("[download] 100%");
    }
    let done = str_contains(text, n, "[download] 100%", 15);
    let percentage: String = if done {
        String::from_str("100")
    } else {
        match find_percent_span(text, n) {
            Some(sp) => text.substring_char(sp.0, sp.1).to_owned(),
            None => String::from_str("0"),
        }
    };
    let speed: Option<String> = match find_speed_span(text, n) {
        Some(sp) => Some(text.substring_char(sp.0, sp.1).to_owned()),
        None => None,
    };
    let eta: Option<String> = match find_eta_span(text, n) {
        Some(sp) => Some(text.substring_char(sp.0, sp.1).to_owned()),
        None => None,
    };
    let status = if done {
        DownloadStatus::Completed
    } else {
        DownloadStatus::Downloading
    };
    DownloadProgress { percentage, speed, eta, status }
}

/// Every parsed line is well formed: its status is downloading or
/// completed — the parser never reports the error state — and completed
/// comes with the percentage forced to `100`.
pub proof fn lemma_parse_line_wf(s: Seq<char>, p: DownloadProgress)
    requires
        progress_for(s, p),
    ensures
        !(p.status is Error),
        p.status is Completed ==> p.percentage@ == "100"@,
{
}

/// Parses one raw output line: lossy UTF-8 decoding, then `parse_line`.
/// Total for arbitrary bytes.
pub fn parse_line_bytes(line: &[u8]) -> (p: DownloadProgress)
    ensures
        progress_for(lossy_utf8(line@), p),
{
    let text = decode_lossy(line);
    parse_line(text.as_str())
}

} // verus!
