//! Format/output resolver: from the caller's format selector and the output
//! path's file extension, derive the extra directives handed to the extractor.
//!
//! The policy has three branches: a video container extension asks for a
//! container merge, an audio extension asks for audio extraction, anything
//! else passes through with no extra directives.

use vstd::prelude::*;
use crate::text::{contains_sub, str_contains, str_eq};

verus! {

pub open spec fn is_sep_char(c: char) -> bool {
    c == '/' || c == '\\'
}

/// Index of the first character of the path's final component: the position
/// right after the last separator in `p` before index `i`, or 0.
pub open spec fn file_name_start(p: Seq<char>, i: int) -> int
    decreases i,
{
    if i <= 0 {
        0
    } else if is_sep_char(p[i - 1]) {
        i
    } else {
        file_name_start(p, i - 1)
    }
}

/// Index of the last `.` in `p` before index `i`, or -1 if there is none.
pub open spec fn last_dot(p: Seq<char>, i: int) -> int
    decreases i,
{
    if i <= 0 {
        -1
    } else if p[i - 1] == '.' {
        i - 1
    } else {
        last_dot(p, i - 1)
    }
}

/// The extension of the path's final component: what follows its last `.`,
/// unless that dot is missing or is the component's first character.
pub open spec fn ext_of(p: Seq<char>) -> Option<Seq<char>> {
    let fs = file_name_start(p, p.len() as int);
    let d = last_dot(p, p.len() as int);
    if d > fs {
        Some(p.subrange(d + 1, p.len() as int))
    } else {
        None
    }
}

/// A selector indicates audio-only content when it names an
/// audio-indicating token and no video-indicating one: `bestaudio` does,
/// a combined `bestvideo+bestaudio` does not.
pub open spec fn spec_audio_only(sel: Seq<char>) -> bool {
    contains_sub(sel, "audio"@) && !contains_sub(sel, "video"@)
}

/// The views of the strings in `v`, in order.
pub open spec fn seq_views(v: Seq<String>) -> Seq<Seq<char>> {
    v.map_values(|s: String| s@)
}

/// The extra directives for one selector/output-path pair.
pub open spec fn spec_directives(sel: Seq<char>, path: Seq<char>) -> Seq<Seq<char>> {
    match ext_of(path) {
        Some(e) => {
            if (e == "mp4"@ || e == "mkv"@ || e == "webm"@) && !spec_audio_only(sel) {
                seq!["--merge-output-format"@, e]
            } else if e == "m4a"@ || e == "mp3"@ || e == "opus"@ {
                seq!["-x"@, "--audio-format"@, e]
            } else {
                Seq::empty()
            }
        },
        None => Seq::empty(),
    }
}

fn is_sep(c: char) -> (r: bool)
    ensures
        r == is_sep_char(c),
{
    c == '/' || c == '\\'
}

proof fn lemma_last_dot_bound(p: Seq<char>, i: int)
    requires
        i >= 0,
    ensures
        -1 <= last_dot(p, i) < i,
    decreases i,
{
    if i > 0 && p[i - 1] != '.' {
        lemma_last_dot_bound(p, i - 1);
    }
}

/// The extension of `path`'s final component, per `ext_of`.
pub fn extension_of(path: &str) -> (r: Option<String>)
    ensures
        match r {
            Some(e) => ext_of(path@) == Some(e@),
            None => ext_of(path@) is None,
        },
{
    let n = path.unicode_len();
    // scan backward for the last separator
    let mut i = n;
    while i > 0 && !is_sep(path.get_char(i - 1))
        invariant
            0 <= i <= n,
            n == path@.len(),
            file_name_start(path@, n as int) == file_name_start(path@, i as int),
        decreases i,
    {
        i = i - 1;
    }
    let fs = i;
    proof {
        assert(file_name_start(path@, fs as int) == fs as int);
    }
    // scan backward for the last dot, stopping at the final component's start
    let mut j = n;
    while j > fs && path.get_char(j - 1) != '.'
        invariant
            fs <= j <= n,
            n == path@.len(),
            last_dot(path@, n as int) == last_dot(path@, j as int),
        decreases j,
    {
        j = j - 1;
    }
    if j > fs {
        // dot at index j - 1, the last one in the whole path
        proof {
            assert(last_dot(path@, n as int) == j - 1);
        }
        if j - 1 > fs {
            Some(path.substring_char(j, n).to_owned())
        } else {
            None
        }
    } else {
        proof {
            lemma_last_dot_bound(path@, fs as int);
        }
        None
    }
}

/// The extra directives derived from the format selector and the output
/// path, exactly `spec_directives` of the two.
pub fn resolve_directives(format_selector: &str, output_path: &str) -> (r: Vec<String>)
    ensures
        seq_views(r@) == spec_directives(format_selector@, output_path@),
{
    let sel_len = format_selector.unicode_len();
    proof {
        reveal_strlit("audio");
        reveal_strlit("video");
    }
    let audio = str_contains(format_selector, sel_len, "audio", 5) && !str_contains(
        format_selector,
        sel_len,
        "video",
        5,
    );
    let mut r: Vec<String> = Vec::new();
    match extension_of(output_path) {
        Some(e) => {
            let es = e.as_str();
            if (str_eq(es, "mp4") || str_eq(es, "mkv") || str_eq(es, "webm")) && !audio {
                r.push(String::from_str("--merge-output-format"));
                r.push(e);
            } else if str_eq(es, "m4a") || str_eq(es, "mp3") || str_eq(es, "opus") {
                r.push(String::from_str("-x"));
                r.push(String::from_str("--audio-format"));
                r.push(e);
            }
        },
        None => {},
    }
    proof {
        assert(seq_views(r@) =~= spec_directives(format_selector@, output_path@));
    }
    r
}

} // verus!
