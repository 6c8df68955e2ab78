//! Argument lists for the extractor's two invocation modes: a metadata query
//! and a download. The order is fixed; no two directives in a list conflict.

use vstd::prelude::*;
use crate::resolve::{seq_views, spec_directives, resolve_directives};

verus! {

/// Arguments of a metadata query: dump one structured document for the URL,
/// without expanding a playlist.
pub open spec fn spec_metadata_args(url: Seq<char>) -> Seq<Seq<char>> {
    seq!["--dump-json"@, "--no-playlist"@, url]
}

/// Arguments of a format-listing query.
pub open spec fn spec_list_formats_args(url: Seq<char>) -> Seq<Seq<char>> {
    seq!["-F"@, url]
}

/// The full download argument list: the optional transcoder location, the
/// format selector, the resolver's extra directives, then the output path,
/// overwrite, line-buffered output and playlist suppression, and the URL.
pub open spec fn spec_download_args(
    url: Seq<char>,
    sel: Seq<char>,
    path: Seq<char>,
    transcoder: Option<Seq<char>>,
) -> Seq<Seq<char>> {
    let head = match transcoder {
        Some(t) => seq!["--ffmpeg-location"@, t],
        None => Seq::empty(),
    };
    head + seq!["-f"@, sel] + spec_directives(sel, path) + seq![
        "-o"@,
        path,
        "--force-overwrites"@,
        "--newline"@,
        "--no-playlist"@,
        url,
    ]
}

pub fn metadata_args(url: &str) -> (r: Vec<String>)
    ensures
        seq_views(r@) == spec_metadata_args(url@),
{
    let mut r: Vec<String> = Vec::new();
    r.push(String::from_str("--dump-json"));
    r.push(String::from_str("--no-playlist"));
    r.push(String::from_str(url));
    proof {
        assert(seq_views(r@) =~= spec_metadata_args(url@));
    }
    r
}

pub fn list_formats_args(url: &str) -> (r: Vec<String>)
    ensures
        seq_views(r@) == spec_list_formats_args(url@),
{
    let mut r: Vec<String> = Vec::new();
    r.push(String::from_str("-F"));
    r.push(String::from_str(url));
    proof {
        assert(seq_views(r@) =~= spec_list_formats_args(url@));
    }
    r
}

/// Builds the whole argument list of one download invocation.
///
/// `transcoder_location` is the on-disk path of the transcoder if the
/// platform locator found one; with `None` the extractor is left to find
/// its own.
pub fn build_download_args(
    url: &str,
    format_selector: &str,
    output_path: &str,
    transcoder_location: Option<&str>,
) -> (r: Vec<String>)
    ensures
        seq_views(r@) == spec_download_args(
            url@,
            format_selector@,
            output_path@,
            match transcoder_location {
                Some(t) => Some(t@),
                None => None,
            },
        ),
{
    let mut r: Vec<String> = Vec::new();
    match transcoder_location {
        Some(t) => {
            r.push(String::from_str("--ffmpeg-location"));
            r.push(String::from_str(t));
        },
        None => {},
    }
    r.push(String::from_str("-f"));
    r.push(String::from_str(format_selector));
    let mut extra = resolve_directives(format_selector, output_path);
    r.append(&mut extra);
    r.push(String::from_str("-o"));
    r.push(String::from_str(output_path));
    r.push(String::from_str("--force-overwrites"));
    r.push(String::from_str("--newline"));
    r.push(String::from_str("--no-playlist"));
    r.push(String::from_str(url));
    proof {
        assert(seq_views(r@) =~= spec_download_args(
            url@,
            format_selector@,
            output_path@,
            match transcoder_location {
                Some(t) => Some(t@),
                None => None,
            },
        ));
    }
    r
}

} // verus!
