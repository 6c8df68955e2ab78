//! Metadata fetcher: turns the extractor's metadata document into the video
//! data model. Every optional field maps absent or differently shaped source
//! data to `None`; a missing title falls back to a placeholder; a format
//! entry without an identifier or container extension is dropped.

use vstd::prelude::*;
use crate::json::{
    JsonValue, json_tree, parse_document, spec_get, spec_get_str, spec_get_num_text,
    spec_get_items, spec_num_u64, opt_view, obj_get, get_str_field, get_num_text_field,
    get_u64_field,
};
use crate::decode::{lossy_utf8, decode_lossy};

verus! {

/// One downloadable format of a video. Immutable once parsed.
#[derive(Debug, Clone, PartialEq, Eq)]
pub struct VideoFormat {
    pub format_id: String,
    pub ext: String,
    pub resolution: Option<String>,
    pub filesize: Option<u64>,
    pub format_note: Option<String>,
    pub vcodec: Option<String>,
    pub acodec: Option<String>,
}

/// Metadata of one video. `duration` keeps the source number's decimal
/// text; the caller reads it as seconds.
#[derive(Debug, Clone, PartialEq, Eq)]
pub struct VideoInfo {
    pub title: String,
    pub thumbnail: Option<String>,
    pub duration: Option<String>,
    pub uploader: Option<String>,
    pub description: Option<String>,
    pub formats: Vec<VideoFormat>,
}

/// Why a metadata or format-listing query failed.
#[derive(Debug, Clone, PartialEq, Eq)]
pub enum FetchError {
    /// The external process exited non-zero; carries its exit code and its
    /// decoded standard-error text.
    ProcessFailed { code: Option<i32>, stderr: String },
    /// The process succeeded but its output is not a well-formed document.
    MalformedOutput,
}

/// A format entry is kept exactly when it names an identifier and a
/// container extension.
pub open spec fn format_kept(v: JsonValue) -> bool {
    spec_get_str(v, "format_id"@) is Some && spec_get_str(v, "ext"@) is Some
}

pub open spec fn format_matches(v: JsonValue, f: VideoFormat) -> bool {
    &&& Some(f.format_id@) == spec_get_str(v, "format_id"@)
    &&& Some(f.ext@) == spec_get_str(v, "ext"@)
    &&& opt_view(f.resolution) == spec_get_str(v, "resolution"@)
    &&& f.filesize == (match spec_get(v, "filesize"@) {
        Some(JsonValue::Num(t)) => spec_num_u64(t@),
        _ => None::<u64>,
    })
    &&& opt_view(f.format_note) == spec_get_str(v, "format_note"@)
    &&& opt_view(f.vcodec) == spec_get_str(v, "vcodec"@)
    &&& opt_view(f.acodec) == spec_get_str(v, "acodec"@)
}

/// The entries that survive the filter, in source order.
pub open spec fn kept_formats(items: Seq<JsonValue>) -> Seq<JsonValue>
    decreases items.len(),
{
    if items.len() == 0 {
        Seq::empty()
    } else if format_kept(items.last()) {
        kept_formats(items.drop_last()).push(items.last())
    } else {
        kept_formats(items.drop_last())
    }
}

pub open spec fn formats_match(items: Seq<JsonValue>, fs: Seq<VideoFormat>) -> bool {
    &&& fs.len() == kept_formats(items).len()
    &&& forall|i: int|
        0 <= i < kept_formats(items).len() ==> format_matches(
            kept_formats(items)[i],
            #[trigger] fs[i],
        )
}

pub open spec fn info_matches(v: JsonValue, info: VideoInfo) -> bool {
    &&& info.title@ == (match spec_get_str(v, "title"@) {
        Some(t) => t,
        None => "Unknown"@,
    })
    &&& opt_view(info.thumbnail) == spec_get_str(v, "thumbnail"@)
    &&& opt_view(info.duration) == spec_get_num_text(v, "duration"@)
    &&& opt_view(info.uploader) == spec_get_str(v, "uploader"@)
    &&& opt_view(info.description) == spec_get_str(v, "description"@)
    &&& formats_match(spec_get_items(v, "formats"@), info.formats@)
}

/// One format entry, or `None` where the entry is dropped.
fn format_of(v: &JsonValue) -> (r: Option<VideoFormat>)
    ensures
        match r {
            Some(f) => format_kept(*v) && format_matches(*v, f),
            None => !format_kept(*v),
        },
{
    let format_id = match get_str_field(v, "format_id") {
        Some(s) => s,
        None => {
            return None;
        },
    };
    let ext = match get_str_field(v, "ext") {
        Some(s) => s,
        None => {
            return None;
        },
    };
    Some(
        VideoFormat {
            format_id,
            ext,
            resolution: get_str_field(v, "resolution"),
            filesize: get_u64_field(v, "filesize"),
            format_note: get_str_field(v, "format_note"),
            vcodec: get_str_field(v, "vcodec"),
            acodec: get_str_field(v, "acodec"),
        },
    )
}

/// The video data model read from one document node.
pub fn video_info_of(v: &JsonValue) -> (info: VideoInfo)
    ensures
        info_matches(*v, info),
{
    let title = match get_str_field(v, "title") {
        Some(t) => t,
        None => String::from_str("Unknown"),
    };
    let mut formats: Vec<VideoFormat> = Vec::new();
    match obj_get(v, "formats") {
        Some(x) => match x {
            JsonValue::Arr(items) => {
                let m = items.len();
                let mut i: usize = 0;
                proof {
                    assert(items@.take(0) =~= Seq::<JsonValue>::empty());
                }
                while i < m
                    invariant
                        0 <= i <= m,
                        m == items@.len(),
                        spec_get_items(*v, "formats"@) == items@,
                        formats_match(items@.take(i as int), formats@),
                    decreases m - i,
                {
                    proof {
                        assert(items@.take(i + 1).drop_last() =~= items@.take(i as int));
                        assert(items@.take(i + 1).last() == items@[i as int]);
                    }
                    match format_of(&items[i]) {
                        Some(f) => {
                            formats.push(f);
                        },
                        None => {},
                    }
                    i = i + 1;
                }
                proof {
                    assert(items@.take(m as int) =~= items@);
                }
            },
            _ => {
                proof {
                    assert(kept_formats(spec_get_items(*v, "formats"@)) =~= Seq::<
                        JsonValue,
                    >::empty());
                }
            },
        },
        None => {
            proof {
                assert(kept_formats(spec_get_items(*v, "formats"@)) =~= Seq::<
                    JsonValue,
                >::empty());
            }
        },
    }
    VideoInfo {
        title,
        thumbnail: get_str_field(v, "thumbnail"),
        duration: get_num_text_field(v, "duration"),
        uploader: get_str_field(v, "uploader"),
        description: get_str_field(v, "description"),
        formats,
    }
}

/// What a metadata parse yields for the text `s`: the data model of the
/// parsed tree, or the malformed-output error exactly where no tree exists.
pub open spec fn fetch_parse_ok(s: Seq<char>, r: Result<VideoInfo, FetchError>) -> bool {
    match json_tree(s) {
        Some(v) => r matches Ok(info) && info_matches(v, info),
        None => r == Result::<VideoInfo, FetchError>::Err(FetchError::MalformedOutput),
    }
}

/// Parses a metadata document's text into the video data model.
pub fn metadata_from_text(stdout_text: &str) -> (r: Result<VideoInfo, FetchError>)
    ensures
        fetch_parse_ok(stdout_text@, r),
{
    match parse_document(stdout_text) {
        Some(tree) => Ok(video_info_of(&tree)),
        None => Err(FetchError::MalformedOutput),
    }
}

/// What a finished metadata query yields: on failure the process error with
/// the decoded standard-error text, otherwise the parse of the decoded
/// standard output.
pub open spec fn fetch_outcome_ok(
    success: bool,
    code: Option<i32>,
    out: Seq<u8>,
    err: Seq<u8>,
    r: Result<VideoInfo, FetchError>,
) -> bool {
    if success {
        fetch_parse_ok(lossy_utf8(out), r)
    } else {
        r matches Err(FetchError::ProcessFailed { code: c, stderr: t }) && c == code && t@
            == lossy_utf8(err)
    }
}

/// Decides a metadata query from the exited process's results: exit state,
/// exit code, and the two collected output streams.
pub fn fetch_outcome(success: bool, code: Option<i32>, stdout: &[u8], stderr: &[u8]) -> (r: Result<
    VideoInfo,
    FetchError,
>)
    ensures
        fetch_outcome_ok(success, code, stdout@, stderr@, r),
{
    if !success {
        return Err(FetchError::ProcessFailed { code, stderr: decode_lossy(stderr) });
    }
    let text = decode_lossy(stdout);
    metadata_from_text(text.as_str())
}

/// What a finished format-listing query yields: the decoded standard output
/// on success, the process error otherwise.
pub open spec fn list_outcome_ok(
    success: bool,
    code: Option<i32>,
    out: Seq<u8>,
    err: Seq<u8>,
    r: Result<String, FetchError>,
) -> bool {
    if success {
        r matches Ok(t) && t@ == lossy_utf8(out)
    } else {
        r matches Err(FetchError::ProcessFailed { code: c, stderr: t }) && c == code && t@
            == lossy_utf8(err)
    }
}

/// Decides a format-listing query from the exited process's results.
pub fn list_formats_outcome(success: bool, code: Option<i32>, stdout: &[u8], stderr: &[u8]) -> (r:
    Result<String, FetchError>)
    ensures
        list_outcome_ok(success, code, stdout@, stderr@, r),
{
    if !success {
        return Err(FetchError::ProcessFailed { code, stderr: decode_lossy(stderr) });
    }
    Ok(decode_lossy(stdout))
}

} // verus!
