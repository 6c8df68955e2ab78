use mediadl::resolve::{extension_of, resolve_directives};
use mediadl::args::{build_download_args, list_formats_args, metadata_args};

fn views(v: &Vec<String>) -> Vec<&str> {
    v.iter().map(|s| s.as_str()).collect()
}

#[test]
fn merge_directive_for_video_container() {
    let r = resolve_directives("bestvideo+bestaudio", "out.mp4");
    assert_eq!(views(&r), vec!["--merge-output-format", "mp4"]);
}

#[test]
fn extract_directives_for_audio_extension() {
    let r = resolve_directives("bestaudio", "out.mp3");
    assert_eq!(views(&r), vec!["-x", "--audio-format", "mp3"]);
    assert!(!r.iter().any(|s| s == "--merge-output-format"));
}

#[test]
fn audio_selector_with_video_extension_passes_through() {
    let r = resolve_directives("bestaudio", "out.mp4");
    assert!(r.is_empty());
}

#[test]
fn unrecognized_extension_passes_through() {
    let r = resolve_directives("best", "out.avi");
    assert!(r.is_empty());
}

#[test]
fn other_containers_and_audio_formats() {
    assert_eq!(views(&resolve_directives("best", "a.mkv")), vec!["--merge-output-format", "mkv"]);
    assert_eq!(views(&resolve_directives("best", "a.webm")), vec!["--merge-output-format", "webm"]);
    assert_eq!(views(&resolve_directives("best", "a.m4a")), vec!["-x", "--audio-format", "m4a"]);
    assert_eq!(views(&resolve_directives("best", "a.opus")), vec!["-x", "--audio-format", "opus"]);
    // an audio extension extracts audio whatever the selector says
    assert_eq!(views(&resolve_directives("bestaudio", "a.opus")), vec!["-x", "--audio-format", "opus"]);
}

#[test]
fn resolver_is_deterministic() {
    let a = resolve_directives("bestvideo+bestaudio", "clip.webm");
    let b = resolve_directives("bestvideo+bestaudio", "clip.webm");
    assert_eq!(a, b);
}

#[test]
fn extension_extraction() {
    assert_eq!(extension_of("dir/movie.mp4").as_deref(), Some("mp4"));
    assert_eq!(extension_of("a.b.c").as_deref(), Some("c"));
    assert_eq!(extension_of("noext"), None);
    assert_eq!(extension_of(".hidden"), None);
    assert_eq!(extension_of("dir.d/file"), None);
    assert_eq!(extension_of("trailing."), Some(String::new()));
    assert_eq!(extension_of("c:\\media\\song.mp3").as_deref(), Some("mp3"));
}

#[test]
fn metadata_and_listing_args() {
    let m = metadata_args("https://example.test/v");
    assert_eq!(views(&m), vec!["--dump-json", "--no-playlist", "https://example.test/v"]);
    let l = list_formats_args("https://example.test/v");
    assert_eq!(views(&l), vec!["-F", "https://example.test/v"]);
}

#[test]
fn download_args_full_order_with_transcoder() {
    let r = build_download_args("URL", "bestvideo+bestaudio", "out.mp4", Some("/opt/bin/ffmpeg"));
    assert_eq!(
        views(&r),
        vec![
            "--ffmpeg-location",
            "/opt/bin/ffmpeg",
            "-f",
            "bestvideo+bestaudio",
            "--merge-output-format",
            "mp4",
            "-o",
            "out.mp4",
            "--force-overwrites",
            "--newline",
            "--no-playlist",
            "URL",
        ]
    );
}

#[test]
fn download_args_without_transcoder_or_directives() {
    let r = build_download_args("URL", "best", "out.avi", None);
    assert_eq!(
        views(&r),
        vec!["-f", "best", "-o", "out.avi", "--force-overwrites", "--newline", "--no-playlist", "URL"]
    );
}
