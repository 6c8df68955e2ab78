use mediadl::progress::{parse_line, parse_line_bytes, DownloadStatus};

#[test]
fn full_progress_line() {
    let p = parse_line("[download]  42.5% of 10.00MiB at 1.20MiB/s ETA 00:07");
    assert_eq!(p.percentage, "42.5");
    assert_eq!(p.speed.as_deref(), Some("1.20MiB/s"));
    assert_eq!(p.eta.as_deref(), Some("00:07"));
    assert_eq!(p.status, DownloadStatus::Downloading);
}

#[test]
fn completion_line_forces_status_and_percentage() {
    let p = parse_line("[download] 100% of 10.00MiB");
    assert_eq!(p.percentage, "100");
    assert_eq!(p.status, DownloadStatus::Completed);
}

#[test]
fn line_without_markers_yields_default() {
    let p = parse_line("Deleting temporary file clip.f137.mp4 (pass -k to keep)");
    assert_eq!(p.percentage, "0");
    assert_eq!(p.speed, None);
    assert_eq!(p.eta, None);
    assert_eq!(p.status, DownloadStatus::Downloading);
}

#[test]
fn empty_line_yields_default() {
    let p = parse_line("");
    assert_eq!(p.percentage, "0");
    assert_eq!(p.speed, None);
    assert_eq!(p.eta, None);
    assert_eq!(p.status, DownloadStatus::Downloading);
}

#[test]
fn fractional_hundred_is_not_completion() {
    let p = parse_line("[download] 100.0% of 10.00MiB");
    assert_eq!(p.percentage, "100.0");
    assert_eq!(p.status, DownloadStatus::Downloading);
}

#[test]
fn double_spaced_hundred_is_not_the_completion_marker() {
    // the marker is the exact single-spaced text
    let p = parse_line("[download]  100% of 10.00MiB");
    assert_eq!(p.percentage, "100");
    assert_eq!(p.status, DownloadStatus::Downloading);
}

#[test]
fn completion_overrides_earlier_percentage() {
    let p = parse_line("[download]  50.0% then [download] 100% done");
    assert_eq!(p.percentage, "100");
    assert_eq!(p.status, DownloadStatus::Completed);
}

#[test]
fn first_percentage_match_wins() {
    let p = parse_line("[download] x [download]  7.5% and [download] 9%");
    assert_eq!(p.percentage, "7.5");
}

#[test]
fn speed_matcher_details() {
    // the literal `at` matches inside a word, as the loose format allows
    let p = parse_line("so that 5MiB/s happened");
    assert_eq!(p.speed.as_deref(), Some("5MiB/s"));
    // the token keeps its longest prefix ending in /s
    let p = parse_line("at a/s/s rest");
    assert_eq!(p.speed.as_deref(), Some("a/s/s"));
    // an `at` whose token has no /s is skipped; a later one can match
    let p = parse_line("at home at 3KiB/s");
    assert_eq!(p.speed.as_deref(), Some("3KiB/s"));
    // no whitespace after `at` means no match
    let p = parse_line("atx 3KiB/s");
    assert_eq!(p.speed, None);
}

#[test]
fn eta_matcher_details() {
    let p = parse_line("ETA 1:2");
    assert_eq!(p.eta.as_deref(), Some("1:2"));
    let p = parse_line("done ETA 00:07x tail");
    assert_eq!(p.eta.as_deref(), Some("00:07"));
    let p = parse_line("ETA soon");
    assert_eq!(p.eta, None);
    let p = parse_line("ETA 12: 34");
    assert_eq!(p.eta, None);
}

#[test]
fn trailing_dot_percentage_token() {
    let p = parse_line("[download] 12.% of it");
    assert_eq!(p.percentage, "12.");
}

#[test]
fn arbitrary_bytes_never_fail() {
    let cases: Vec<Vec<u8>> = vec![
        vec![],
        vec![0xff, 0xfe, 0xfd],
        vec![0x80, 0x80, 0x80, 0x80],
        b"[download]  42.5% at 1.20MiB/s ETA 00:07".to_vec(),
        b"[download] \xff 100% of x".to_vec(),
        vec![0xc3, 0x28, 0xa0, 0xa1, 0xe2, 0x28, 0xa1],
        b"\xf0\x90\x28\xbc ETA 9:9".to_vec(),
    ];
    for c in cases {
        let p = parse_line_bytes(&c);
        assert!(p.status == DownloadStatus::Downloading || p.status == DownloadStatus::Completed);
        assert!(!p.percentage.is_empty());
    }
}

#[test]
fn bytes_line_matches_decoded_text() {
    let p = parse_line_bytes(b"[download]  42.5% of 10.00MiB at 1.20MiB/s ETA 00:07");
    assert_eq!(p.percentage, "42.5");
    assert_eq!(p.speed.as_deref(), Some("1.20MiB/s"));
    assert_eq!(p.eta.as_deref(), Some("00:07"));
    assert_eq!(p.status, DownloadStatus::Downloading);
}
