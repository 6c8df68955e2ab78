use mediadl::progress::DownloadStatus;
use mediadl::session::{DownloadSession, OutputRecord, SessionEvent};

fn stdout_rec(s: &str) -> OutputRecord {
    OutputRecord::Stdout(s.as_bytes().to_vec())
}

fn stderr_rec(s: &str) -> OutputRecord {
    OutputRecord::Stderr(s.as_bytes().to_vec())
}

#[test]
fn fake_process_three_lines_then_closure() {
    let mut session = DownloadSession::new();
    assert!(session.is_active());
    let lines = vec![
        "[download]  42.5% of 10.00MiB at 1.20MiB/s ETA 00:07",
        "[download] 100% of 10.00MiB",
        "no markers here",
    ];
    let mut events = Vec::new();
    for l in &lines {
        events.push(session.on_record(&stdout_rec(l)).unwrap());
    }
    let last = session.close().unwrap();
    assert_eq!(last, SessionEvent::Finished);
    assert!(!session.is_active());

    // the three progress events, in emission order
    match &events[0] {
        SessionEvent::Progress(p) => {
            assert_eq!(p.percentage, "42.5");
            assert_eq!(p.status, DownloadStatus::Downloading);
        }
        other => panic!("unexpected event {:?}", other),
    }
    match &events[1] {
        SessionEvent::Progress(p) => {
            assert_eq!(p.percentage, "100");
            assert_eq!(p.status, DownloadStatus::Completed);
        }
        other => panic!("unexpected event {:?}", other),
    }
    match &events[2] {
        SessionEvent::Progress(p) => {
            assert_eq!(p.percentage, "0");
            assert_eq!(p.status, DownloadStatus::Downloading);
        }
        other => panic!("unexpected event {:?}", other),
    }
}

#[test]
fn stderr_is_advisory_and_interleaves() {
    let mut session = DownloadSession::new();
    let e1 = session.on_record(&stderr_rec("WARNING: throttled")).unwrap();
    assert_eq!(e1, SessionEvent::ErrorLine("WARNING: throttled".to_string()));
    // the session stays open after an error line
    assert!(session.is_active());
    let e2 = session.on_record(&stdout_rec("[download] 100% of x")).unwrap();
    match e2 {
        SessionEvent::Progress(p) => assert_eq!(p.status, DownloadStatus::Completed),
        other => panic!("unexpected event {:?}", other),
    }
    assert_eq!(session.close(), Some(SessionEvent::Finished));
}

#[test]
fn invalid_bytes_on_stderr_are_decoded_lossily() {
    let mut session = DownloadSession::new();
    let ev = session.on_record(&OutputRecord::Stderr(b"warn \xff\xfe end".to_vec())).unwrap();
    match ev {
        SessionEvent::ErrorLine(t) => assert_eq!(t, "warn \u{fffd}\u{fffd} end"),
        other => panic!("unexpected event {:?}", other),
    }
}

#[test]
fn exactly_one_finished_event() {
    let mut session = DownloadSession::new();
    session.on_record(&stdout_rec("[download] 10%")).unwrap();
    assert_eq!(session.close(), Some(SessionEvent::Finished));
    // nothing follows the terminal event
    assert_eq!(session.close(), None);
    assert_eq!(session.on_record(&stdout_rec("[download] 99%")), None);
    assert_eq!(session.close(), None);
    assert!(!session.is_active());
}

#[test]
fn two_sessions_are_independent() {
    let mut a = DownloadSession::new();
    let mut b = DownloadSession::new();
    let mut a_events = Vec::new();
    let mut b_events = Vec::new();

    // interleave the two drivers; each session sees only its own records
    a_events.push(a.on_record(&stdout_rec("[download]  10% of a.mp4")).unwrap());
    b_events.push(b.on_record(&stdout_rec("[download]  60% of b.mp3")).unwrap());
    a_events.push(a.on_record(&stdout_rec("[download]  20% of a.mp4")).unwrap());
    b_events.push(b.on_record(&stderr_rec("warning: b only")).unwrap());
    a_events.push(a.close().unwrap());
    // closing one session does not touch the other
    assert!(b.is_active());
    b_events.push(b.on_record(&stdout_rec("[download] 100% of b.mp3")).unwrap());
    b_events.push(b.close().unwrap());

    let a_pcts: Vec<String> = a_events
        .iter()
        .filter_map(|e| match e {
            SessionEvent::Progress(p) => Some(p.percentage.clone()),
            _ => None,
        })
        .collect();
    assert_eq!(a_pcts, vec!["10", "20"]);
    assert_eq!(a_events.last(), Some(&SessionEvent::Finished));

    let b_pcts: Vec<String> = b_events
        .iter()
        .filter_map(|e| match e {
            SessionEvent::Progress(p) => Some(p.percentage.clone()),
            _ => None,
        })
        .collect();
    assert_eq!(b_pcts, vec!["60", "100"]);
    assert!(b_events.iter().any(|e| matches!(e, SessionEvent::ErrorLine(t) if t == "warning: b only")));
    assert_eq!(b_events.iter().filter(|e| matches!(e, SessionEvent::Finished)).count(), 1);
    assert_eq!(a_events.iter().filter(|e| matches!(e, SessionEvent::Finished)).count(), 1);
}
