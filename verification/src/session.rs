//! Download session: the event stream of one spawned extractor process.
//!
//! The driver feeds the session every tagged output record in stream order
//! and closes it once when the stream ends. The session turns records into
//! progress and error events, and emits exactly one terminal event; nothing
//! follows it.

use vstd::prelude::*;
use crate::progress::{DownloadProgress, progress_for, parse_line_bytes};
use crate::decode::{lossy_utf8, decode_lossy};

verus! {

/// One tagged record of the process's output streams.
#[derive(Debug, Clone, PartialEq, Eq)]
pub enum OutputRecord {
    Stdout(Vec<u8>),
    Stderr(Vec<u8>),
}

/// One event handed to the observer.
#[derive(Debug, Clone, PartialEq, Eq)]
pub enum SessionEvent {
    /// A parsed progress line, from one standard-output record.
    Progress(DownloadProgress),
    /// One decoded standard-error line; advisory, it does not end the
    /// session.
    ErrorLine(String),
    /// The stream closed; emitted exactly once, whatever the exit code.
    Finished,
}

/// The event a record maps to: a standard-output line is parsed as
/// progress, a standard-error line is decoded and passed on.
pub open spec fn record_event(rec: OutputRecord, ev: SessionEvent) -> bool {
    match rec {
        OutputRecord::Stdout(b) => ev matches SessionEvent::Progress(p) && progress_for(
            lossy_utf8(b@),
            p,
        ),
        OutputRecord::Stderr(b) => ev matches SessionEvent::ErrorLine(t) && t@ == lossy_utf8(b@),
    }
}

/// The state of one download session, owned by its driver alone; sessions
/// share nothing.
pub struct DownloadSession {
    active: bool,
    emitted: Ghost<Seq<SessionEvent>>,
}

impl DownloadSession {
    /// The events emitted so far, in order.
    pub closed spec fn history(self) -> Seq<SessionEvent> {
        self.emitted@
    }

    /// The stream has not closed yet.
    pub closed spec fn is_open(self) -> bool {
        self.active
    }

    /// Well-formedness of the event history, held by every session the
    /// constructor and the methods hand out.
    pub closed spec fn wf(self) -> bool {
        if self.active {
            forall|i: int|
                0 <= i < self.emitted@.len() ==> !(#[trigger] self.emitted@[i] is Finished)
        } else {
            self.emitted@.len() > 0 && self.emitted@.last() is Finished && forall|i: int|
                0 <= i < self.emitted@.len() - 1 ==> !(#[trigger] self.emitted@[i] is Finished)
        }
    }

    #[verifier::type_invariant]
    closed spec fn inv(self) -> bool {
        self.wf()
    }

    /// A fresh session: open, nothing emitted.
    pub fn new() -> (s: Self)
        ensures
            s.wf(),
            s.is_open(),
            s.history() == Seq::<SessionEvent>::empty(),
    {
        DownloadSession { active: true, emitted: Ghost(Seq::empty()) }
    }

    pub fn is_active(&self) -> (b: bool)
        ensures
            b == self.is_open(),
    {
        self.active
    }

    /// Handles one output record: while the session is open, every record
    /// yields exactly one non-terminal event, appended to the history; a
    /// closed session ignores records.
    pub fn on_record(&mut self, rec: &OutputRecord) -> (ev: Option<SessionEvent>)
        ensures
            final (self).wf(),
            old(self).is_open() ==> (ev matches Some(e) && record_event(*rec, e)
                && final (self).is_open()
                && final (self).history() == old(self).history().push(e)),
            !old(self).is_open() ==> (ev is None && final (self).history() == old(self).history()
                && !final (self).is_open()),
    {
        proof {
            use_type_invariant(&*self);
        }
        if !self.active {
            return None;
        }
        let ev = match rec {
            OutputRecord::Stdout(b) => SessionEvent::Progress(parse_line_bytes(b.as_slice())),
            OutputRecord::Stderr(b) => SessionEvent::ErrorLine(decode_lossy(b.as_slice())),
        };
        self.emitted = Ghost(self.emitted@.push(ev));
        Some(ev)
    }

    /// Closes the session when its stream ends: the first close emits the
    /// terminal event; any further close emits nothing.
    pub fn close(&mut self) -> (ev: Option<SessionEvent>)
        ensures
            final (self).wf(),
            old(self).is_open() ==> (ev == Some(SessionEvent::Finished) && !final (self).is_open()
                && final (self).history() == old(self).history().push(SessionEvent::Finished)),
            !old(self).is_open() ==> (ev is None && final (self).history() == old(self).history()
                && !final (self).is_open()),
    {
        proof {
            use_type_invariant(&*self);
        }
        if !self.active {
            return None;
        }
        *self = DownloadSession {
            active: false,
            emitted: Ghost(self.emitted@.push(SessionEvent::Finished)),
        };
        Some(SessionEvent::Finished)
    }
}

/// A session's history holds at most one terminal event, only in last
/// position; while the session is open it holds none. So the observer sees
/// zero or more progress and error events, and — once the stream has closed
/// — exactly one finished event after which nothing follows.
pub proof fn lemma_single_terminal(s: DownloadSession)
    requires
        s.wf(),
    ensures
        forall|i: int|
            0 <= i < s.history().len() && (#[trigger] s.history()[i]) is Finished ==> i
                == s.history().len() - 1,
        s.is_open() ==> forall|i: int|
            0 <= i < s.history().len() ==> !((#[trigger] s.history()[i]) is Finished),
        !s.is_open() ==> s.history().len() > 0 && s.history().last() is Finished,
{
}

} // verus!
