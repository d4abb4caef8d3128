//! Output redirection: draining one captured output stream of the backend
//! process, line by line, into the log sink.
//!
//! The surrounding program reads the lines and hands each one to
//! [`Redirector::on_line`], which returns the decorated record to emit.  A
//! stream that was never captured is a completed no-op; end-of-stream and
//! read errors both complete the redirector — a read error is recorded and
//! logged, never a failure of supervision.

use vstd::prelude::*;

verus! {

/// Which output stream of the child a redirector drains.
#[derive(Clone, Copy, PartialEq, Eq, Structural)]
pub enum StreamKind {
    Stdout,
    Stderr,
}

/// Whether the redirector still takes lines.
#[derive(Clone, Copy, PartialEq, Eq, Structural)]
pub enum RedirectorStatus {
    /// The stream is open; further lines may come.
    Active,
    /// The stream is drained, errored, missing or cancelled; nothing more
    /// will be emitted.
    Completed,
}

/// One record for the log sink: a line of backend output and the stream it
/// came from.
pub struct LogRecord {
    pub kind: StreamKind,
    pub line: String,
}

/// The redirector of one output stream: its source tag, everything emitted so
/// far, and whether it still runs.
pub struct Redirector {
    pub kind: StreamKind,
    /// The lines emitted, in order, for the specification only.
    pub emitted: Ghost<Seq<Seq<char>>>,
    /// Number of lines emitted.
    pub lines: u64,
    pub status: RedirectorStatus,
    /// Whether a read error ended the stream; recorded and logged, never
    /// fatal.
    pub read_error: bool,
}

impl Redirector {
    /// The line count always matches the emitted lines.
    pub open spec fn wf(self) -> bool {
        self.lines == self.emitted@.len()
    }

    /// Attaches a redirector to one output stream of a fresh launch.  A
    /// stream the process was started without (`present == false`) is a
    /// completed no-op, not an error.
    pub fn attach(kind: StreamKind, present: bool) -> (r: Redirector)
        ensures
            r.wf(),
            r.kind == kind,
            r.emitted@ == Seq::<Seq<char>>::empty(),
            r.lines == 0,
            !r.read_error,
            r.status == (if present {
                RedirectorStatus::Active
            } else {
                RedirectorStatus::Completed
            }),
    {
        Redirector {
            kind,
            emitted: Ghost(Seq::empty()),
            lines: 0,
            status: if present {
                RedirectorStatus::Active
            } else {
                RedirectorStatus::Completed
            },
            read_error: false,
        }
    }

    /// Takes one line read from the stream and returns the record to emit:
    /// the line itself, unchanged, tagged with its source.
    pub fn on_line(&mut self, line: &String) -> (rec: LogRecord)
        requires
            old(self).wf(),
            old(self).status == RedirectorStatus::Active,
            old(self).lines < u64::MAX,
        ensures
            *final(self) == spec_on_line(*old(self), line@),
            final(self).wf(),
            rec.kind == old(self).kind,
            rec.line@ == line@,
            final(self).emitted@ == old(self).emitted@.push(line@),
            final(self).lines == old(self).lines + 1,
            final(self).status == RedirectorStatus::Active,
            final(self).kind == old(self).kind,
            final(self).read_error == old(self).read_error,
    {
        self.emitted = Ghost(self.emitted@.push(line@));
        self.lines = self.lines + 1;
        LogRecord { kind: self.kind, line: line.clone() }
    }

    /// Records that the stream is drained: the redirector completes cleanly.
    pub fn on_end(&mut self)
        ensures
            *final(self) == (Redirector { status: RedirectorStatus::Completed, ..*old(self) }),
            old(self).wf() ==> final(self).wf(),
    {
        self.status = RedirectorStatus::Completed;
    }

    /// Records a read error: redirection ends and the error is noted for the
    /// log, but it never becomes a failure of the supervisor.
    pub fn on_read_error(&mut self)
        ensures
            *final(self) == (Redirector {
                status: RedirectorStatus::Completed,
                read_error: true,
                ..*old(self)
            }),
            old(self).wf() ==> final(self).wf(),
    {
        self.status = RedirectorStatus::Completed;
        self.read_error = true;
    }

    /// Cancels the redirector without draining it: the owning process is
    /// about to be replaced, and shutdown must not wait for stragglers.
    pub fn on_cancel(&mut self)
        ensures
            *final(self) == (Redirector { status: RedirectorStatus::Completed, ..*old(self) }),
            old(self).wf() ==> final(self).wf(),
    {
        self.status = RedirectorStatus::Completed;
    }
}

/// The redirector after one more line.
pub open spec fn spec_on_line(r: Redirector, line: Seq<char>) -> Redirector {
    Redirector { emitted: Ghost(r.emitted@.push(line)), lines: (r.lines + 1) as u64, ..r }
}

/// The redirector after the whole run of lines, first line first.
pub open spec fn spec_on_lines(r: Redirector, lines: Seq<Seq<char>>) -> Redirector
    decreases lines.len(),
{
    if lines.len() == 0 {
        r
    } else {
        spec_on_line(spec_on_lines(r, lines.drop_last()), lines.last())
    }
}

/// Line-by-line drain: whatever lines the stream yields, the redirector
/// emits exactly those lines, in order, each once, and its source tag and
/// error flag never change along the way.
pub proof fn lemma_lines_in_order(r: Redirector, lines: Seq<Seq<char>>)
    requires
        r.wf(),
        r.lines + lines.len() <= u64::MAX,
    ensures
        spec_on_lines(r, lines).wf(),
        spec_on_lines(r, lines).emitted@ == r.emitted@ + lines,
        spec_on_lines(r, lines).lines == r.lines + lines.len(),
        spec_on_lines(r, lines).kind == r.kind,
        spec_on_lines(r, lines).status == r.status,
        spec_on_lines(r, lines).read_error == r.read_error,
    decreases lines.len(),
{
    if lines.len() == 0 {
        assert(r.emitted@ + lines =~= r.emitted@);
    } else {
        lemma_lines_in_order(r, lines.drop_last());
        assert((r.emitted@ + lines.drop_last()).push(lines.last()) =~= r.emitted@ + lines);
    }
}

} // verus!
