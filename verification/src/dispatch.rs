//! The dispatcher: one filter policy in front of an ordered fan-out.
//!
//! A dispatcher owns a filter policy and an ordered list of sinks, each
//! sink carrying its own formatter. An emitted event is filtered once;
//! a dropped event touches no sink and costs no formatting. A passing
//! event is rendered per sink, in attachment order, and written to every
//! sink independently: a failed write is recorded in the report for that
//! sink only and never stops delivery to the remaining sinks, nor is it
//! raised to the caller.

use vstd::prelude::*;
use vstd::string::StringExecFns;
use std::io::Write;
use crate::level::Level;
use crate::policy::FilterPolicy;
use crate::render::{render_line, spec_render};
use crate::sink::{AttachError, FileLogger, WriteStatus};

verus! {

/// The formatter a sink carries.
#[derive(Clone, Copy, PartialEq, Eq, Structural, Debug)]
pub enum SinkFormat {
    /// The decision-rule rendering: plain line or emphasized block.
    Rule,
    /// The identity rendering: the message text itself.
    Verbatim,
}

/// A write destination.
pub enum Dest {
    /// Process standard output.
    Console,
    /// An append-only file.
    File(FileLogger),
}

/// One attached destination together with its own formatter.
pub struct Sink {
    pub format: SinkFormat,
    pub dest: Dest,
}

/// What one emit call did at one sink: the exact line that sink's
/// formatter produced, and what became of it.
pub struct SinkReport {
    pub line: String,
    pub status: WriteStatus,
}

/// What one emit call did: whether the event passed the filter, and one
/// report per attached sink, in attachment order, when it did.
pub struct EmitReport {
    pub admitted: bool,
    pub reports: Vec<SinkReport>,
}

/// The line a sink's formatter produces for one event.
pub open spec fn spec_line_for(s: Sink, ts: Seq<char>, target: Seq<char>, severity: Level, message: Seq<char>) -> Seq<char> {
    match s.format {
        SinkFormat::Rule => spec_render(ts, target, severity, message),
        SinkFormat::Verbatim => message,
    }
}

/// Whether each report's line is exactly what the matching sink's
/// formatter produces for the event, under timestamp text `ts`.
pub open spec fn lines_match(reports: Seq<SinkReport>, sinks: Seq<Sink>, ts: Seq<char>, target: Seq<char>, severity: Level, message: Seq<char>) -> bool {
    forall|i: int| 0 <= i < sinks.len() ==>
        (#[trigger] reports[i]).line@ == spec_line_for(sinks[i], ts, target, severity, message)
}

/// Whether a sink is the console.
pub open spec fn is_console(s: Sink) -> bool {
    match s.dest {
        Dest::Console => true,
        Dest::File(_) => false,
    }
}

/// Whether a sink is a file sink.
pub open spec fn is_file(s: Sink) -> bool {
    match s.dest {
        Dest::Console => false,
        Dest::File(_) => true,
    }
}

/// The file sink state behind a file destination.
pub open spec fn file_of(s: Sink) -> FileLogger
    recommends
        is_file(s),
{
    match s.dest {
        Dest::File(f) => f,
        Dest::Console => arbitrary(),
    }
}

/// Whether a write to this sink is a no-op: only a disabled file sink
/// performs no I/O.
pub open spec fn sink_silent(s: Sink) -> bool {
    match s.dest {
        Dest::Console => false,
        Dest::File(f) => !f.enabled,
    }
}

/// Relies on std::io::stdout: writes the line plus a newline to the
/// process's standard output, reporting whether it succeeded.
#[verifier::external_body]
fn write_stdout_line(line: &str) -> bool {
    match writeln!(std::io::stdout(), "{}", line) {
        Ok(()) => true,
        Err(_) => false,
    }
}

impl Sink {
    /// Writes one already-rendered line to this destination. A disabled
    /// file sink skips without I/O; every other sink attempts the write
    /// and reports failure instead of raising it.
    pub fn write(&self, line: &str) -> (r: WriteStatus)
        ensures
            sink_silent(*self) ==> r == WriteStatus::Skipped,
            !sink_silent(*self) ==> r != WriteStatus::Skipped,
    {
        match &self.dest {
            Dest::Console => if write_stdout_line(line) {
                WriteStatus::Written
            } else {
                WriteStatus::Failed
            },
            Dest::File(f) => f.write_line(line),
        }
    }
}

/// Composes a filter policy with an ordered list of sinks. The console
/// sink is always present and stands first; at most one file sink
/// follows it.
pub struct Dispatcher {
    pub policy: FilterPolicy,
    pub sinks: Vec<Sink>,
}

impl Dispatcher {
    /// Structural invariant: the console sink with the rule formatter
    /// stands first, and the only other sink, if any, is a file sink.
    pub open spec fn wf(self) -> bool {
        &&& 1 <= self.sinks@.len() <= 2
        &&& is_console(self.sinks@[0])
        &&& self.sinks@[0].format == SinkFormat::Rule
        &&& self.sinks@.len() == 2 ==> is_file(self.sinks@[1])
    }

    /// A dispatcher with the given policy and the console sink alone:
    /// no file sink is attached until one is explicitly requested.
    pub fn new(policy: FilterPolicy) -> (r: Dispatcher)
        ensures
            r.wf(),
            r.policy == policy,
            r.sinks@.len() == 1,
    {
        let mut sinks: Vec<Sink> = Vec::new();
        sinks.push(Sink { format: SinkFormat::Rule, dest: Dest::Console });
        Dispatcher { policy, sinks }
    }

    /// Drops every sink but the console. The policy is kept.
    pub fn reset_sinks(&mut self)
        requires
            old(self).wf(),
        ensures
            final(self).wf(),
            final(self).policy == old(self).policy,
            final(self).sinks@.len() == 1,
            final(self).sinks@[0] == old(self).sinks@[0],
    {
        while self.sinks.len() > 1
            invariant
                1 <= self.sinks@.len() <= 2,
                self.sinks@[0] == old(self).sinks@[0],
                self.policy == old(self).policy,
            decreases self.sinks@.len(),
        {
            let _ = self.sinks.pop();
        }
    }

    /// Attaches a file sink on `path`. Attachment is idempotent in
    /// effect: on success exactly one file sink is attached, enabled on
    /// that path with the verbatim formatter, whether or not one was
    /// attached before (re-attaching replaces the previous path). On
    /// failure the sink list is left exactly as it was.
    pub fn attach_file(&mut self, path: String) -> (r: Result<(), AttachError>)
        requires
            old(self).wf(),
        ensures
            final(self).wf(),
            final(self).policy == old(self).policy,
            matches!(r, Ok(())) ==> {
                &&& final(self).sinks@.len() == 2
                &&& final(self).sinks@[0] == old(self).sinks@[0]
                &&& is_file(final(self).sinks@[1])
                &&& file_of(final(self).sinks@[1]).enabled
                &&& file_of(final(self).sinks@[1]).path@ == path@
                &&& final(self).sinks@[1].format == SinkFormat::Verbatim
            },
            matches!(r, Err(_)) ==> *final(self) == *old(self),
    {
        let mut logger = FileLogger::new();
        match logger.attach(path) {
            Ok(()) => {
                if self.sinks.len() > 1 {
                    let _ = self.sinks.pop();
                }
                self.sinks.push(Sink { format: SinkFormat::Verbatim, dest: Dest::File(logger) });
                Ok(())
            },
            Err(e) => Err(e),
        }
    }

    /// Emits one event. The filter decides once: a rejected event
    /// returns an empty report and touches no sink. An admitted event
    /// yields one report per sink, in order, whose line is exactly what
    /// that sink's formatter produces for the event; a no-op sink is
    /// reported as skipped, every other sink as written or failed.
    pub fn emit(&self, severity: Level, target: &str, message: &str, ts: &str) -> (r: EmitReport)
        ensures
            r.admitted == self.policy.spec_admits(severity, target@),
            !r.admitted ==> r.reports@.len() == 0,
            r.admitted ==> r.reports@.len() == self.sinks@.len(),
            r.admitted ==> lines_match(r.reports@, self.sinks@, ts@, target@, severity, message@),
            r.admitted ==> forall|i: int| 0 <= i < self.sinks@.len() ==>
                ((#[trigger] r.reports@[i]).status == WriteStatus::Skipped) == sink_silent(self.sinks@[i]),
    {
        let admitted = self.policy.admits(severity, target);
        let mut reports: Vec<SinkReport> = Vec::new();
        if !admitted {
            return EmitReport { admitted: false, reports };
        }
        let mut i: usize = 0;
        while i < self.sinks.len()
            invariant
                i <= self.sinks@.len(),
                reports@.len() == i,
                forall|j: int| 0 <= j < i ==>
                    (#[trigger] reports@[j]).line@ == spec_line_for(self.sinks@[j], ts@, target@, severity, message@),
                forall|j: int| 0 <= j < i ==>
                    ((#[trigger] reports@[j]).status == WriteStatus::Skipped) == sink_silent(self.sinks@[j]),
            decreases self.sinks@.len() - i,
        {
            let sink = &self.sinks[i];
            let line = match sink.format {
                SinkFormat::Rule => render_line(ts, target, severity, message),
                SinkFormat::Verbatim => String::from_str(message),
            };
            let status = sink.write(line.as_str());
            reports.push(SinkReport { line, status });
            i = i + 1;
        }
        EmitReport { admitted: true, reports }
    }
}

} // verus!
