//! The lazy, fault-tolerant file sink.
//!
//! A file sink owns an `enabled` flag and a path. While disabled it
//! performs no I/O and every write is a no-op. Attaching a path probes
//! it for existence, creates the file when it is missing, and reports a
//! typed configuration error otherwise, leaving the sink in its prior
//! state; it never aborts the process. A write opens the file in append
//! mode for the duration of the call, writes the line plus a newline,
//! and releases the handle before returning; a failed write is reported,
//! never raised.

use vstd::prelude::*;
use vstd::string::StringExecFns;
use std::io::Write;

verus! {

/// Outcome of probing a path during attachment.
#[derive(Clone, Copy, PartialEq, Eq, Structural, Debug)]
pub enum Probe {
    /// The file exists and is readable.
    Exists,
    /// Nothing exists at the path.
    Missing,
    /// The path cannot be probed (permissions, invalid path, ...).
    Denied,
}

/// Why an attachment attempt failed.
#[derive(Clone, Copy, PartialEq, Eq, Structural, Debug)]
pub enum AttachError {
    /// The file was missing and could not be created.
    NotCreatable,
    /// The path could not be probed at all.
    NotAccessible,
}

/// What became of one rendered line at one sink.
#[derive(Clone, Copy, PartialEq, Eq, Structural, Debug)]
pub enum WriteStatus {
    /// The line was written.
    Written,
    /// The sink is disabled; no I/O was performed.
    Skipped,
    /// The write was attempted and failed; the event is lost for this
    /// sink, and nothing is raised.
    Failed,
}

/// Relies on fs_err::File::open: opens the path read-only, failing with
/// the underlying error kind preserved; the handle is dropped at once.
#[verifier::external_body]
fn probe_file(path: &str) -> Probe {
    match fs_err::File::open(path) {
        Ok(_) => Probe::Exists,
        Err(e) => match e.kind() {
            std::io::ErrorKind::NotFound => Probe::Missing,
            _ => Probe::Denied,
        },
    }
}

/// Relies on fs_err::File::create: creates the file (or truncates an
/// existing one), reporting whether it succeeded.
#[verifier::external_body]
fn create_file(path: &str) -> bool {
    match fs_err::File::create(path) {
        Ok(_) => true,
        Err(_) => false,
    }
}

/// Relies on fern::log_file: opens the path in append mode, creating it
/// if missing. The line plus a newline is written and the handle is
/// released before returning, on every exit path.
#[verifier::external_body]
fn append_line(path: &str, line: &str) -> bool {
    match fern::log_file(path) {
        Ok(mut f) => match writeln!(f, "{}", line) {
            Ok(()) => true,
            Err(_) => false,
        },
        Err(_) => false,
    }
}

/// Decision table for an attachment attempt, verified for every probe
/// outcome: an existing file attaches, a missing one attaches only when
/// it was created, and an unprobeable path is a configuration error.
pub fn attach_outcome(probe: Probe, created: bool) -> (r: Result<(), AttachError>)
    ensures
        probe == Probe::Exists ==> r == Ok::<(), AttachError>(()),
        probe == Probe::Missing && created ==> r == Ok::<(), AttachError>(()),
        probe == Probe::Missing && !created ==> r == Err::<(), AttachError>(AttachError::NotCreatable),
        probe == Probe::Denied ==> r == Err::<(), AttachError>(AttachError::NotAccessible),
{
    match probe {
        Probe::Exists => Ok(()),
        Probe::Missing => if created {
            Ok(())
        } else {
            Err(AttachError::NotCreatable)
        },
        Probe::Denied => Err(AttachError::NotAccessible),
    }
}

/// An append-only file destination, disabled until a path is attached.
pub struct FileLogger {
    /// While false, every write is a no-op and performs no I/O.
    pub enabled: bool,
    /// Path written to once enabled.
    pub path: String,
}

impl FileLogger {
    /// A fresh, disabled file sink. No file is created or touched until
    /// a path is explicitly attached.
    pub fn new() -> (r: FileLogger)
        ensures
            !r.enabled,
            r.path@ == "default.log"@,
    {
        FileLogger { enabled: false, path: String::from_str("default.log") }
    }

    /// Attaches a path: on success the sink is enabled on exactly that
    /// path (re-attaching replaces the previous path and leaves the sink
    /// enabled); on failure the sink is unchanged, and the error says
    /// whether the file could not be created or not probed at all. No
    /// persistent handle is kept open.
    pub fn attach(&mut self, path: String) -> (r: Result<(), AttachError>)
        ensures
            matches!(r, Ok(())) ==> final(self).enabled && final(self).path@ == path@,
            matches!(r, Err(_)) ==> *final(self) == *old(self),
    {
        let probe = probe_file(path.as_str());
        let created = match probe {
            Probe::Missing => create_file(path.as_str()),
            _ => false,
        };
        match attach_outcome(probe, created) {
            Ok(()) => {
                self.enabled = true;
                self.path = path;
                Ok(())
            },
            Err(e) => Err(e),
        }
    }

    /// Writes one already-rendered line. A disabled sink skips without
    /// any I/O; an enabled one appends the line plus a newline, and
    /// reports a failed write instead of raising it.
    pub fn write_line(&self, line: &str) -> (r: WriteStatus)
        ensures
            !self.enabled ==> r == WriteStatus::Skipped,
            self.enabled ==> r != WriteStatus::Skipped,
    {
        if !self.enabled {
            WriteStatus::Skipped
        } else if append_line(self.path.as_str(), line) {
            WriteStatus::Written
        } else {
            WriteStatus::Failed
        }
    }

    /// This sink's own formatter: the verbatim identity, so the file
    /// receives exactly the message it was handed.
    pub fn format(&self, message: &str) -> (r: String)
        ensures
            r@ == message@,
    {
        String::from_str(message)
    }

    /// Formats a message with this sink's formatter and writes it.
    pub fn logger(&self, message: &str) -> (r: WriteStatus)
        ensures
            !self.enabled ==> r == WriteStatus::Skipped,
            self.enabled ==> r != WriteStatus::Skipped,
    {
        let line = self.format(message);
        self.write_line(line.as_str())
    }
}

} // verus!
