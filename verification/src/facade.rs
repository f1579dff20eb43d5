//! The facade: the handle a host embeds.
//!
//! Construction binds a verbosity count to a filter policy behind a
//! console-only dispatcher. Per-severity entry points stamp the current
//! time, hand the event to the dispatcher, and — for `info` — also
//! mirror the raw message to the facade's own file sink, an intentional
//! double-delivery that lets the file receive exactly the messages
//! routed through `info`, independent of the global filter. Level and
//! pattern setters mutate facade-held metadata only: they never alter
//! the already-built filter policy.

use vstd::prelude::*;
use vstd::string::StringExecFns;
use crate::dispatch::{lines_match, sink_silent, Dispatcher, EmitReport};
use crate::level::Level;
use crate::policy::{admits_at, FilterPolicy};
use crate::sink::{AttachError, FileLogger, WriteStatus};

verus! {

/// Name of the high-volume target the staircase caps at low verbosity.
pub open spec fn spec_busy_target() -> Seq<char> {
    "overly-verbose-target"@
}

/// Name of the high-volume target the staircase caps at low verbosity.
pub fn busy_target() -> (r: &'static str)
    ensures
        r@ == spec_busy_target(),
{
    "overly-verbose-target"
}

/// The default timestamp pattern.
pub open spec fn spec_date_format() -> Seq<char> {
    "[%Y-%m-%d][%H:%M:%S]"@
}

/// The default timestamp pattern.
pub fn date_format() -> (r: &'static str)
    ensures
        r@ == spec_date_format(),
{
    "[%Y-%m-%d][%H:%M:%S]"
}

/// Relies on chrono::Local::now and chrono::DateTime::format_with_items
/// over chrono's lenient pattern parser, which turns an invalid or
/// unrecognized specifier into literal text instead of an error item:
/// any pattern yields text, never a crash.
#[verifier::external_body]
fn now_text(pattern: &str) -> String {
    let items = chrono::format::StrftimeItems::new_lenient(pattern);
    format!("{}", chrono::Local::now().format_with_items(items))
}

/// The facade's named destinations. A JSON handler is a possible later
/// extension; only the file handler exists.
#[allow(non_snake_case)]
pub struct Handlers {
    pub FileHandler: FileLogger,
}

impl Handlers {
    /// Fresh handlers: a disabled file sink. The flags are accepted for
    /// interface stability and have no effect yet.
    pub fn new(json: bool, file: bool) -> (r: Handlers)
        ensures
            !r.FileHandler.enabled,
            r.FileHandler.path@ == "default.log"@,
    {
        let _ = json;
        let _ = file;
        Handlers { FileHandler: FileLogger::new() }
    }
}

/// Level a numeric tier denotes; every code outside 1..=3 falls back to
/// `DEBUG`.
pub open spec fn spec_tier_level(verbosity: u8) -> Level {
    if verbosity == 1 {
        Level::DEBUG
    } else if verbosity == 2 {
        Level::INFO
    } else if verbosity == 3 {
        Level::WARNING
    } else {
        Level::DEBUG
    }
}

/// The process-facing logger: a filter policy bound at construction, a
/// console chain, an optional mirrored file sink, and display metadata.
pub struct Soda {
    /// Facade-held level marker; display metadata, not the filter.
    pub level: Level,
    /// Preferred timestamp pattern for new records.
    pub format: String,
    /// The facade's own named destinations.
    pub handlers: Handlers,
    /// The global chain: filter policy plus ordered sinks.
    pub dispatcher: Dispatcher,
}

impl Soda {
    pub open spec fn wf(self) -> bool {
        self.dispatcher.wf()
    }

    /// Builds the facade for a verbosity count: the staircase policy
    /// behind a console-only dispatcher, an unset level marker, an empty
    /// pattern, and a disabled file handler. No file is touched until
    /// one is explicitly attached.
    pub fn new(verbosity: u64) -> (r: Soda)
        ensures
            r.wf(),
            r.level == Level::NOTSET,
            r.format@ == Seq::<char>::empty(),
            !r.handlers.FileHandler.enabled,
            r.handlers.FileHandler.path@ == "default.log"@,
            r.dispatcher.sinks@.len() == 1,
            forall|s: Level, t: Seq<char>|
                r.dispatcher.policy.spec_admits(s, t) == admits_at(verbosity, spec_busy_target(), s, t),
    {
        let policy = FilterPolicy::build(verbosity, busy_target());
        Soda {
            level: Level::NOTSET,
            format: String::new(),
            handlers: Handlers::new(false, false),
            dispatcher: Dispatcher::new(policy),
        }
    }

    /// Stores the preferred pattern; nothing else changes.
    #[allow(non_snake_case)]
    pub fn setFormat(&mut self, format: &str)
        ensures
            final(self).format@ == format@,
            final(self).level == old(self).level,
            final(self).handlers == old(self).handlers,
            final(self).dispatcher == old(self).dispatcher,
    {
        self.format = String::from_str(format);
    }

    /// Reconfigures the global chain: stores the timestamp pattern and
    /// rebuilds the chain as the console sink alone, under the policy
    /// bound at construction. The facade's own file handler is not
    /// touched.
    #[allow(non_snake_case)]
    pub fn basicConfig(&mut self, dtFormat: &str)
        requires
            old(self).wf(),
        ensures
            final(self).wf(),
            final(self).format@ == dtFormat@,
            final(self).level == old(self).level,
            final(self).handlers == old(self).handlers,
            final(self).dispatcher.policy == old(self).dispatcher.policy,
            final(self).dispatcher.sinks@.len() == 1,
    {
        self.format = String::from_str(dtFormat);
        self.dispatcher.reset_sinks();
    }

    /// Stamps the current time under the preferred pattern and hands
    /// the event to the dispatcher: filtered once, then fanned out with
    /// one report per sink. Some timestamp text renders every line.
    pub fn log_event(&self, severity: Level, target: &str, message: &str) -> (r: EmitReport)
        ensures
            r.admitted == self.dispatcher.policy.spec_admits(severity, target@),
            !r.admitted ==> r.reports@.len() == 0,
            r.admitted ==> r.reports@.len() == self.dispatcher.sinks@.len(),
            r.admitted ==> exists|ts: Seq<char>|
                #[trigger] lines_match(r.reports@, self.dispatcher.sinks@, ts, target@, severity, message@),
            r.admitted ==> forall|i: int| 0 <= i < self.dispatcher.sinks@.len() ==>
                ((#[trigger] r.reports@[i]).status == WriteStatus::Skipped)
                    == sink_silent(self.dispatcher.sinks@[i]),
    {
        let ts = now_text(self.format.as_str());
        let r = self.dispatcher.emit(severity, target, message, ts.as_str());
        proof {
            if r.admitted {
                assert(lines_match(r.reports@, self.dispatcher.sinks@, ts@, target@, severity, message@));
            }
        }
        r
    }

    /// Emits `message` at `INFO` with no target through the global
    /// chain, and also mirrors the raw message to the facade's own file
    /// sink — delivered twice by design when that sink is enabled.
    pub fn info(&self, message: &str) -> (r: (EmitReport, WriteStatus))
        ensures
            r.0.admitted == self.dispatcher.policy.spec_admits(Level::INFO, ""@),
            !r.0.admitted ==> r.0.reports@.len() == 0,
            r.0.admitted ==> r.0.reports@.len() == self.dispatcher.sinks@.len(),
            r.0.admitted ==> exists|ts: Seq<char>|
                #[trigger] lines_match(r.0.reports@, self.dispatcher.sinks@, ts, ""@, Level::INFO, message@),
            r.0.admitted ==> forall|i: int| 0 <= i < self.dispatcher.sinks@.len() ==>
                ((#[trigger] r.0.reports@[i]).status == WriteStatus::Skipped)
                    == sink_silent(self.dispatcher.sinks@[i]),
            (r.1 == WriteStatus::Skipped) == !self.handlers.FileHandler.enabled,
    {
        let report = self.log_event(Level::INFO, "", message);
        let mirror = self.callback(message);
        (report, mirror)
    }

    /// Hands the raw message to the file handler when it is enabled; a
    /// disabled handler skips without any I/O.
    pub fn callback(&self, message: &str) -> (r: WriteStatus)
        ensures
            (r == WriteStatus::Skipped) == !self.handlers.FileHandler.enabled,
    {
        match self.handlers.FileHandler.enabled {
            true => self.handlers.FileHandler.logger(message),
            false => WriteStatus::Skipped,
        }
    }

    /// Attaches the facade's file handler to `path`: on success it is
    /// enabled on exactly that path; on failure the whole facade is
    /// unchanged and the error is returned, never raised.
    #[allow(non_snake_case)]
    pub fn addFileHandler(&mut self, path: String) -> (r: Result<(), AttachError>)
        ensures
            matches!(r, Ok(())) ==> final(self).handlers.FileHandler.enabled
                && final(self).handlers.FileHandler.path@ == path@,
            matches!(r, Err(_)) ==> *final(self) == *old(self),
            final(self).level == old(self).level,
            final(self).format == old(self).format,
            final(self).dispatcher == old(self).dispatcher,
    {
        self.handlers.FileHandler.attach(path)
    }

    /// Emits `message` at `WARNING` with no target.
    pub fn warning(&mut self, message: &str) -> (r: EmitReport)
        ensures
            *final(self) == *old(self),
            r.admitted == old(self).dispatcher.policy.spec_admits(Level::WARNING, ""@),
            !r.admitted ==> r.reports@.len() == 0,
            r.admitted ==> r.reports@.len() == old(self).dispatcher.sinks@.len(),
            r.admitted ==> exists|ts: Seq<char>|
                #[trigger] lines_match(r.reports@, old(self).dispatcher.sinks@, ts, ""@, Level::WARNING, message@),
            r.admitted ==> forall|i: int| 0 <= i < old(self).dispatcher.sinks@.len() ==>
                ((#[trigger] r.reports@[i]).status == WriteStatus::Skipped)
                    == sink_silent(old(self).dispatcher.sinks@[i]),
    {
        self.log_event(Level::WARNING, "", message)
    }

    /// Emits `message` at `DEBUG` with no target.
    pub fn debug(&mut self, message: &str) -> (r: EmitReport)
        ensures
            *final(self) == *old(self),
            r.admitted == old(self).dispatcher.policy.spec_admits(Level::DEBUG, ""@),
            !r.admitted ==> r.reports@.len() == 0,
            r.admitted ==> r.reports@.len() == old(self).dispatcher.sinks@.len(),
            r.admitted ==> exists|ts: Seq<char>|
                #[trigger] lines_match(r.reports@, old(self).dispatcher.sinks@, ts, ""@, Level::DEBUG, message@),
            r.admitted ==> forall|i: int| 0 <= i < old(self).dispatcher.sinks@.len() ==>
                ((#[trigger] r.reports@[i]).status == WriteStatus::Skipped)
                    == sink_silent(old(self).dispatcher.sinks@[i]),
    {
        self.log_event(Level::DEBUG, "", message)
    }

    /// Emits `message` at the most verbose tier with no target.
    pub fn trace(&mut self, message: &str) -> (r: EmitReport)
        ensures
            *final(self) == *old(self),
            r.admitted == old(self).dispatcher.policy.spec_admits(Level::NOTSET, ""@),
            !r.admitted ==> r.reports@.len() == 0,
            r.admitted ==> r.reports@.len() == old(self).dispatcher.sinks@.len(),
            r.admitted ==> exists|ts: Seq<char>|
                #[trigger] lines_match(r.reports@, old(self).dispatcher.sinks@, ts, ""@, Level::NOTSET, message@),
            r.admitted ==> forall|i: int| 0 <= i < old(self).dispatcher.sinks@.len() ==>
                ((#[trigger] r.reports@[i]).status == WriteStatus::Skipped)
                    == sink_silent(old(self).dispatcher.sinks@[i]),
    {
        self.log_event(Level::NOTSET, "", message)
    }

    /// Emits `message` at `ERROR` with no target.
    pub fn error(&mut self, message: &str) -> (r: EmitReport)
        ensures
            *final(self) == *old(self),
            r.admitted == old(self).dispatcher.policy.spec_admits(Level::ERROR, ""@),
            !r.admitted ==> r.reports@.len() == 0,
            r.admitted ==> r.reports@.len() == old(self).dispatcher.sinks@.len(),
            r.admitted ==> exists|ts: Seq<char>|
                #[trigger] lines_match(r.reports@, old(self).dispatcher.sinks@, ts, ""@, Level::ERROR, message@),
            r.admitted ==> forall|i: int| 0 <= i < old(self).dispatcher.sinks@.len() ==>
                ((#[trigger] r.reports@[i]).status == WriteStatus::Skipped)
                    == sink_silent(old(self).dispatcher.sinks@[i]),
    {
        self.log_event(Level::ERROR, "", message)
    }

    /// Sets the level marker from a numeric tier: 1, 2 and 3 denote
    /// `DEBUG`, `INFO` and `WARNING`; any other code falls back to
    /// `DEBUG`, and the returned flag says so, so the caller can surface
    /// a notice. Nothing is ever raised, and the filter policy is not
    /// altered.
    #[allow(non_snake_case)]
    pub fn setLevel(&mut self, verbosity: u8) -> (fallback: bool)
        ensures
            final(self).level == spec_tier_level(verbosity),
            fallback == !(1 <= verbosity && verbosity <= 3),
            final(self).format == old(self).format,
            final(self).handlers == old(self).handlers,
            final(self).dispatcher == old(self).dispatcher,
    {
        match verbosity {
            1 => {
                self.level = Level::DEBUG;
                false
            },
            2 => {
                self.level = Level::INFO;
                false
            },
            3 => {
                self.level = Level::WARNING;
                false
            },
            _ => {
                self.level = Level::DEBUG;
                true
            },
        }
    }

    /// Sets the level marker from a level name: `DEBUG`, `INFO` and
    /// `WARNING` are recognized case-sensitively; any other text falls
    /// back to `DEBUG`, and the returned flag says so. Nothing is ever
    /// raised, and the filter policy is not altered.
    #[allow(non_snake_case)]
    pub fn setLevelName(&mut self, name: &str) -> (fallback: bool)
        ensures
            final(self).level == Level::spec_parse(name@),
            fallback == Level::spec_parse_fallback(name@),
            final(self).format == old(self).format,
            final(self).handlers == old(self).handlers,
            final(self).dispatcher == old(self).dispatcher,
    {
        let (level, fb) = Level::parse(name);
        self.level = level;
        fb
    }
}

} // verus!
