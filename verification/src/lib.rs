//! A lightweight structured-logging core: severity-ordered levels, a
//! per-target filter policy, rule-based line formatting, console and
//! lazy append-only file sinks, and a dispatcher that filters once and
//! fans a passing event out to every attached sink.

pub mod dispatch;
pub mod facade;
pub mod level;
pub mod policy;
pub mod render;
pub mod sink;

pub use dispatch::{Dest, Dispatcher, EmitReport, Sink, SinkFormat, SinkReport};
pub use facade::{busy_target, date_format, Handlers, Soda};
pub use level::Level;
pub use policy::FilterPolicy;
pub use render::{level_name, render_line, shape_for, FormatShape};
pub use sink::{attach_outcome, AttachError, FileLogger, Probe, WriteStatus};
