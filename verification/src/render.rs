//! Rule-based line formatting.
//!
//! A formatter is a pure function from (timestamp text, target, severity,
//! message) to an output line. Two shapes exist: a plain single line, and
//! a multi-line emphasized block for unattributed messages that are more
//! verbose than `INFO`. The shape is selected by an explicit decision
//! rule on the event, not by sink identity, and an empty message still
//! produces the full line or block.

use vstd::prelude::*;
use vstd::string::StringExecFns;
use crate::level::Level;

verus! {

/// The rendering shape chosen for one record.
#[derive(Clone, Copy, PartialEq, Eq, Structural, Debug)]
pub enum FormatShape {
    /// One line: `[<timestamp>][<target>][<severity-name>] <message>`.
    Plain,
    /// A fenced block: `---`, `DEBUG: <timestamp>: <message>`, `---`.
    Emphasized,
}

/// Display name of a severity level.
pub open spec fn spec_level_name(l: Level) -> Seq<char> {
    match l {
        Level::NOTSET => "NOTSET"@,
        Level::DEBUG => "DEBUG"@,
        Level::INFO => "INFO"@,
        Level::WARNING => "WARNING"@,
        Level::ERROR => "ERROR"@,
        Level::CRITICAL => "CRITICAL"@,
    }
}

/// Display name of a severity level.
pub fn level_name(l: Level) -> (r: &'static str)
    ensures
        r@ == spec_level_name(l),
{
    match l {
        Level::NOTSET => "NOTSET",
        Level::DEBUG => "DEBUG",
        Level::INFO => "INFO",
        Level::WARNING => "WARNING",
        Level::ERROR => "ERROR",
        Level::CRITICAL => "CRITICAL",
    }
}

/// Decision rule for the shape: the emphasized block is used exactly for
/// messages strictly more verbose than `INFO` that carry no target.
pub open spec fn spec_shape(severity: Level, target: Seq<char>) -> FormatShape {
    if severity.ord() < Level::INFO.ord() && target.len() == 0 {
        FormatShape::Emphasized
    } else {
        FormatShape::Plain
    }
}

/// Selects the rendering shape for one record.
pub fn shape_for(severity: Level, target: &str) -> (r: FormatShape)
    ensures
        r == spec_shape(severity, target@),
{
    if severity.rank() < Level::INFO.rank() && target.unicode_len() == 0 {
        FormatShape::Emphasized
    } else {
        FormatShape::Plain
    }
}

/// The plain single-line rendering.
pub open spec fn spec_plain_line(ts: Seq<char>, target: Seq<char>, severity: Level, message: Seq<char>) -> Seq<char> {
    "["@ + ts + "]["@ + target + "]["@ + spec_level_name(severity) + "] "@ + message
}

/// The multi-line emphasized block rendering.
pub open spec fn spec_block(ts: Seq<char>, message: Seq<char>) -> Seq<char> {
    "---\nDEBUG: "@ + ts + ": "@ + message + "\n---"@
}

/// The line produced for one record: the emphasized block when the
/// decision rule selects it, the plain line otherwise.
pub open spec fn spec_render(ts: Seq<char>, target: Seq<char>, severity: Level, message: Seq<char>) -> Seq<char> {
    if spec_shape(severity, target) == FormatShape::Emphasized {
        spec_block(ts, message)
    } else {
        spec_plain_line(ts, target, severity, message)
    }
}

/// Renders one record to its output line. The timestamp text is taken
/// as given; an empty message still yields the full line or block.
pub fn render_line(ts: &str, target: &str, severity: Level, message: &str) -> (r: String)
    ensures
        r@ == spec_render(ts@, target@, severity, message@),
{
    match shape_for(severity, target) {
        FormatShape::Emphasized => {
            let mut out = String::from_str("---\nDEBUG: ");
            out.append(ts);
            out.append(": ");
            out.append(message);
            out.append("\n---");
            out
        },
        FormatShape::Plain => {
            let mut out = String::from_str("[");
            out.append(ts);
            out.append("][");
            out.append(target);
            out.append("][");
            out.append(level_name(severity));
            out.append("] ");
            out.append(message);
            out
        },
    }
}

} // verus!
