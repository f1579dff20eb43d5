//! Severity levels: an ordered, closed set of message tiers.
//!
//! The ordering `NOTSET < DEBUG < INFO < WARNING < ERROR < CRITICAL` is
//! fixed; comparisons against it are the sole mechanism for filter
//! decisions. `NOTSET` doubles as the most-verbose tier: a trace-level
//! message carries it, and a filter minimum of `NOTSET` admits everything.

use vstd::prelude::*;
use vstd::string::StringExecFns;

verus! {

/// True exactly when the two slices hold the same characters.
pub fn str_eq(a: &str, b: &str) -> (r: bool)
    ensures
        r == (a@ == b@),
{
    let sa = String::from_str(a);
    let sb = String::from_str(b);
    sa == sb
}

/// A message severity tier.
#[derive(Clone, Copy, PartialEq, Eq, Structural, Debug)]
pub enum Level {
    NOTSET,
    DEBUG,
    INFO,
    WARNING,
    ERROR,
    CRITICAL,
}

impl Level {
    /// Position of this level in the fixed severity order.
    pub open spec fn ord(self) -> int {
        match self {
            Level::NOTSET => 0,
            Level::DEBUG => 1,
            Level::INFO => 2,
            Level::WARNING => 3,
            Level::ERROR => 4,
            Level::CRITICAL => 5,
        }
    }

    /// Executable rank, equal to the specification-level order.
    pub fn rank(self) -> (r: u8)
        ensures
            r as int == self.ord(),
    {
        match self {
            Level::NOTSET => 0,
            Level::DEBUG => 1,
            Level::INFO => 2,
            Level::WARNING => 3,
            Level::ERROR => 4,
            Level::CRITICAL => 5,
        }
    }

    /// True when this level is at least as severe as `other`.
    pub fn at_least(self, other: Level) -> (r: bool)
        ensures
            r == (self.ord() >= other.ord()),
    {
        self.rank() >= other.rank()
    }

    /// Level a recognized name denotes; every other name falls back to `DEBUG`.
    pub open spec fn spec_parse(text: Seq<char>) -> Level {
        if text == "DEBUG"@ {
            Level::DEBUG
        } else if text == "INFO"@ {
            Level::INFO
        } else if text == "WARNING"@ {
            Level::WARNING
        } else {
            Level::DEBUG
        }
    }

    /// Whether parsing a name falls back because the name is unrecognized.
    pub open spec fn spec_parse_fallback(text: Seq<char>) -> bool {
        text != "DEBUG"@ && text != "INFO"@ && text != "WARNING"@
    }

    /// Maps the case-sensitive names `DEBUG`, `INFO`, `WARNING` to their
    /// levels. Any other text yields `DEBUG` together with `true` in the
    /// second slot, so the caller can surface a fallback notice; parsing
    /// never fails outright.
    pub fn parse(text: &str) -> (r: (Level, bool))
        ensures
            r.0 == Level::spec_parse(text@),
            r.1 == Level::spec_parse_fallback(text@),
    {
        if str_eq(text, "DEBUG") {
            (Level::DEBUG, false)
        } else if str_eq(text, "INFO") {
            (Level::INFO, false)
        } else if str_eq(text, "WARNING") {
            (Level::WARNING, false)
        } else {
            (Level::DEBUG, true)
        }
    }
}

} // verus!
