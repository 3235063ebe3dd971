//! Log severities and the level gate: a record is enabled when its severity
//! is at most the configured maximum, in the `Off < Error < Warn < Info <
//! Debug < Trace` order.

use vstd::prelude::*;

verus! {

/// A log severity, from least to most verbose.
///
/// `Off` is the sentinel that disables all logging when used as the maximum;
/// as a record severity it is the minimum and is never suppressed.
#[derive(Clone, Copy, Debug, PartialEq, Eq, Structural, Hash)]
pub enum Severity {
    Off,
    Error,
    Warn,
    Info,
    Debug,
    Trace,
}

impl Severity {
    /// Position of this severity in the `Off < Error < ... < Trace` order.
    pub open spec fn rank(self) -> int {
        match self {
            Severity::Off => 0,
            Severity::Error => 1,
            Severity::Warn => 2,
            Severity::Info => 3,
            Severity::Debug => 4,
            Severity::Trace => 5,
        }
    }

    /// Executable form of `rank`.
    pub fn rank_u8(self) -> (r: u8)
        ensures
            r as int == self.rank(),
    {
        match self {
            Severity::Off => 0,
            Severity::Error => 1,
            Severity::Warn => 2,
            Severity::Info => 3,
            Severity::Debug => 4,
            Severity::Trace => 5,
        }
    }

    /// `self <= other` in the severity order.
    pub fn at_most(self, other: Severity) -> (r: bool)
        ensures
            r == (self.rank() <= other.rank()),
    {
        self.rank_u8() <= other.rank_u8()
    }

    /// The display label of a severity, as substituted for `{level}`.
    pub open spec fn label_spec(self) -> Seq<char> {
        match self {
            Severity::Off => "OFF"@,
            Severity::Error => "ERROR"@,
            Severity::Warn => "WARN"@,
            Severity::Info => "INFO"@,
            Severity::Debug => "DEBUG"@,
            Severity::Trace => "TRACE"@,
        }
    }

    /// Executable form of `label_spec`.
    pub fn label(self) -> (r: &'static str)
        ensures
            r@ == self.label_spec(),
    {
        match self {
            Severity::Off => "OFF",
            Severity::Error => "ERROR",
            Severity::Warn => "WARN",
            Severity::Info => "INFO",
            Severity::Debug => "DEBUG",
            Severity::Trace => "TRACE",
        }
    }
}

/// A record at severity `level` is enabled under maximum `max`.
pub open spec fn enabled_spec(level: Severity, max: Severity) -> bool {
    level.rank() <= max.rank()
}

/// Setting the maximum to `b` enables every severity at or below `b` and
/// suppresses every severity above it.
pub proof fn lemma_gate_monotone(a: Severity, b: Severity, c: Severity)
    requires
        a.rank() <= b.rank(),
        c.rank() > b.rank(),
    ensures
        enabled_spec(a, b),
        !enabled_spec(c, b),
{
}

} // verus!
