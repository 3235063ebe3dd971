//! Output destinations and their resolution from a sink descriptor string.

use vstd::prelude::*;
use crate::text::str_eq;

verus! {

/// A resolved output destination: one of the two standard streams, or a
/// filesystem path written in append-and-create mode, one line per write.
#[derive(Clone, Debug, PartialEq, Eq)]
pub enum Sink {
    StandardOutput,
    StandardError,
    File(String),
}

/// `s` is the sink named by descriptor `d`: the reserved literals
/// `stdout` and `stderr` name the standard streams, and any other string
/// is a file path.
pub open spec fn sink_matches(s: Sink, d: Seq<char>) -> bool {
    if d == "stdout"@ {
        s is StandardOutput
    } else if d == "stderr"@ {
        s is StandardError
    } else {
        s matches Sink::File(p) && p@ == d
    }
}

impl Sink {
    /// Resolve a sink descriptor, once, at configuration time.
    pub fn from_descriptor(d: &str) -> (s: Sink)
        ensures
            sink_matches(s, d@),
    {
        if str_eq(d, "stdout") {
            Sink::StandardOutput
        } else if str_eq(d, "stderr") {
            Sink::StandardError
        } else {
            Sink::File(d.to_owned())
        }
    }

    /// An equal copy of this sink.
    pub fn duplicate(&self) -> (s: Sink)
        ensures
            s == *self,
    {
        match self {
            Sink::StandardOutput => Sink::StandardOutput,
            Sink::StandardError => Sink::StandardError,
            Sink::File(p) => Sink::File(p.clone()),
        }
    }
}

} // verus!
