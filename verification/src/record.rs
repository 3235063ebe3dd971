//! Log records: severity, message text, and independently optional source
//! metadata.

use vstd::prelude::*;
use crate::severity::Severity;

verus! {

/// One candidate log record.
///
/// The metadata fields are independently optional; an absent text field
/// renders as the empty string, an absent line number as `0`.
#[derive(Clone, Debug, PartialEq, Eq)]
pub struct LogRecord {
    pub level: Severity,
    pub msg: String,
    pub mod_path: Option<String>,
    pub file: Option<String>,
    pub line: Option<u32>,
}

/// The mathematical content of a `LogRecord`.
pub ghost struct RecordView {
    pub level: Severity,
    pub msg: Seq<char>,
    pub mod_path: Option<Seq<char>>,
    pub file: Option<Seq<char>>,
    pub line: Option<u32>,
}

impl View for LogRecord {
    type V = RecordView;

    open spec fn view(&self) -> RecordView {
        RecordView {
            level: self.level,
            msg: self.msg@,
            mod_path: match self.mod_path {
                Some(s) => Some(s@),
                None => None,
            },
            file: match self.file {
                Some(s) => Some(s@),
                None => None,
            },
            line: self.line,
        }
    }
}

impl LogRecord {
    /// A record of a severity and a message alone, without source metadata:
    /// what the logger facade builds for its entry points.
    pub fn simple(level: Severity, msg: &str) -> (r: LogRecord)
        ensures
            r@ == simple_record(level, msg@),
    {
        LogRecord { level, msg: msg.to_owned(), mod_path: None, file: None, line: None }
    }
}

/// The view of a record carrying only a severity and a message.
pub open spec fn simple_record(level: Severity, msg: Seq<char>) -> RecordView {
    RecordView { level, msg, mod_path: None, file: None, line: None }
}

} // verus!
