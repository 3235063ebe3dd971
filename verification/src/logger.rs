//! The logger facade: one installable configuration, a mutable maximum
//! severity, and the level-aware emission entry points, two of which
//! escalate the maximum.
//!
//! The facade makes every emission decision and renders the line; actually
//! writing an `Emission` to its sink is the caller's I/O.

use vstd::prelude::*;
use crate::record::{simple_record, LogRecord, RecordView};
use crate::severity::{enabled_spec, Severity};
use crate::sink::{sink_matches, Sink};
use crate::template::{render, render_spec};
use crate::text::push_char;

verus! {

/// Why a logger call failed.
#[derive(Clone, Copy, Debug, PartialEq, Eq, Structural)]
pub enum MinilogError {
    /// A configuration was already installed by an earlier `init`.
    AlreadyInitialized,
    /// `log_or_panic` was asked to emit above the configured maximum.
    LevelTooLow,
}

/// The part of the logger that is immutable after `init`: where to write
/// and how to render.
#[derive(Clone, Debug, PartialEq, Eq)]
pub struct LoggerConfig {
    pub sink: Sink,
    pub template: String,
}

/// One rendered record on its way out: the line, terminated by a newline,
/// and the sink it is bound for.
#[derive(Clone, Debug, PartialEq, Eq)]
pub struct Emission {
    pub sink: Sink,
    pub line: String,
}

/// What an emission must be when record `rec` is accepted under
/// configuration `c`.
pub open spec fn emission_for(c: LoggerConfig, rec: RecordView, e: Emission) -> bool {
    &&& e.sink == c.sink
    &&& e.line@ == render_spec(c.template@, rec).push('\n')
}

/// The logger: the current maximum severity and the installed
/// configuration, if any.
pub struct Minilog {
    pub max_level: Severity,
    pub config: Option<LoggerConfig>,
}

impl Minilog {
    /// A logger with no configuration installed and logging off.
    pub fn new() -> (r: Minilog)
        ensures
            r.max_level == Severity::Off,
            r.config is None,
    {
        Minilog { max_level: Severity::Off, config: None }
    }

    /// Install the single configuration: resolve the sink descriptor,
    /// keep the template, and set the maximum severity. A second call
    /// fails with `AlreadyInitialized` and changes nothing.
    pub fn init(&mut self, level: Severity, sink_descriptor: &str, template: &str) -> (r: Result<
        (),
        MinilogError,
    >)
        ensures
            old(self).config is Some ==> {
                &&& r == Err::<(), MinilogError>(MinilogError::AlreadyInitialized)
                &&& *final(self) == *old(self)
            },
            old(self).config is None ==> {
                &&& r == Ok::<(), MinilogError>(())
                &&& final(self).max_level == level
                &&& final(self).config matches Some(c) && c.template@ == template@
                    && sink_matches(c.sink, sink_descriptor@)
            },
    {
        if self.config.is_some() {
            return Err(MinilogError::AlreadyInitialized);
        }
        let sink = Sink::from_descriptor(sink_descriptor);
        self.config = Some(LoggerConfig { sink, template: template.to_owned() });
        self.max_level = level;
        Ok(())
    }

    /// Install the default configuration: the file `logs.txt`, the
    /// template `{level}: {msg}`, and maximum severity `Trace`.
    pub fn init_default(&mut self) -> (r: Result<(), MinilogError>)
        ensures
            old(self).config is Some ==> {
                &&& r == Err::<(), MinilogError>(MinilogError::AlreadyInitialized)
                &&& *final(self) == *old(self)
            },
            old(self).config is None ==> {
                &&& r == Ok::<(), MinilogError>(())
                &&& final(self).max_level == Severity::Trace
                &&& final(self).config matches Some(c) && ({
                    &&& c.template@ == "{level}: {msg}"@
                    &&& c.sink matches Sink::File(p) && p@ == "logs.txt"@
                })
            },
    {
        if self.config.is_some() {
            return Err(MinilogError::AlreadyInitialized);
        }
        self.config = Some(
            LoggerConfig {
                sink: Sink::File("logs.txt".to_owned()),
                template: "{level}: {msg}".to_owned(),
            },
        );
        self.max_level = Severity::Trace;
        Ok(())
    }

    /// Replace the maximum severity; always succeeds, and every later
    /// check sees the new value.
    pub fn set_log_level(&mut self, level: Severity)
        ensures
            final(self).max_level == level,
            final(self).config == old(self).config,
    {
        self.max_level = level;
    }

    /// Whether a record at `level` would currently be emitted.
    pub fn enabled(&self, level: Severity) -> (r: bool)
        ensures
            r == enabled_spec(level, self.max_level),
    {
        level.at_most(self.max_level)
    }

    /// Decide one record: a suppressed severity yields nothing, and so
    /// does a missing configuration; an accepted record yields its
    /// rendered line, newline-terminated, bound for the configured sink.
    pub fn log(&self, record: &LogRecord) -> (r: Option<Emission>)
        ensures
            !enabled_spec(record.level, self.max_level) ==> r is None,
            enabled_spec(record.level, self.max_level) ==> match self.config {
                Some(c) => r matches Some(e) && emission_for(c, record@, e),
                None => r is None,
            },
    {
        if !self.enabled(record.level) {
            return None;
        }
        match &self.config {
            Some(c) => {
                let mut line: String = render(c.template.as_str(), record);
                push_char(&mut line, '\n');
                Some(Emission { sink: c.sink.duplicate(), line })
            },
            None => None,
        }
    }

    /// Emit at `level`, or fail: a severity above the current maximum is a
    /// caller contract violation answered with `LevelTooLow` in place of a
    /// line. An enabled record without an installed configuration goes
    /// nowhere (`Ok(None)`), the way a facade with no backend registered
    /// drops a record.
    pub fn log_or_panic(&self, level: Severity, msg: &str) -> (r: Result<
        Option<Emission>,
        MinilogError,
    >)
        ensures
            !enabled_spec(level, self.max_level) ==> r == Err::<Option<Emission>, MinilogError>(
                MinilogError::LevelTooLow,
            ),
            enabled_spec(level, self.max_level) ==> match self.config {
                Some(c) => r matches Ok(Some(e)) && emission_for(
                    c,
                    simple_record(level, msg@),
                    e,
                ),
                None => r == Ok::<Option<Emission>, MinilogError>(None),
            },
    {
        if !self.enabled(level) {
            return Err(MinilogError::LevelTooLow);
        }
        let record = LogRecord::simple(level, msg);
        Ok(self.log(&record))
    }

    /// Emit at `level`, first raising the maximum severity to `level`,
    /// permanently, when `level` is not currently enabled.
    pub fn log_upgrade(&mut self, level: Severity, msg: &str) -> (r: Option<Emission>)
        ensures
            final(self).config == old(self).config,
            final(self).max_level == if enabled_spec(level, old(self).max_level) {
                old(self).max_level
            } else {
                level
            },
            match old(self).config {
                Some(c) => r matches Some(e) && emission_for(c, simple_record(level, msg@), e),
                None => r is None,
            },
    {
        if !self.enabled(level) {
            self.max_level = level;
        }
        let record = LogRecord::simple(level, msg);
        self.log(&record)
    }

    /// Emit at `level` only when `level` is not currently enabled: save
    /// the maximum, escalate and emit through `log_upgrade`, restore the
    /// maximum. When `level` is already enabled the call is a no-op and
    /// emits nothing — the asymmetry of the escalation path is deliberate
    /// and kept.
    pub fn log_upgrade_temp(&mut self, level: Severity, msg: &str) -> (r: Option<Emission>)
        ensures
            *final(self) == *old(self),
            enabled_spec(level, old(self).max_level) ==> r is None,
            !enabled_spec(level, old(self).max_level) ==> match old(self).config {
                Some(c) => r matches Some(e) && emission_for(c, simple_record(level, msg@), e),
                None => r is None,
            },
    {
        if !self.enabled(level) {
            let saved: Severity = self.max_level;
            let r = self.log_upgrade(level, msg);
            self.set_log_level(saved);
            r
        } else {
            None
        }
    }

    /// The current maximum severity; `None` when logging is fully off.
    pub fn log_level(&self) -> (r: Option<Severity>)
        ensures
            r == if self.max_level == Severity::Off {
                None::<Severity>
            } else {
                Some(self.max_level)
            },
    {
        if self.max_level == Severity::Off {
            None
        } else {
            Some(self.max_level)
        }
    }
}

} // verus!
