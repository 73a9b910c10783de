//! Leveled log events, one per line of the child's output.

use vstd::prelude::*;

verus! {

/// Severity attached to a forwarded line.
#[derive(Clone, Copy, Debug, PartialEq, Eq, Structural)]
pub enum LogLevel {
    Info,
    Error,
}

impl LogLevel {
    /// The level's name as the user interface receives it.
    pub open spec fn name(self) -> Seq<char> {
        match self {
            LogLevel::Info => "info"@,
            LogLevel::Error => "error"@,
        }
    }

    /// Returns the level's name: `"info"` or `"error"`.
    pub fn as_str(&self) -> (text: &'static str)
        ensures
            text@ == self.name(),
    {
        match self {
            LogLevel::Info => "info",
            LogLevel::Error => "error",
        }
    }
}

/// The two output streams of the child process.
#[derive(Clone, Copy, Debug, PartialEq, Eq, Structural)]
pub enum OutputStream {
    Stdout,
    Stderr,
}

impl OutputStream {
    /// The level under which every line of this stream is forwarded:
    /// standard output is informational, standard error is an error.
    pub open spec fn level_of(self) -> LogLevel {
        match self {
            OutputStream::Stdout => LogLevel::Info,
            OutputStream::Stderr => LogLevel::Error,
        }
    }

    /// Returns the level under which this stream's lines are forwarded.
    pub fn level(&self) -> (level: LogLevel)
        ensures
            level == self.level_of(),
    {
        match self {
            OutputStream::Stdout => LogLevel::Info,
            OutputStream::Stderr => LogLevel::Error,
        }
    }
}

/// A log event as the contracts speak of it: the text of one line and its level.
pub struct LogEvent {
    pub message: Seq<char>,
    pub level: LogLevel,
}

/// The payload published for one forwarded line.
#[derive(Debug)]
pub struct LogPayload {
    pub msg: String,
    pub level: LogLevel,
}

impl View for LogPayload {
    type V = LogEvent;

    open spec fn view(&self) -> LogEvent {
        LogEvent { message: self.msg@, level: self.level }
    }
}

impl LogPayload {
    /// The name of the channel on which payloads are published.
    pub open spec fn channel() -> Seq<char> {
        "log"@
    }

    /// Returns the name of the channel on which payloads are published: `"log"`.
    pub fn event_name() -> (name: &'static str)
        ensures
            name@ == Self::channel(),
    {
        "log"
    }

    /// Builds the payload for one line: the line's text, unchanged, under `level`.
    pub fn new(msg: String, level: LogLevel) -> (payload: LogPayload)
        ensures
            payload@ == (LogEvent { message: msg@, level }),
    {
        LogPayload { msg, level }
    }
}

} // verus!
