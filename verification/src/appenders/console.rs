//! The console sink's settings and the line it writes.

use vstd::prelude::*;
use vstd::string::StringExecFns;
use crate::log_entry::LogEntry;
use crate::log_level::LogLevel;

verus! {

/// Where the console sink writes a record.
#[derive(Debug, Clone, Copy, PartialEq, Eq, Structural)]
pub enum ConsoleStream {
    Stdout,
    Stderr,
}

/// The settings of the sink that writes to the terminal.
#[derive(Debug, Clone, Copy, PartialEq, Eq, Structural)]
pub struct ConsoleAppender {
    use_colors: bool,
}

/// The name of a severity filled with spaces to five characters.
pub open spec fn padded_name(level: LogLevel) -> Seq<char> {
    match level {
        LogLevel::Trace => "TRACE"@,
        LogLevel::Debug => "DEBUG"@,
        LogLevel::Info => "INFO "@,
        LogLevel::Warn => "WARN "@,
        LogLevel::Error => "ERROR"@,
        LogLevel::Fatal => "FATAL"@,
    }
}

/// The stream that a record of the given severity goes to: `Error` and
/// `Fatal` to the error stream, the others to the output stream.
pub open spec fn stream_of(level: LogLevel) -> ConsoleStream {
    if level == LogLevel::Error || level == LogLevel::Fatal {
        ConsoleStream::Stderr
    } else {
        ConsoleStream::Stdout
    }
}

/// The line for a record: time, severity, thread and message.
pub open spec fn console_line(time: Seq<char>, level_text: Seq<char>, entry: LogEntry) -> Seq<char> {
    "["@ + time + "] ["@ + level_text + "] "@ + entry.thread_label() + " - "@ + entry.message@
}

/// The name of a severity filled with spaces to five characters.
pub fn padded_level(level: LogLevel) -> (r: &'static str)
    ensures
        r@ == padded_name(level),
{
    match level {
        LogLevel::Trace => "TRACE",
        LogLevel::Debug => "DEBUG",
        LogLevel::Info => "INFO ",
        LogLevel::Warn => "WARN ",
        LogLevel::Error => "ERROR",
        LogLevel::Fatal => "FATAL",
    }
}

impl ConsoleAppender {
    /// Whether severities are written in colour.
    pub closed spec fn colors(self) -> bool {
        self.use_colors
    }

    /// A console sink that writes severities in colour.
    pub fn new() -> (r: ConsoleAppender)
        ensures
            r.colors(),
    {
        ConsoleAppender { use_colors: true }
    }

    /// A console sink that writes severities in colour or plainly.
    pub fn with_colors(use_colors: bool) -> (r: ConsoleAppender)
        ensures
            r.colors() == use_colors,
    {
        ConsoleAppender { use_colors }
    }

    /// Whether severities are written in colour.
    pub fn uses_colors(&self) -> (r: bool)
        ensures
            r == self.colors(),
    {
        self.use_colors
    }

    /// The stream that a record of the given severity goes to.
    pub fn stream_for(&self, level: LogLevel) -> (r: ConsoleStream)
        ensures
            r == stream_of(level),
    {
        match level {
            LogLevel::Error | LogLevel::Fatal => ConsoleStream::Stderr,
            _ => ConsoleStream::Stdout,
        }
    }

    /// The line for a record, given the text of its time and the text of its
    /// severity as the terminal is to show it.
    pub fn format_line(&self, time: &str, level_text: &str, entry: &LogEntry) -> (r: String)
        ensures
            r@ == console_line(time@, level_text@, *entry),
    {
        let mut out = "[".to_owned();
        out.append(time);
        out.append("] [");
        out.append(level_text);
        out.append("] ");
        out.append(entry.thread_display());
        out.append(" - ");
        out.append(entry.message.as_str());
        out
    }

    /// The name of the sink.
    pub fn name(&self) -> (r: &'static str)
        ensures
            r@ == "console"@,
    {
        "console"
    }
}

impl Default for ConsoleAppender {
    fn default() -> (r: ConsoleAppender)
        ensures
            r.colors(),
    {
        ConsoleAppender::new()
    }
}

} // verus!
