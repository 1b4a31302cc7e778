//! The line that the file sink and the network sink write for a record.

use vstd::prelude::*;
use vstd::string::StringExecFns;
use crate::appenders::console::{padded_level, padded_name};
use crate::log_context::{fields_text, LogContext};
use crate::log_entry::LogEntry;
use crate::text::{decimal_digits, push_decimal};
use crate::timestamp::chrono_pattern_text;

verus! {

/// The `strftime` pattern in which the sinks write the time of a record: date,
/// time and milliseconds.
pub open spec fn sink_time_pattern() -> Seq<char> {
    "%Y-%m-%d %H:%M:%S%.3f"@
}

/// The `strftime` pattern in which the sinks write the time of a record.
pub fn time_pattern() -> (r: &'static str)
    ensures
        r@ == sink_time_pattern(),
{
    "%Y-%m-%d %H:%M:%S%.3f"
}

/// The time of a record as the sinks write it, or `None` where `chrono`
/// cannot write it.
pub open spec fn sink_time_text(entry: LogEntry) -> Option<Seq<char>> {
    chrono_pattern_text(
        entry.timestamp.secs() as i64,
        entry.timestamp.nanos() as u32,
        sink_time_pattern(),
    )
}

/// The time of a record as the sinks write it.
pub fn sink_time(entry: &LogEntry) -> (r: Option<String>)
    ensures
        r is Some <==> sink_time_text(*entry) is Some,
        r is Some ==> r->0@ == sink_time_text(*entry)->0,
{
    entry.timestamp.format_pattern(time_pattern())
}

/// The fields at the end of a line: a bar and the fields where the record
/// has a context, even an empty one.
pub open spec fn line_fields(context: Option<LogContext>) -> Seq<char> {
    match context {
        Some(c) => " | "@ + fields_text(c.entries()),
        None => Seq::empty(),
    }
}

/// The line of a record in a log file, with the line feed at its end.
pub open spec fn file_line(time: Seq<char>, entry: LogEntry) -> Seq<char> {
    "["@ + time + "] ["@ + padded_name(entry.level) + "] ["@ + entry.thread_label() + "] "@
        + entry.message@ + line_fields(entry.context) + "\n"@
}

/// The line of a record in a rotating log file, with the line feed at its
/// end.
pub open spec fn rotating_line(time: Seq<char>, entry: LogEntry) -> Seq<char> {
    "["@ + time + "] ["@ + entry.level.name() + "] "@ + entry.message@ + "\n"@
}

/// The line of a record in a log file or on the network, with the line feed
/// at its end. `time` is the text of the record's time.
pub fn format_file_line(time: &str, entry: &LogEntry) -> (r: String)
    ensures
        r@ == file_line(time@, *entry),
{
    let mut out = "[".to_owned();
    out.append(time);
    out.append("] [");
    out.append(padded_level(entry.level));
    out.append("] [");
    out.append(entry.thread_display());
    out.append("] ");
    out.append(entry.message.as_str());
    let ghost base = out@;
    match &entry.context {
        Some(c) => {
            out.append(" | ");
            let fields = c.format_fields();
            out.append(fields.as_str());
            assert(out@ == base + (" | "@ + fields_text(c.entries())));
        },
        None => {
            assert(base + Seq::<char>::empty() == base);
        },
    }
    out.append("\n");
    out
}

/// The line of a record in a rotating log file, with the line feed at its
/// end. `time` is the text of the record's time.
pub fn format_rotating_line(time: &str, entry: &LogEntry) -> (r: String)
    ensures
        r@ == rotating_line(time@, *entry),
{
    let mut out = "[".to_owned();
    out.append(time);
    out.append("] [");
    out.append(entry.level.to_str());
    out.append("] ");
    out.append(entry.message.as_str());
    out.append("\n");
    out
}

/// The place in the source at the end of a message: file and line in round
/// brackets where the record has both.
pub open spec fn line_location(file: Option<String>, line: Option<u32>) -> Seq<char> {
    match (file, line) {
        (Some(f), Some(n)) => " ("@ + f@ + ":"@ + decimal_digits(n as nat) + ")"@,
        _ => Seq::empty(),
    }
}

/// The line of a record in a log file that also shows where the record came
/// from, with the line feed at its end.
pub open spec fn located_line(time: Seq<char>, entry: LogEntry) -> Seq<char> {
    "["@ + time + "] ["@ + padded_name(entry.level) + "] ["@ + entry.thread_label() + "] "@
        + entry.message@ + line_location(entry.file, entry.line) + line_fields(entry.context)
        + "\n"@
}

/// The line of a record in a log file that also shows where the record came
/// from, with the line feed at its end. `time` is the text of the record's
/// time.
pub fn format_located_line(time: &str, entry: &LogEntry) -> (r: String)
    ensures
        r@ == located_line(time@, *entry),
{
    let mut out = "[".to_owned();
    out.append(time);
    out.append("] [");
    out.append(padded_level(entry.level));
    out.append("] [");
    out.append(entry.thread_display());
    out.append("] ");
    out.append(entry.message.as_str());
    let ghost base = out@;
    match (&entry.file, entry.line) {
        (Some(f), Some(n)) => {
            out.append(" (");
            out.append(f.as_str());
            out.append(":");
            push_decimal(&mut out, n as u64);
            out.append(")");
            assert(out@ == base + (" ("@ + f@ + ":"@ + decimal_digits(n as nat) + ")"@));
        },
        _ => {
            assert(base + Seq::<char>::empty() == base);
        },
    }
    let ghost located = out@;
    match &entry.context {
        Some(c) => {
            out.append(" | ");
            let fields = c.format_fields();
            out.append(fields.as_str());
            assert(out@ == located + (" | "@ + fields_text(c.entries())));
        },
        None => {
            assert(located + Seq::<char>::empty() == located);
        },
    }
    out.append("\n");
    out
}

} // verus!
