//! The record of one logged event.

use vstd::prelude::*;
use crate::log_context::LogContext;
use crate::log_level::LogLevel;
use crate::text::{chars_of, push_char};
use crate::timestamp::Timestamp;

verus! {

/// What stands for one character in a stored message: a line feed, a carriage
/// return and a tab are written as a backslash and a letter, every other
/// character as itself.
pub open spec fn escaped(c: char) -> Seq<char> {
    if c == '\n' {
        seq!['\\', 'n']
    } else if c == '\r' {
        seq!['\\', 'r']
    } else if c == '\t' {
        seq!['\\', 't']
    } else {
        seq![c]
    }
}

/// A message with every line feed, carriage return and tab escaped.
pub open spec fn sanitized(message: Seq<char>) -> Seq<char>
    decreases message.len(),
{
    if message.len() == 0 {
        Seq::empty()
    } else {
        sanitized(message.drop_last()) + escaped(message.last())
    }
}

/// Whether a character could break a line of output or shift its columns.
pub open spec fn is_raw_control(c: char) -> bool {
    c == '\n' || c == '\r' || c == '\t'
}

/// A sanitized message holds no line feed, carriage return or tab, so it
/// stays on one line whatever the caller put in.
pub proof fn lemma_sanitized_is_single_line(message: Seq<char>)
    ensures
        forall|i: int| 0 <= i < sanitized(message).len() ==> !is_raw_control(
            #[trigger] sanitized(message)[i],
        ),
    decreases message.len(),
{
    if message.len() > 0 {
        lemma_sanitized_is_single_line(message.drop_last());
        let head = sanitized(message.drop_last());
        let tail = escaped(message.last());
        assert forall|i: int| 0 <= i < sanitized(message).len() implies !is_raw_control(
            #[trigger] sanitized(message)[i],
        ) by {
            if i < head.len() {
                assert(sanitized(message)[i] == head[i]);
            } else {
                assert(sanitized(message)[i] == tail[i - head.len()]);
            }
        }
    }
}

/// Sanitizing goes character by character: the sanitized form of two texts
/// in a row is the two sanitized forms in a row.
pub proof fn lemma_sanitized_concat(a: Seq<char>, b: Seq<char>)
    ensures
        sanitized(a + b) == sanitized(a) + sanitized(b),
    decreases b.len(),
{
    if b.len() == 0 {
        assert(a + b == a);
    } else {
        assert((a + b).drop_last() == a + b.drop_last());
        assert((a + b).last() == b.last());
        lemma_sanitized_concat(a, b.drop_last());
    }
}

/// Where the message holds a line feed, carriage return or tab, the sanitized
/// message holds its two-character escape: at the place that the sanitized
/// text before it ends.
pub proof fn lemma_sanitized_holds_escape(message: Seq<char>, at: int)
    requires
        0 <= at < message.len(),
        is_raw_control(message[at]),
    ensures
        ({
            let start = sanitized(message.take(at)).len() as int;
            &&& start + 1 < sanitized(message).len()
            &&& sanitized(message)[start] == '\\'
            &&& sanitized(message).subrange(start, start + 2) == escaped(message[at])
        }),
{
    let head = message.take(at);
    let tail = message.skip(at + 1);
    let one = seq![message[at]];
    assert(message == head + one + tail);
    lemma_sanitized_concat(head + one, tail);
    lemma_sanitized_concat(head, one);
    assert(one.drop_last() == Seq::<char>::empty());
    assert(sanitized(one) == sanitized(one.drop_last()) + escaped(one.last()));
    assert(sanitized(one.drop_last()).len() == 0);
    assert(sanitized(one) == escaped(message[at]));
    let start = sanitized(head).len() as int;
    assert(sanitized(message) == sanitized(head) + escaped(message[at]) + sanitized(tail));
    assert(escaped(message[at]).len() == 2);
    assert(sanitized(message).subrange(start, start + 2) == escaped(message[at]));
    assert(sanitized(message)[start] == escaped(message[at])[0]);
}

/// Escapes every line feed, carriage return and tab of a message.
pub fn sanitize_message(message: &str) -> (r: String)
    ensures
        r@ == sanitized(message@),
{
    let chars = chars_of(message);
    let mut out = String::new();
    let mut i: usize = 0;
    while i < chars.len()
        invariant
            i <= chars.len(),
            out@ == sanitized(chars@.take(i as int)),
        decreases chars.len() - i,
    {
        let c = chars[i];
        proof {
            let next = chars@.take(i + 1);
            assert(next.drop_last() == chars@.take(i as int));
            assert(next.last() == c);
        }
        if c == '\n' {
            push_char(&mut out, '\\');
            push_char(&mut out, 'n');
        } else if c == '\r' {
            push_char(&mut out, '\\');
            push_char(&mut out, 'r');
        } else if c == '\t' {
            push_char(&mut out, '\\');
            push_char(&mut out, 't');
        } else {
            push_char(&mut out, c);
        }
        assert(out@ == sanitized(chars@.take(i as int)) + escaped(c));
        i += 1;
    }
    assert(chars@.take(chars.len() as int) == chars@);
    out
}

/// One logged event. The message is stored sanitized; the record is not
/// changed after it was made, and it is moved from the caller to the queue,
/// to the worker and to the sinks.
#[derive(Debug)]
pub struct LogEntry {
    pub level: LogLevel,
    pub message: String,
    pub timestamp: Timestamp,
    pub file: Option<String>,
    pub line: Option<u32>,
    pub module: Option<String>,
    pub thread_id: String,
    pub thread_name: Option<String>,
    pub context: Option<LogContext>,
}

impl LogEntry {
    /// A record of the given severity, made now. The message is sanitized.
    /// Origin, thread and context are left empty.
    pub fn new(level: LogLevel, message: String) -> (r: LogEntry)
        ensures
            r.level == level,
            r.message@ == sanitized(message@),
            r.timestamp.secs() >= 0,
            r.file is None,
            r.line is None,
            r.module is None,
            r.thread_id@.len() == 0,
            r.thread_name is None,
            r.context is None,
    {
        LogEntry::at(level, message.as_str(), Timestamp::now())
    }

    /// A record of the given severity and time. The message is sanitized.
    /// Origin, thread and context are left empty.
    pub fn at(level: LogLevel, message: &str, timestamp: Timestamp) -> (r: LogEntry)
        ensures
            r.level == level,
            r.message@ == sanitized(message@),
            r.timestamp == timestamp,
            r.file is None,
            r.line is None,
            r.module is None,
            r.thread_id@.len() == 0,
            r.thread_name is None,
            r.context is None,
    {
        LogEntry {
            level,
            message: sanitize_message(message),
            timestamp,
            file: None,
            line: None,
            module: None,
            thread_id: String::new(),
            thread_name: None,
            context: None,
        }
    }

    /// The record with the place in the source that it came from.
    pub fn with_location(self, file: &str, line: u32, module: &str) -> (r: LogEntry)
        ensures
            r.file matches Some(f) && f@ == file@,
            r.line == Some(line),
            r.module matches Some(m) && m@ == module@,
            r.level == self.level,
            r.message == self.message,
            r.timestamp == self.timestamp,
            r.thread_id == self.thread_id,
            r.thread_name == self.thread_name,
            r.context == self.context,
    {
        let mut entry = self;
        entry.file = Some(file.to_owned());
        entry.line = Some(line);
        entry.module = Some(module.to_owned());
        entry
    }

    /// The record with the thread that made it.
    pub fn with_thread(self, id: String, name: Option<String>) -> (r: LogEntry)
        ensures
            r == (LogEntry { thread_id: id, thread_name: name, ..self }),
    {
        let mut entry = self;
        entry.thread_id = id;
        entry.thread_name = name;
        entry
    }

    /// The record with the given fields.
    pub fn with_context(self, context: LogContext) -> (r: LogEntry)
        ensures
            r == (LogEntry { context: Some(context), ..self }),
    {
        let mut entry = self;
        entry.context = Some(context);
        entry
    }

    /// The name under which the thread is written: its name, or its id where
    /// it has no name.
    pub open spec fn thread_label(self) -> Seq<char> {
        match self.thread_name {
            Some(name) => name@,
            None => self.thread_id@,
        }
    }

    /// The name under which the thread is written: its name, or its id where
    /// it has no name.
    pub fn thread_display(&self) -> (r: &str)
        ensures
            r@ == self.thread_label(),
    {
        match &self.thread_name {
            Some(name) => name.as_str(),
            None => self.thread_id.as_str(),
        }
    }
}

impl Clone for LogEntry {
    fn clone(&self) -> (r: LogEntry)
        ensures
            r.level == self.level,
            r.message == self.message,
            r.timestamp == self.timestamp,
            r.file == self.file,
            r.line == self.line,
            r.module == self.module,
            r.thread_id == self.thread_id,
            r.thread_name == self.thread_name,
            r.context is Some <==> self.context is Some,
            r.context is Some ==> r.context->0.entries() == self.context->0.entries(),
    {
        LogEntry {
            level: self.level,
            message: self.message.clone(),
            timestamp: self.timestamp,
            file: clone_text(&self.file),
            line: self.line,
            module: clone_text(&self.module),
            thread_id: self.thread_id.clone(),
            thread_name: clone_text(&self.thread_name),
            context: match &self.context {
                Some(c) => Some(c.clone()),
                None => None,
            },
        }
    }
}

fn clone_text(text: &Option<String>) -> (r: Option<String>)
    ensures
        r == *text,
{
    match text {
        Some(s) => Some(s.clone()),
        None => None,
    }
}

} // verus!
