//! The formats in which a record is written as one line of text.

use vstd::prelude::*;
use vstd::string::StringExecFns;
use crate::appenders::console::{padded_level, padded_name};
use crate::json::{
    json_members,
    json_number_of,
    json_object,
    json_text,
    no_members,
    put_value,
    render,
    text_value,
    decimal_value,
    flag_value,
    integer_value,
    json_value_member,
    null_value,
    JsonMember,
    JsonObject,
};
use crate::log_context::{fields_text, FieldValue, LogContext};
use crate::log_entry::LogEntry;
use crate::text::{
    bool_chars,
    bool_text,
    chars_of,
    decimal_digits,
    push_char,
    push_decimal,
    push_signed_decimal,
    signed_decimal_digits,
};
use crate::timestamp::{Timestamp, TimestampFormat};

verus! {

/// The format of a line.
#[derive(Debug, Clone, Copy, PartialEq, Eq, Structural)]
pub enum OutputFormat {
    /// Text for people: `[time] [LEVEL] thread - message`.
    Text,
    /// One JSON object.
    Json,
    /// Pairs of `key=value`.
    Logfmt,
}

impl Default for OutputFormat {
    fn default() -> (r: OutputFormat)
        ensures
            r == OutputFormat::Text,
    {
        OutputFormat::Text
    }
}

/// Whether a character is a letter or a digit, as `char::is_alphanumeric`
/// tells.
pub uninterp spec fn alphanumeric(c: char) -> bool;

/// `char::is_alphanumeric`: whether the character is a letter or a digit of
/// any script. The classes are tables of the standard library.
#[verifier::external_body]
fn is_alphanumeric(c: char) -> (r: bool)
    ensures
        r == alphanumeric(c),
{
    c.is_alphanumeric()
}

/// Whether a character may stand in a logfmt key: a letter, a digit, an
/// underscore or a hyphen.
pub open spec fn key_char(c: char) -> bool {
    alphanumeric(c) || c == '_' || c == '-'
}

/// A key with every character taken out that may not stand in a logfmt key.
pub open spec fn logfmt_key(key: Seq<char>) -> Seq<char>
    decreases key.len(),
{
    if key.len() == 0 {
        Seq::empty()
    } else if key_char(key.last()) {
        logfmt_key(key.drop_last()).push(key.last())
    } else {
        logfmt_key(key.drop_last())
    }
}

/// What stands for one character inside a quoted logfmt value: a backslash
/// and a quotation mark get a backslash in front.
pub open spec fn quoted_char(c: char) -> Seq<char> {
    if c == '\\' {
        seq!['\\', '\\']
    } else if c == '"' {
        seq!['\\', '"']
    } else {
        seq![c]
    }
}

/// The inside of a quoted logfmt value.
pub open spec fn quoted_body(value: Seq<char>) -> Seq<char>
    decreases value.len(),
{
    if value.len() == 0 {
        Seq::empty()
    } else {
        quoted_body(value.drop_last()) + quoted_char(value.last())
    }
}

/// A value in quotation marks.
pub open spec fn logfmt_quoted(value: Seq<char>) -> Seq<char> {
    seq!['"'] + quoted_body(value) + seq!['"']
}

/// Whether a value has to be quoted: it holds a space, a quotation mark or an
/// equals sign.
pub open spec fn needs_quotes(value: Seq<char>) -> bool {
    value.contains(' ') || value.contains('"') || value.contains('=')
}

/// A value as it stands in a logfmt line: quoted where it has to be.
pub open spec fn logfmt_value(value: Seq<char>) -> Seq<char> {
    if needs_quotes(value) {
        logfmt_quoted(value)
    } else {
        value
    }
}

/// A field's value as it stands in a logfmt line: a text always quoted, the
/// others as they are written.
pub open spec fn logfmt_field_value(value: FieldValue) -> Seq<char> {
    match value {
        FieldValue::String(s) => logfmt_quoted(s@),
        FieldValue::Int(i) => signed_decimal_digits(i as int),
        FieldValue::Float { shown, json } => shown@,
        FieldValue::Bool(b) => bool_chars(b),
        FieldValue::Null => "null"@,
    }
}

/// The fields of a record in a logfmt line, each with a space in front.
pub open spec fn logfmt_fields(entries: Seq<(String, FieldValue)>) -> Seq<char>
    decreases entries.len(),
{
    if entries.len() == 0 {
        Seq::empty()
    } else {
        logfmt_fields(entries.drop_last()) + " "@ + logfmt_key(entries.last().0@) + "="@
            + logfmt_field_value(entries.last().1)
    }
}

/// A part of a line that may be absent: the label and the value with a space
/// in front, or nothing.
pub open spec fn optional_part(label: Seq<char>, value: Option<String>) -> Seq<char> {
    match value {
        Some(v) => " "@ + label + logfmt_value(v@),
        None => Seq::empty(),
    }
}

/// The number of the line in a logfmt line, or nothing.
pub open spec fn optional_line(line: Option<u32>) -> Seq<char> {
    match line {
        Some(n) => " line="@ + decimal_digits(n as nat),
        None => Seq::empty(),
    }
}

/// The fields of a record's context in a logfmt line, or nothing.
pub open spec fn optional_fields(context: Option<LogContext>) -> Seq<char> {
    match context {
        Some(c) => logfmt_fields(c.entries()),
        None => Seq::empty(),
    }
}

/// The logfmt line of a record whose time is written as `time`.
pub open spec fn logfmt_line(time: Seq<char>, entry: LogEntry) -> Seq<char> {
    "timestamp="@ + logfmt_value(time) + " level="@ + entry.level.name() + " message="@
        + logfmt_quoted(entry.message@) + " thread_id="@ + logfmt_value(entry.thread_id@)
        + optional_part("thread_name="@, entry.thread_name) + optional_part("file="@, entry.file)
        + optional_line(entry.line) + optional_part("module_path="@, entry.module)
        + optional_fields(entry.context)
}

/// The fields of a record at the end of a text line: a space and the fields
/// where there are any, else nothing.
pub open spec fn text_fields(context: Option<LogContext>) -> Seq<char> {
    match context {
        Some(c) => if c.entries().len() == 0 {
            Seq::empty()
        } else {
            " "@ + fields_text(c.entries())
        },
        None => Seq::empty(),
    }
}

/// The text line of a record whose time is written as `time`.
pub open spec fn text_line(time: Seq<char>, entry: LogEntry) -> Seq<char> {
    "["@ + time + "] ["@ + padded_name(entry.level) + "] "@ + entry.thread_label() + " - "@
        + entry.message@ + text_fields(entry.context)
}

/// Whether the characters hold `c`.
fn holds(chars: &Vec<char>, c: char) -> (r: bool)
    ensures
        r == chars@.contains(c),
{
    let mut i: usize = 0;
    while i < chars.len()
        invariant
            i <= chars.len(),
            forall|j: int| 0 <= j < i ==> chars@[j] != c,
        decreases chars.len() - i,
    {
        if chars[i] == c {
            return true;
        }
        i += 1;
    }
    false
}

impl OutputFormat {
    /// Takes out of a key every character that may not stand in a logfmt key.
    pub fn escape_logfmt_key(&self, key: &str) -> (r: String)
        ensures
            r@ == logfmt_key(key@),
    {
        let chars = chars_of(key);
        let mut out = String::new();
        let mut i: usize = 0;
        assert(chars@.take(0).len() == 0);
        while i < chars.len()
            invariant
                i <= chars.len(),
                out@ == logfmt_key(chars@.take(i as int)),
            decreases chars.len() - i,
        {
            let c = chars[i];
            proof {
                let next = chars@.take(i + 1);
                assert(next.drop_last() == chars@.take(i as int));
                assert(next.last() == c);
            }
            if is_alphanumeric(c) || c == '_' || c == '-' {
                push_char(&mut out, c);
            }
            i += 1;
        }
        assert(chars@.take(chars.len() as int) == chars@);
        out
    }

    /// Appends a value in quotation marks to `out`.
    fn push_quoted(out: &mut String, value: &str)
        ensures
            final(out)@ == old(out)@ + logfmt_quoted(value@),
    {
        let chars = chars_of(value);
        push_char(out, '"');
        let mut i: usize = 0;
        while i < chars.len()
            invariant
                i <= chars.len(),
                out@ == old(out)@ + seq!['"'] + quoted_body(chars@.take(i as int)),
            decreases chars.len() - i,
        {
            let c = chars[i];
            let ghost before = out@;
            proof {
                let next = chars@.take(i + 1);
                assert(next.drop_last() == chars@.take(i as int));
                assert(next.last() == c);
            }
            if c == '\\' {
                push_char(out, '\\');
                push_char(out, '\\');
            } else if c == '"' {
                push_char(out, '\\');
                push_char(out, '"');
            } else {
                push_char(out, c);
            }
            assert(out@ == before + quoted_char(c));
            i += 1;
        }
        assert(chars@.take(chars.len() as int) == chars@);
        push_char(out, '"');
        assert(out@ == old(out)@ + (seq!['"'] + quoted_body(value@) + seq!['"']));
    }

    /// Puts a value in quotation marks, with a backslash in front of every
    /// backslash and quotation mark in it.
    pub fn quote_logfmt_value(&self, value: &str) -> (r: String)
        ensures
            r@ == logfmt_quoted(value@),
    {
        let mut out = String::new();
        OutputFormat::push_quoted(&mut out, value);
        out
    }

    /// Appends a value to `out` as it stands in a logfmt line.
    fn push_value(out: &mut String, value: &str)
        ensures
            final(out)@ == old(out)@ + logfmt_value(value@),
    {
        let chars = chars_of(value);
        if holds(&chars, ' ') || holds(&chars, '"') || holds(&chars, '=') {
            OutputFormat::push_quoted(out, value);
        } else {
            out.append(value);
        }
    }

    /// A value as it stands in a logfmt line: in quotation marks if it holds
    /// a space, a quotation mark or an equals sign, else as it is.
    pub fn escape_logfmt_value(&self, value: &str) -> (r: String)
        ensures
            r@ == logfmt_value(value@),
    {
        let mut out = String::new();
        OutputFormat::push_value(&mut out, value);
        out
    }

    fn push_optional(out: &mut String, label: &str, value: &Option<String>)
        ensures
            final(out)@ == old(out)@ + optional_part(label@, *value),
    {
        match value {
            Some(v) => {
                out.append(" ");
                out.append(label);
                OutputFormat::push_value(out, v.as_str());
                assert(out@ == old(out)@ + (" "@ + label@ + logfmt_value(v@)));
            },
            None => {
                assert(old(out)@ + Seq::<char>::empty() == old(out)@);
            },
        }
    }

    fn push_fields(&self, out: &mut String, context: &Option<LogContext>)
        ensures
            final(out)@ == old(out)@ + optional_fields(*context),
    {
        match context {
            Some(c) => {
                let fields = c.fields();
                let mut i: usize = 0;
                assert(fields@.take(0).len() == 0);
                assert(old(out)@ + Seq::<char>::empty() == old(out)@);
                while i < fields.len()
                    invariant
                        i <= fields.len(),
                        out@ == old(out)@ + logfmt_fields(fields@.take(i as int)),
                    decreases fields.len() - i,
                {
                    let ghost before = out@;
                    let key = self.escape_logfmt_key(fields[i].0.as_str());
                    out.append(" ");
                    out.append(key.as_str());
                    out.append("=");
                    match &fields[i].1 {
                        FieldValue::String(s) => OutputFormat::push_quoted(out, s.as_str()),
                        FieldValue::Int(n) => push_signed_decimal(out, *n),
                        FieldValue::Float { shown, json } => out.append(shown.as_str()),
                        FieldValue::Bool(b) => out.append(bool_text(*b)),
                        FieldValue::Null => out.append("null"),
                    }
                    proof {
                        let next = fields@.take(i + 1);
                        assert(next.drop_last() == fields@.take(i as int));
                        assert(next.last() == fields@[i as int]);
                        assert(out@ == before + (" "@ + logfmt_key(next.last().0@) + "="@
                            + logfmt_field_value(next.last().1)));
                        assert(out@ == old(out)@ + (logfmt_fields(next.drop_last()) + " "@
                            + logfmt_key(next.last().0@) + "="@ + logfmt_field_value(
                            next.last().1,
                        )));
                    }
                    i += 1;
                }
                assert(fields@.take(fields.len() as int) == fields@);
            },
            None => {
                assert(old(out)@ + Seq::<char>::empty() == old(out)@);
            },
        }
    }

    /// The logfmt line of a record whose time is written as `time`.
    pub fn format_logfmt(&self, entry: &LogEntry, time: &str) -> (r: String)
        ensures
            r@ == logfmt_line(time@, *entry),
    {
        let mut out = "timestamp=".to_owned();
        OutputFormat::push_value(&mut out, time);
        out.append(" level=");
        out.append(entry.level.to_str());
        out.append(" message=");
        OutputFormat::push_quoted(&mut out, entry.message.as_str());
        out.append(" thread_id=");
        OutputFormat::push_value(&mut out, entry.thread_id.as_str());
        OutputFormat::push_optional(&mut out, "thread_name=", &entry.thread_name);
        OutputFormat::push_optional(&mut out, "file=", &entry.file);
        let ghost before_line = out@;
        match entry.line {
            Some(n) => {
                out.append(" line=");
                push_decimal(&mut out, n as u64);
                assert(out@ == before_line + (" line="@ + decimal_digits(n as nat)));
            },
            None => {
                assert(before_line + Seq::<char>::empty() == before_line);
            },
        }
        OutputFormat::push_optional(&mut out, "module_path=", &entry.module);
        self.push_fields(&mut out, &entry.context);
        out
    }

    /// The text line of a record whose time is written as `time`.
    pub fn format_text(&self, entry: &LogEntry, time: &str) -> (r: String)
        ensures
            r@ == text_line(time@, *entry),
    {
        let mut out = "[".to_owned();
        out.append(time);
        out.append("] [");
        out.append(padded_level(entry.level));
        out.append("] ");
        out.append(entry.thread_display());
        out.append(" - ");
        out.append(entry.message.as_str());
        let ghost base = out@;
        match &entry.context {
            Some(c) => {
                if !c.is_empty() {
                    out.append(" ");
                    let fields = c.format_fields();
                    out.append(fields.as_str());
                    assert(out@ == base + (" "@ + fields_text(c.entries())));
                } else {
                    assert(base + Seq::<char>::empty() == base);
                }
            },
            None => {
                assert(base + Seq::<char>::empty() == base);
            },
        }
        out
    }
}

/// The member under which a field's value stands in a JSON object.
pub open spec fn json_member_of(value: FieldValue) -> JsonMember {
    match value {
        FieldValue::String(s) => JsonMember::Text(s@),
        FieldValue::Int(i) => JsonMember::Integer(i as int),
        FieldValue::Float { shown, json } => json_number_of(json@),
        FieldValue::Bool(b) => JsonMember::Flag(b),
        FieldValue::Null => JsonMember::Null,
    }
}

impl FieldValue {
    /// The value as a JSON value: a text as a string, a whole number as a
    /// number, a number with a fraction as what `serde_json` reads from its
    /// JSON text (`null` where it reads no number), and a truth value and
    /// `Null` as they are.
    pub fn to_json_value(&self) -> (r: serde_json::Value)
        ensures
            json_value_member(r) == json_member_of(*self),
    {
        match self {
            FieldValue::String(s) => text_value(s.as_str()),
            FieldValue::Int(i) => integer_value(*i),
            FieldValue::Float { shown, json } => decimal_value(json.as_str()),
            FieldValue::Bool(b) => flag_value(*b),
            FieldValue::Null => null_value(),
        }
    }
}

/// The members after the fields were set one after the other: a field whose
/// key is there already replaces the member.
pub open spec fn with_fields(
    members: Map<Seq<char>, JsonMember>,
    entries: Seq<(String, FieldValue)>,
) -> Map<Seq<char>, JsonMember>
    decreases entries.len(),
{
    if entries.len() == 0 {
        members
    } else {
        with_fields(members, entries.drop_last()).insert(
            entries.last().0@,
            json_member_of(entries.last().1),
        )
    }
}

/// The members with one more text member, where the text is there.
pub open spec fn with_optional(
    members: Map<Seq<char>, JsonMember>,
    key: Seq<char>,
    value: Option<String>,
) -> Map<Seq<char>, JsonMember> {
    match value {
        Some(v) => members.insert(key, JsonMember::Text(v@)),
        None => members,
    }
}

/// The time of a record as a member of a JSON object: a number for the
/// numeric formats, and the text of the time for the others.
pub open spec fn json_time(format: TimestampFormat, t: Timestamp) -> Option<JsonMember> {
    match format {
        TimestampFormat::Unix => Some(JsonMember::Integer(t.secs())),
        TimestampFormat::UnixMillis => Some(
            JsonMember::Integer(t.secs() * 1000 + t.nanos() / 1_000_000),
        ),
        TimestampFormat::UnixMicros => Some(
            JsonMember::Integer(t.secs() * 1_000_000 + t.nanos() / 1000),
        ),
        _ => match format.text_of(t) {
            Some(text) => Some(JsonMember::Text(text)),
            None => None,
        },
    }
}

/// The members of the JSON object of a record whose time is the member
/// `time`. The fields of the context come last, so a field named like a
/// member of the record replaces it.
pub open spec fn json_record(time: JsonMember, entry: LogEntry) -> Map<Seq<char>, JsonMember> {
    let base = no_members().insert("timestamp"@, time).insert(
        "level"@,
        JsonMember::Text(entry.level.name()),
    ).insert("message"@, JsonMember::Text(entry.message@)).insert(
        "thread_id"@,
        JsonMember::Text(entry.thread_id@),
    );
    let named = with_optional(base, "thread_name"@, entry.thread_name);
    let filed = with_optional(named, "file"@, entry.file);
    let lined = match entry.line {
        Some(n) => filed.insert("line"@, JsonMember::Integer(n as int)),
        None => filed,
    };
    let moduled = with_optional(lined, "module_path"@, entry.module);
    match entry.context {
        Some(c) => with_fields(moduled, c.entries()),
        None => moduled,
    }
}

/// The line that a format gives for a record, or `None` where the time
/// cannot be written or the JSON encoder reports an error.
pub open spec fn formatted(
    format: OutputFormat,
    entry: LogEntry,
    timestamp_format: TimestampFormat,
) -> Option<Seq<char>> {
    match format {
        OutputFormat::Text => match timestamp_format.text_of(entry.timestamp) {
            Some(time) => Some(text_line(time, entry)),
            None => None,
        },
        OutputFormat::Logfmt => match timestamp_format.text_of(entry.timestamp) {
            Some(time) => Some(logfmt_line(time, entry)),
            None => None,
        },
        OutputFormat::Json => match json_time(timestamp_format, entry.timestamp) {
            Some(time) => json_text(json_record(time, entry)),
            None => None,
        },
    }
}

fn put_optional(object: &mut JsonObject, key: &str, value: &Option<String>)
    ensures
        json_members(*final(object)) == with_optional(json_members(*old(object)), key@, *value),
{
    match value {
        Some(v) => put_value(object, key, text_value(v.as_str())),
        None => {},
    }
}

/// Sets a member of the object to a field's value.
pub fn put_field(object: &mut JsonObject, key: &str, value: &FieldValue)
    ensures
        json_members(*final(object)) == json_members(*old(object)).insert(
            key@,
            json_member_of(*value),
        ),
{
    put_value(object, key, value.to_json_value());
}

/// The member that stands for a time in a JSON object.
pub enum JsonTime {
    Number(i64),
    Text(String),
}

impl JsonTime {
    pub open spec fn member(self) -> JsonMember {
        match self {
            JsonTime::Number(n) => JsonMember::Integer(n as int),
            JsonTime::Text(t) => JsonMember::Text(t@),
        }
    }
}

impl OutputFormat {
    /// The time of a record as it stands in a JSON object: a number for the
    /// numeric formats, and the text of the time for the others.
    pub fn format_timestamp_json(&self, entry: &LogEntry, timestamp_format: &TimestampFormat) -> (r:
        Option<JsonTime>)
        ensures
            r is Some <==> json_time(*timestamp_format, entry.timestamp) is Some,
            r is Some ==> r->0.member() == json_time(*timestamp_format, entry.timestamp)->0,
    {
        match timestamp_format {
            TimestampFormat::Unix => Some(JsonTime::Number(entry.timestamp.timestamp())),
            TimestampFormat::UnixMillis => Some(JsonTime::Number(entry.timestamp.timestamp_millis())),
            TimestampFormat::UnixMicros => Some(JsonTime::Number(entry.timestamp.timestamp_micros())),
            _ => match timestamp_format.format(&entry.timestamp) {
                Some(text) => Some(JsonTime::Text(text)),
                None => None,
            },
        }
    }

    /// The JSON object of a record whose time is given, as one line.
    pub fn format_json(&self, entry: &LogEntry, time: &JsonTime) -> (r: Option<String>)
        ensures
            r is Some <==> json_text(json_record(time.member(), *entry)) is Some,
            r is Some ==> r->0@ == json_text(json_record(time.member(), *entry))->0,
    {
        let mut object = json_object();
        match time {
            JsonTime::Number(n) => put_value(&mut object, "timestamp", integer_value(*n)),
            JsonTime::Text(t) => put_value(&mut object, "timestamp", text_value(t.as_str())),
        }
        put_value(&mut object, "level", text_value(entry.level.to_str()));
        put_value(&mut object, "message", text_value(entry.message.as_str()));
        put_value(&mut object, "thread_id", text_value(entry.thread_id.as_str()));
        put_optional(&mut object, "thread_name", &entry.thread_name);
        put_optional(&mut object, "file", &entry.file);
        match entry.line {
            Some(n) => put_value(&mut object, "line", integer_value(n as i64)),
            None => {},
        }
        put_optional(&mut object, "module_path", &entry.module);
        match &entry.context {
            Some(c) => {
                let fields = c.fields();
                let ghost start = json_members(object);
                let mut i: usize = 0;
                assert(fields@.take(0).len() == 0);
                while i < fields.len()
                    invariant
                        i <= fields.len(),
                        json_members(object) == with_fields(start, fields@.take(i as int)),
                    decreases fields.len() - i,
                {
                    put_field(&mut object, fields[i].0.as_str(), &fields[i].1);
                    proof {
                        let next = fields@.take(i + 1);
                        assert(next.drop_last() == fields@.take(i as int));
                        assert(next.last() == fields@[i as int]);
                    }
                    i += 1;
                }
                assert(fields@.take(fields.len() as int) == fields@);
            },
            None => {},
        }
        render(object)
    }

    /// Writes a record as one line in this format, with its time in the given
    /// timestamp format. The result is `None` where the time cannot be
    /// written (see `TimestampFormat::format`) or the JSON encoder reports an
    /// error.
    pub fn format(&self, entry: &LogEntry, timestamp_format: &TimestampFormat) -> (r: Option<
        String,
    >)
        ensures
            r is Some <==> formatted(*self, *entry, *timestamp_format) is Some,
            r is Some ==> r->0@ == formatted(*self, *entry, *timestamp_format)->0,
    {
        match self {
            OutputFormat::Text => match timestamp_format.format(&entry.timestamp) {
                Some(time) => Some(self.format_text(entry, time.as_str())),
                None => None,
            },
            OutputFormat::Logfmt => match timestamp_format.format(&entry.timestamp) {
                Some(time) => Some(self.format_logfmt(entry, time.as_str())),
                None => None,
            },
            OutputFormat::Json => match self.format_timestamp_json(entry, timestamp_format) {
                Some(time) => self.format_json(entry, &time),
                None => None,
            },
        }
    }
}

} // verus!
