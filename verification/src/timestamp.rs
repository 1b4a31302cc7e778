//! Points in time and the formats in which they are written.
//!
//! A point in time is held as plain numbers: whole seconds since the start of
//! 1970 in UTC, and the nanoseconds past that second. The calendar belongs to
//! `chrono`, which is asked whenever a time is written as a date.

use vstd::prelude::*;
use std::sync::Arc;
use crate::text::{push_signed_decimal, signed_decimal_digits};

verus! {

/// The largest distance from the start of 1970, in seconds, that a timestamp
/// may have. It covers every date of `chrono`'s calendar, and a timestamp
/// within it can be counted in microseconds without overflow.
pub const MAX_TIMESTAMP_SECS: i64 = 9_000_000_000_000;

/// One more than the largest nanosecond part. Parts of a billion and more
/// stand for a leap second.
pub const NANOS_LIMIT: u32 = 2_000_000_000;

/// A point in time.
#[derive(Debug, Clone, Copy, PartialEq, Eq, Structural, Hash)]
pub struct Timestamp {
    secs: i64,
    nanos: u32,
}

/// The time that the clock showed when `Timestamp::now` was called is not a
/// function of anything; the text of a time in a format is.
///
/// The text that `chrono` writes for the time `secs` and `nanos` under the
/// `strftime` pattern `pattern`, or `None` where the time lies outside its
/// calendar or the pattern is not one it accepts.
pub uninterp spec fn chrono_pattern_text(secs: i64, nanos: u32, pattern: Seq<char>) -> Option<
    Seq<char>,
>;

/// The text that `chrono` writes for the time `secs` and `nanos` in the form
/// of RFC 3339, or `None` where the time lies outside its calendar.
pub uninterp spec fn chrono_rfc3339_text(secs: i64, nanos: u32) -> Option<Seq<char>>;

/// `chrono::Utc::now`, taken apart by `DateTime::timestamp` and
/// `DateTime::timestamp_subsec_nanos`. The clock is read as a time since 1970,
/// so the seconds are not negative; they lie within `chrono`'s calendar, which
/// ends before the year 262,143; and the system clock hands out less than a
/// billion nanoseconds.
#[verifier::external_body]
fn clock_now() -> (r: (i64, u32))
    ensures
        0 <= r.0 <= MAX_TIMESTAMP_SECS,
        r.1 < 1_000_000_000,
{
    let now = chrono::Utc::now();
    (now.timestamp(), now.timestamp_subsec_nanos())
}

/// `DateTime::from_timestamp`, then `DateTime::format` written out with
/// `DelayedFormat::write_to`: the date and time under a `strftime` pattern.
#[verifier::external_body]
fn chrono_format(secs: i64, nanos: u32, pattern: &str) -> (r: Option<String>)
    ensures
        r is Some <==> chrono_pattern_text(secs, nanos, pattern@) is Some,
        r is Some ==> r->0@ == chrono_pattern_text(secs, nanos, pattern@)->0,
{
    match chrono::DateTime::from_timestamp(secs, nanos) {
        Some(moment) => {
            let mut out = String::new();
            match moment.format(pattern).write_to(&mut out) {
                Ok(()) => Some(out),
                Err(_) => None,
            }
        },
        None => None,
    }
}

/// `DateTime::from_timestamp`, then `DateTime::to_rfc3339`.
#[verifier::external_body]
fn chrono_rfc3339(secs: i64, nanos: u32) -> (r: Option<String>)
    ensures
        r is Some <==> chrono_rfc3339_text(secs, nanos) is Some,
        r is Some ==> r->0@ == chrono_rfc3339_text(secs, nanos)->0,
{
    match chrono::DateTime::from_timestamp(secs, nanos) {
        Some(moment) => Some(moment.to_rfc3339()),
        None => None,
    }
}

impl Timestamp {
    #[verifier::type_invariant]
    spec fn in_range(self) -> bool {
        -MAX_TIMESTAMP_SECS <= self.secs <= MAX_TIMESTAMP_SECS && self.nanos < NANOS_LIMIT
    }

    /// Whole seconds since the start of 1970; negative before it.
    pub closed spec fn secs(self) -> int {
        self.secs as int
    }

    /// Nanoseconds past the whole second.
    pub closed spec fn nanos(self) -> int {
        self.nanos as int
    }

    /// Whether `secs` and `nanos` can make a timestamp.
    pub open spec fn valid(secs: int, nanos: int) -> bool {
        -MAX_TIMESTAMP_SECS <= secs <= MAX_TIMESTAMP_SECS && 0 <= nanos < NANOS_LIMIT
    }

    /// The timestamp of `secs` seconds since 1970 and `nanos` nanoseconds, or
    /// `None` if they are out of range.
    pub fn new(secs: i64, nanos: u32) -> (r: Option<Timestamp>)
        ensures
            r is Some <==> Timestamp::valid(secs as int, nanos as int),
            r is Some ==> r->0.secs() == secs && r->0.nanos() == nanos,
    {
        if -MAX_TIMESTAMP_SECS <= secs && secs <= MAX_TIMESTAMP_SECS && nanos < NANOS_LIMIT {
            Some(Timestamp { secs, nanos })
        } else {
            None
        }
    }

    /// The time that the clock shows.
    pub fn now() -> (r: Timestamp)
        ensures
            r.secs() >= 0,
            Timestamp::valid(r.secs(), r.nanos()),
    {
        let (secs, nanos) = clock_now();
        Timestamp { secs, nanos }
    }

    /// Whole seconds since the start of 1970.
    pub fn timestamp(&self) -> (r: i64)
        ensures
            r == self.secs(),
            Timestamp::valid(self.secs(), self.nanos()),
    {
        proof {
            use_type_invariant(self);
        }
        self.secs
    }

    /// Nanoseconds past the whole second.
    pub fn timestamp_subsec_nanos(&self) -> (r: u32)
        ensures
            r == self.nanos(),
    {
        self.nanos
    }

    /// The time under a `strftime` pattern, as `chrono` writes it, or `None`
    /// where the time lies outside its calendar or it does not accept the
    /// pattern.
    pub fn format_pattern(&self, pattern: &str) -> (r: Option<String>)
        ensures
            r is Some <==> chrono_pattern_text(self.secs() as i64, self.nanos() as u32, pattern@)
                is Some,
            r is Some ==> r->0@ == chrono_pattern_text(
                self.secs() as i64,
                self.nanos() as u32,
                pattern@,
            )->0,
    {
        chrono_format(self.secs, self.nanos, pattern)
    }

    /// Milliseconds since the start of 1970.
    pub fn timestamp_millis(&self) -> (r: i64)
        ensures
            r == self.secs() * 1000 + self.nanos() / 1_000_000,
    {
        proof {
            use_type_invariant(self);
        }
        self.secs * 1000 + (self.nanos / 1_000_000) as i64
    }

    /// Microseconds since the start of 1970.
    pub fn timestamp_micros(&self) -> (r: i64)
        ensures
            r == self.secs() * 1_000_000 + self.nanos() / 1000,
    {
        proof {
            use_type_invariant(self);
        }
        self.secs * 1_000_000 + (self.nanos / 1000) as i64
    }
}

/// The form in which a time is written.
#[derive(Debug, Clone, PartialEq, Eq)]
pub enum TimestampFormat {
    /// ISO 8601 with milliseconds: `2025-01-08T10:30:45.123Z`.
    Iso8601,
    /// ISO 8601 with microseconds: `2025-01-08T10:30:45.123456Z`.
    Iso8601Micros,
    /// RFC 3339: `2025-01-08T10:30:45+00:00`.
    Rfc3339,
    /// Seconds since 1970: `1736332245`.
    Unix,
    /// Milliseconds since 1970: `1736332245123`.
    UnixMillis,
    /// Microseconds since 1970: `1736332245123456`.
    UnixMicros,
    /// A `strftime` pattern.
    Custom(String),
}

impl Default for TimestampFormat {
    fn default() -> (r: TimestampFormat)
        ensures
            r == TimestampFormat::Iso8601,
    {
        TimestampFormat::Iso8601
    }
}

impl TimestampFormat {
    /// Whether the format writes a number.
    pub open spec fn numeric(self) -> bool {
        self is Unix || self is UnixMillis || self is UnixMicros
    }

    /// What the format is, in words.
    pub open spec fn description_text(self) -> Seq<char> {
        match self {
            TimestampFormat::Iso8601 => "ISO 8601 with milliseconds (2025-01-08T10:30:45.123Z)"@,
            TimestampFormat::Iso8601Micros =>
                "ISO 8601 with microseconds (2025-01-08T10:30:45.123456Z)"@,
            TimestampFormat::Rfc3339 => "RFC 3339 with timezone (2025-01-08T10:30:45+00:00)"@,
            TimestampFormat::Unix => "Unix timestamp in seconds (1736332245)"@,
            TimestampFormat::UnixMillis => "Unix timestamp in milliseconds (1736332245123)"@,
            TimestampFormat::UnixMicros => "Unix timestamp in microseconds (1736332245123456)"@,
            TimestampFormat::Custom(_) => "Custom strftime format"@,
        }
    }

    /// The text of a time in this format: the number for a numeric format, and
    /// what `chrono` writes for the others, which is `None` for a time outside
    /// its calendar or a pattern that it does not accept.
    pub open spec fn text_of(self, t: Timestamp) -> Option<Seq<char>> {
        match self {
            TimestampFormat::Iso8601 => chrono_pattern_text(
                t.secs() as i64,
                t.nanos() as u32,
                "%Y-%m-%dT%H:%M:%S%.3fZ"@,
            ),
            TimestampFormat::Iso8601Micros => chrono_pattern_text(
                t.secs() as i64,
                t.nanos() as u32,
                "%Y-%m-%dT%H:%M:%S%.6fZ"@,
            ),
            TimestampFormat::Rfc3339 => chrono_rfc3339_text(t.secs() as i64, t.nanos() as u32),
            TimestampFormat::Unix => Some(signed_decimal_digits(t.secs())),
            TimestampFormat::UnixMillis => Some(
                signed_decimal_digits(t.secs() * 1000 + t.nanos() / 1_000_000),
            ),
            TimestampFormat::UnixMicros => Some(
                signed_decimal_digits(t.secs() * 1_000_000 + t.nanos() / 1000),
            ),
            TimestampFormat::Custom(pattern) => chrono_pattern_text(
                t.secs() as i64,
                t.nanos() as u32,
                pattern@,
            ),
        }
    }

    /// Writes a time in this format. A numeric format always gives a text; a
    /// calendar format gives `None` for a time outside `chrono`'s calendar, and
    /// a custom format also for a pattern that `chrono` does not accept.
    pub fn format(&self, datetime: &Timestamp) -> (r: Option<String>)
        ensures
            r is Some <==> self.text_of(*datetime) is Some,
            r is Some ==> r->0@ == self.text_of(*datetime)->0,
            self.numeric() ==> r is Some,
    {
        let secs = datetime.timestamp();
        let nanos = datetime.timestamp_subsec_nanos();
        match self {
            TimestampFormat::Iso8601 => chrono_format(secs, nanos, "%Y-%m-%dT%H:%M:%S%.3fZ"),
            TimestampFormat::Iso8601Micros => chrono_format(
                secs,
                nanos,
                "%Y-%m-%dT%H:%M:%S%.6fZ",
            ),
            TimestampFormat::Rfc3339 => chrono_rfc3339(secs, nanos),
            TimestampFormat::Unix => {
                let mut out = String::new();
                push_signed_decimal(&mut out, secs);
                Some(out)
            },
            TimestampFormat::UnixMillis => {
                let mut out = String::new();
                push_signed_decimal(&mut out, datetime.timestamp_millis());
                Some(out)
            },
            TimestampFormat::UnixMicros => {
                let mut out = String::new();
                push_signed_decimal(&mut out, datetime.timestamp_micros());
                Some(out)
            },
            TimestampFormat::Custom(pattern) => chrono_format(secs, nanos, pattern.as_str()),
        }
    }

    /// Whether the format writes a number.
    pub fn is_numeric(&self) -> (r: bool)
        ensures
            r == self.numeric(),
    {
        match self {
            TimestampFormat::Unix | TimestampFormat::UnixMillis | TimestampFormat::UnixMicros => true,
            _ => false,
        }
    }

    /// What the format is, in words.
    pub fn description(&self) -> (r: &str)
        ensures
            r@ == self.description_text(),
    {
        match self {
            TimestampFormat::Iso8601 => "ISO 8601 with milliseconds (2025-01-08T10:30:45.123Z)",
            TimestampFormat::Iso8601Micros =>
                "ISO 8601 with microseconds (2025-01-08T10:30:45.123456Z)",
            TimestampFormat::Rfc3339 => "RFC 3339 with timezone (2025-01-08T10:30:45+00:00)",
            TimestampFormat::Unix => "Unix timestamp in seconds (1736332245)",
            TimestampFormat::UnixMillis => "Unix timestamp in milliseconds (1736332245123)",
            TimestampFormat::UnixMicros => "Unix timestamp in microseconds (1736332245123456)",
            TimestampFormat::Custom(_) => "Custom strftime format",
        }
    }
}

/// What a formatter puts into a line, shared by the sinks.
#[derive(Debug, Clone)]
pub struct FormatterConfig {
    /// How the time is written.
    pub timestamp_format: TimestampFormat,
    /// Whether the severity is written.
    pub include_level: bool,
    /// Whether the thread is written.
    pub include_thread_id: bool,
    /// Whether file and line are written.
    pub include_file_location: bool,
    /// Whether the severity is written in upper case.
    pub level_uppercase: bool,
}

impl Default for FormatterConfig {
    fn default() -> (r: FormatterConfig)
        ensures
            r == FormatterConfig::initial(),
    {
        FormatterConfig {
            timestamp_format: TimestampFormat::Iso8601,
            include_level: true,
            include_thread_id: true,
            include_file_location: false,
            level_uppercase: true,
        }
    }
}

impl FormatterConfig {
    /// The configuration that `new` gives.
    pub open spec fn initial() -> FormatterConfig {
        FormatterConfig {
            timestamp_format: TimestampFormat::Iso8601,
            include_level: true,
            include_thread_id: true,
            include_file_location: false,
            level_uppercase: true,
        }
    }

    pub fn new() -> (r: FormatterConfig)
        ensures
            r == FormatterConfig::initial(),
    {
        FormatterConfig {
            timestamp_format: TimestampFormat::Iso8601,
            include_level: true,
            include_thread_id: true,
            include_file_location: false,
            level_uppercase: true,
        }
    }

    pub fn with_timestamp_format(self, format: TimestampFormat) -> (r: FormatterConfig)
        ensures
            r == (FormatterConfig { timestamp_format: format, ..self }),
    {
        let mut config = self;
        config.timestamp_format = format;
        config
    }

    pub fn with_include_level(self, enabled: bool) -> (r: FormatterConfig)
        ensures
            r == (FormatterConfig { include_level: enabled, ..self }),
    {
        let mut config = self;
        config.include_level = enabled;
        config
    }

    pub fn with_include_thread_id(self, enabled: bool) -> (r: FormatterConfig)
        ensures
            r == (FormatterConfig { include_thread_id: enabled, ..self }),
    {
        let mut config = self;
        config.include_thread_id = enabled;
        config
    }

    pub fn with_include_file_location(self, enabled: bool) -> (r: FormatterConfig)
        ensures
            r == (FormatterConfig { include_file_location: enabled, ..self }),
    {
        let mut config = self;
        config.include_file_location = enabled;
        config
    }

    pub fn with_level_uppercase(self, uppercase: bool) -> (r: FormatterConfig)
        ensures
            r == (FormatterConfig { level_uppercase: uppercase, ..self }),
    {
        let mut config = self;
        config.level_uppercase = uppercase;
        config
    }

    /// Sets a `strftime` pattern as the timestamp format.
    pub fn with_custom_timestamp(self, format_str: &str) -> (r: FormatterConfig)
        ensures
            r.timestamp_format matches TimestampFormat::Custom(p) && p@ == format_str@,
            r.include_level == self.include_level,
            r.include_thread_id == self.include_thread_id,
            r.include_file_location == self.include_file_location,
            r.level_uppercase == self.level_uppercase,
    {
        let mut config = self;
        config.timestamp_format = TimestampFormat::Custom(format_str.to_owned());
        config
    }

    /// Puts the configuration behind a shared pointer.
    pub fn shared(self) -> (r: Arc<FormatterConfig>)
        ensures
            *r == self,
    {
        Arc::new(self)
    }
}

} // verus!
