//! Severities and their order.

use vstd::prelude::*;
use vstd::string::StringExecFns;
use crate::text::{same_text, to_uppercase, uppercase_of};

verus! {

/// The severity of a record. The order is
/// `Trace < Debug < Info < Warn < Error < Fatal`.
#[derive(Debug, Clone, Copy, PartialEq, Eq, Structural, PartialOrd, Ord, Hash)]
pub enum LogLevel {
    Trace,
    Debug,
    Info,
    Warn,
    Error,
    Fatal,
}

impl LogLevel {
    /// The position of the severity in the order, from 0 for `Trace` to 5 for
    /// `Fatal`.
    pub open spec fn rank(self) -> nat {
        match self {
            LogLevel::Trace => 0,
            LogLevel::Debug => 1,
            LogLevel::Info => 2,
            LogLevel::Warn => 3,
            LogLevel::Error => 4,
            LogLevel::Fatal => 5,
        }
    }

    /// The upper-case name of the severity.
    pub open spec fn name(self) -> Seq<char> {
        match self {
            LogLevel::Trace => "TRACE"@,
            LogLevel::Debug => "DEBUG"@,
            LogLevel::Info => "INFO"@,
            LogLevel::Warn => "WARN"@,
            LogLevel::Error => "ERROR"@,
            LogLevel::Fatal => "FATAL"@,
        }
    }

    /// The severity that an upper-case name stands for, if any. `WARNING` is
    /// accepted beside `WARN`.
    pub open spec fn named(s: Seq<char>) -> Option<LogLevel> {
        if s == "TRACE"@ {
            Some(LogLevel::Trace)
        } else if s == "DEBUG"@ {
            Some(LogLevel::Debug)
        } else if s == "INFO"@ {
            Some(LogLevel::Info)
        } else if s == "WARN"@ || s == "WARNING"@ {
            Some(LogLevel::Warn)
        } else if s == "ERROR"@ {
            Some(LogLevel::Error)
        } else if s == "FATAL"@ {
            Some(LogLevel::Fatal)
        } else {
            None
        }
    }

    /// The position of the severity in the order.
    pub fn ordinal(&self) -> (r: u8)
        ensures
            r == self.rank(),
    {
        match self {
            LogLevel::Trace => 0,
            LogLevel::Debug => 1,
            LogLevel::Info => 2,
            LogLevel::Warn => 3,
            LogLevel::Error => 4,
            LogLevel::Fatal => 5,
        }
    }

    /// Whether a record of this severity passes a filter set to `min_level`.
    pub fn at_least(&self, min_level: LogLevel) -> (r: bool)
        ensures
            r == (self.rank() >= min_level.rank()),
    {
        self.ordinal() >= min_level.ordinal()
    }

    pub fn to_str(&self) -> (r: &'static str)
        ensures
            r@ == self.name(),
    {
        match self {
            LogLevel::Trace => "TRACE",
            LogLevel::Debug => "DEBUG",
            LogLevel::Info => "INFO",
            LogLevel::Warn => "WARN",
            LogLevel::Error => "ERROR",
            LogLevel::Fatal => "FATAL",
        }
    }

    /// Reads a severity from its upper-case name.
    pub fn from_upper(s: &str) -> (r: Option<LogLevel>)
        ensures
            r == LogLevel::named(s@),
    {
        if same_text(s, "TRACE") {
            Some(LogLevel::Trace)
        } else if same_text(s, "DEBUG") {
            Some(LogLevel::Debug)
        } else if same_text(s, "INFO") {
            Some(LogLevel::Info)
        } else if same_text(s, "WARN") || same_text(s, "WARNING") {
            Some(LogLevel::Warn)
        } else if same_text(s, "ERROR") {
            Some(LogLevel::Error)
        } else if same_text(s, "FATAL") {
            Some(LogLevel::Fatal)
        } else {
            None
        }
    }

    /// Reads a severity from its name in any letter case.
    pub fn from_str(s: &str) -> (r: Option<LogLevel>)
        ensures
            r == LogLevel::named(uppercase_of(s@)),
    {
        let upper = to_uppercase(s);
        LogLevel::from_upper(upper.as_str())
    }
}

/// The message for a text that names no severity.
pub open spec fn invalid_level_text(s: Seq<char>) -> Seq<char> {
    "Invalid log level: '"@ + s + "'"@
}

impl LogLevel {
    /// Reads a severity from its name in any letter case, or tells that the
    /// text names none.
    pub fn parse(s: &str) -> (r: Result<LogLevel, String>)
        ensures
            match LogLevel::named(uppercase_of(s@)) {
                Some(level) => r == Ok::<LogLevel, String>(level),
                None => r matches Err(message) && message@ == invalid_level_text(s@),
            },
    {
        match LogLevel::from_str(s) {
            Some(level) => Ok(level),
            None => {
                let mut message = "Invalid log level: '".to_owned();
                message.append(s);
                message.append("'");
                Err(message)
            },
        }
    }

    /// The upper-case name of the severity.
    pub fn to_string(&self) -> (r: String)
        ensures
            r@ == self.name(),
    {
        self.to_str().to_owned()
    }
}

impl std::str::FromStr for LogLevel {
    type Err = String;

    fn from_str(s: &str) -> (r: Result<LogLevel, String>) {
        LogLevel::parse(s)
    }
}

#[verifier::external_type_specification]
pub struct ExColor(colored::Color);

impl LogLevel {
    /// The colour in which a terminal shows the severity.
    pub open spec fn color(self) -> colored::Color {
        match self {
            LogLevel::Trace => colored::Color::BrightBlack,
            LogLevel::Debug => colored::Color::Blue,
            LogLevel::Info => colored::Color::Green,
            LogLevel::Warn => colored::Color::Yellow,
            LogLevel::Error => colored::Color::Red,
            LogLevel::Fatal => colored::Color::BrightRed,
        }
    }

    /// The colour in which a terminal shows the severity.
    pub fn color_code(&self) -> (r: colored::Color)
        ensures
            r == self.color(),
    {
        match self {
            LogLevel::Trace => colored::Color::BrightBlack,
            LogLevel::Debug => colored::Color::Blue,
            LogLevel::Info => colored::Color::Green,
            LogLevel::Warn => colored::Color::Yellow,
            LogLevel::Error => colored::Color::Red,
            LogLevel::Fatal => colored::Color::BrightRed,
        }
    }
}

impl Default for LogLevel {
    fn default() -> (r: LogLevel)
        ensures
            r == LogLevel::Info,
    {
        LogLevel::Info
    }
}

/// The rank orders the severities: two severities with one rank are equal.
pub proof fn lemma_rank_injective(a: LogLevel, b: LogLevel)
    ensures
        a.rank() == b.rank() <==> a == b,
        a.rank() <= 5,
{
}

/// Every severity is read back from its own name.
pub proof fn lemma_name_round_trip(level: LogLevel)
    ensures
        LogLevel::named(level.name()) == Some(level),
{
    reveal_strlit("TRACE");
    reveal_strlit("DEBUG");
    reveal_strlit("INFO");
    reveal_strlit("WARN");
    reveal_strlit("WARNING");
    reveal_strlit("ERROR");
    reveal_strlit("FATAL");
    assert("TRACE"@[0] == 'T');
    assert("DEBUG"@[0] == 'D');
    assert("INFO"@[0] == 'I');
    assert("WARN"@[0] == 'W');
    assert("WARNING"@[0] == 'W');
    assert("ERROR"@[0] == 'E');
    assert("FATAL"@[0] == 'F');
}

} // verus!
