//! The errors of the library.

use vstd::prelude::*;
use vstd::string::StringExecFns;
use crate::text::{decimal_digits, push_decimal};

verus! {

/// Why an operation of the logger or of a sink failed. An error that came
/// from the operating system or from an encoder is kept by its message.
#[derive(Debug, Clone, PartialEq, Eq)]
pub enum LoggerError {
    /// An I/O error, with what was being done when it came.
    IoOperation { operation: String, message: String, source: String },
    /// An I/O error.
    IoError(String),
    /// An error of the JSON encoder.
    JsonError(String),
    /// The queue holds `current` of at most `max` records and takes no more.
    QueueFull { current: usize, max: usize },
    /// The queue overflowed and records were dropped.
    QueueOverflow { dropped_count: usize },
    /// The logger was stopped before.
    LoggerStopped,
    /// A component was configured with a value it cannot work with.
    InvalidConfiguration { component: String, message: String },
    /// A file sink failed on the file at `path`.
    FileAppenderError { path: String, message: String },
    /// The file at `path` could not be rotated.
    FileRotationError { path: String, message: String },
    /// The file at `path` could not be locked.
    FileLockError { path: String },
    /// A sink could not write.
    WriterError(String),
    /// An encoder failed.
    FormatterError { format_type: String, message: String },
    /// The queue did not take a record.
    ChannelSendError,
    /// The queue did not hand out a record.
    ChannelReceiveError,
    /// Any other failure.
    Other(String),
}

pub type Result<T> = std::result::Result<T, LoggerError>;

impl LoggerError {
    /// The message that describes the error.
    pub open spec fn text(self) -> Seq<char> {
        match self {
            LoggerError::IoOperation { operation, message, source } => "IO error while "@
                + operation@ + ": "@ + message@,
            LoggerError::IoError(e) => "IO error: "@ + e@,
            LoggerError::JsonError(e) => "JSON error: "@ + e@,
            LoggerError::QueueFull { current, max } => "Log queue full: "@ + decimal_digits(
                current as nat,
            ) + "/"@ + decimal_digits(max as nat) + " messages buffered"@,
            LoggerError::QueueOverflow { dropped_count } => "Log queue overflow: dropped "@
                + decimal_digits(dropped_count as nat) + " messages"@,
            LoggerError::LoggerStopped => "Logger already stopped"@,
            LoggerError::InvalidConfiguration { component, message } =>
                "Invalid configuration for "@ + component@ + ": "@ + message@,
            LoggerError::FileAppenderError { path, message } => "File appender error for '"@
                + path@ + "': "@ + message@,
            LoggerError::FileRotationError { path, message } => "File rotation failed for '"@
                + path@ + "': "@ + message@,
            LoggerError::FileLockError { path } => "Failed to acquire file lock on '"@ + path@
                + "'"@,
            LoggerError::WriterError(m) => "Writer error: "@ + m@,
            LoggerError::FormatterError { format_type, message } => "Formatter error ("@
                + format_type@ + "): "@ + message@,
            LoggerError::ChannelSendError => "Failed to send log entry to async worker"@,
            LoggerError::ChannelReceiveError => "Failed to receive log entry from channel"@,
            LoggerError::Other(m) => m@,
        }
    }

    /// The message that describes the error.
    pub fn to_string(&self) -> (r: String)
        ensures
            r@ == self.text(),
    {
        match self {
            LoggerError::IoOperation { operation, message, source } => {
                let mut out = "IO error while ".to_owned();
                out.append(operation.as_str());
                out.append(": ");
                out.append(message.as_str());
                out
            },
            LoggerError::IoError(e) => {
                let mut out = "IO error: ".to_owned();
                out.append(e.as_str());
                out
            },
            LoggerError::JsonError(e) => {
                let mut out = "JSON error: ".to_owned();
                out.append(e.as_str());
                out
            },
            LoggerError::QueueFull { current, max } => {
                let mut out = "Log queue full: ".to_owned();
                push_decimal(&mut out, *current as u64);
                out.append("/");
                push_decimal(&mut out, *max as u64);
                out.append(" messages buffered");
                out
            },
            LoggerError::QueueOverflow { dropped_count } => {
                let mut out = "Log queue overflow: dropped ".to_owned();
                push_decimal(&mut out, *dropped_count as u64);
                out.append(" messages");
                out
            },
            LoggerError::LoggerStopped => "Logger already stopped".to_owned(),
            LoggerError::InvalidConfiguration { component, message } => {
                let mut out = "Invalid configuration for ".to_owned();
                out.append(component.as_str());
                out.append(": ");
                out.append(message.as_str());
                out
            },
            LoggerError::FileAppenderError { path, message } => {
                let mut out = "File appender error for '".to_owned();
                out.append(path.as_str());
                out.append("': ");
                out.append(message.as_str());
                out
            },
            LoggerError::FileRotationError { path, message } => {
                let mut out = "File rotation failed for '".to_owned();
                out.append(path.as_str());
                out.append("': ");
                out.append(message.as_str());
                out
            },
            LoggerError::FileLockError { path } => {
                let mut out = "Failed to acquire file lock on '".to_owned();
                out.append(path.as_str());
                out.append("'");
                out
            },
            LoggerError::WriterError(m) => {
                let mut out = "Writer error: ".to_owned();
                out.append(m.as_str());
                out
            },
            LoggerError::FormatterError { format_type, message } => {
                let mut out = "Formatter error (".to_owned();
                out.append(format_type.as_str());
                out.append("): ");
                out.append(message.as_str());
                out
            },
            LoggerError::ChannelSendError => "Failed to send log entry to async worker".to_owned(),
            LoggerError::ChannelReceiveError => "Failed to receive log entry from channel".to_owned(),
            LoggerError::Other(m) => {
                let mut out = String::new();
                out.append(m.as_str());
                out
            },
        }
    }

    /// An I/O error met while doing `operation`; `source` is the message of
    /// the underlying error.
    pub fn io_operation(operation: &str, message: &str, source: &str) -> (r: LoggerError)
        ensures
            r matches LoggerError::IoOperation { operation: o, message: m, source: s } && o@
                == operation@ && m@ == message@ && s@ == source@,
    {
        LoggerError::IoOperation {
            operation: operation.to_owned(),
            message: message.to_owned(),
            source: source.to_owned(),
        }
    }

    pub fn queue_full(current: usize, max: usize) -> (r: LoggerError)
        ensures
            r == (LoggerError::QueueFull { current, max }),
    {
        LoggerError::QueueFull { current, max }
    }

    pub fn queue_overflow(dropped_count: usize) -> (r: LoggerError)
        ensures
            r == (LoggerError::QueueOverflow { dropped_count }),
    {
        LoggerError::QueueOverflow { dropped_count }
    }

    pub fn config(component: &str, message: &str) -> (r: LoggerError)
        ensures
            r matches LoggerError::InvalidConfiguration { component: c, message: m } && c@
                == component@ && m@ == message@,
    {
        LoggerError::InvalidConfiguration {
            component: component.to_owned(),
            message: message.to_owned(),
        }
    }

    pub fn file_appender(path: &str, message: &str) -> (r: LoggerError)
        ensures
            r matches LoggerError::FileAppenderError { path: p, message: m } && p@ == path@ && m@
                == message@,
    {
        LoggerError::FileAppenderError { path: path.to_owned(), message: message.to_owned() }
    }

    pub fn file_rotation(path: &str, message: &str) -> (r: LoggerError)
        ensures
            r matches LoggerError::FileRotationError { path: p, message: m } && p@ == path@ && m@
                == message@,
    {
        LoggerError::FileRotationError { path: path.to_owned(), message: message.to_owned() }
    }

    pub fn file_lock(path: &str) -> (r: LoggerError)
        ensures
            r matches LoggerError::FileLockError { path: p } && p@ == path@,
    {
        LoggerError::FileLockError { path: path.to_owned() }
    }

    pub fn formatter(format_type: &str, message: &str) -> (r: LoggerError)
        ensures
            r matches LoggerError::FormatterError { format_type: f, message: m } && f@
                == format_type@ && m@ == message@,
    {
        LoggerError::FormatterError {
            format_type: format_type.to_owned(),
            message: message.to_owned(),
        }
    }

    pub fn writer(msg: &str) -> (r: LoggerError)
        ensures
            r matches LoggerError::WriterError(m) && m@ == msg@,
    {
        LoggerError::WriterError(msg.to_owned())
    }

    pub fn other(msg: &str) -> (r: LoggerError)
        ensures
            r matches LoggerError::Other(m) && m@ == msg@,
    {
        LoggerError::Other(msg.to_owned())
    }
}

} // verus!
