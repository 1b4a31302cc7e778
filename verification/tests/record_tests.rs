use rust_logger_system::error::LoggerError;
use rust_logger_system::log_context::{FieldValue, LogContext};
use rust_logger_system::log_entry::{sanitize_message, LogEntry};
use rust_logger_system::log_level::LogLevel;
use rust_logger_system::logger::category_of;
use rust_logger_system::text::{decimal, same_text};
use rust_logger_system::timestamp::Timestamp;

#[test]
fn test_log_context_creation() {
    let ctx = LogContext::new();
    assert!(ctx.is_empty());
}

#[test]
fn test_log_context_with_fields() {
    let ctx = LogContext::new()
        .with_field("user_id", FieldValue::Int(123))
        .with_field("username", FieldValue::from_text("john_doe"))
        .with_field("active", FieldValue::Bool(true));

    assert_eq!(ctx.fields().len(), 3);
    assert!(!ctx.is_empty());
}

#[test]
fn test_log_context_format() {
    let ctx = LogContext::new()
        .with_field("key1", FieldValue::from_text("value1"))
        .with_field("key2", FieldValue::Int(42));

    let formatted = ctx.format_fields();
    assert!(formatted.contains("key1=value1"));
    assert!(formatted.contains("key2=42"));
    assert_eq!(formatted, "key1=value1 key2=42");
    assert_eq!(ctx.to_string(), "key1=value1 key2=42");
}

#[test]
fn log_context_last_write_wins_and_keeps_place() {
    let mut ctx = LogContext::new()
        .with_field("a", FieldValue::Int(1))
        .with_field("b", FieldValue::Null)
        .with_field("c", FieldValue::decimal("2.5", "2.5"));
    ctx.add_field("a", FieldValue::Bool(false));
    assert_eq!(ctx.len(), 3);
    assert_eq!(ctx.get("a"), Some(&FieldValue::Bool(false)));
    assert_eq!(ctx.get("b"), Some(&FieldValue::Null));
    assert_eq!(ctx.get("missing"), None);
    assert_eq!(ctx.format_fields(), "a=false b=null c=2.5");
    assert_eq!(LogContext::new().format_fields(), "");
    let copy = ctx.clone();
    assert_eq!(copy.format_fields(), ctx.format_fields());
    assert!(LogContext::default().is_empty());
}

#[test]
fn field_value_text() {
    assert_eq!(FieldValue::Int(-17).to_string(), "-17");
    assert_eq!(FieldValue::Int(i64::MIN).to_string(), "-9223372036854775808");
    assert_eq!(FieldValue::Int(i64::MAX).to_string(), "9223372036854775807");
    assert_eq!(FieldValue::Int(0).to_string(), "0");
    assert_eq!(FieldValue::Bool(true).to_string(), "true");
    assert_eq!(FieldValue::Null.to_string(), "null");
    assert_eq!(FieldValue::from_text("x y").to_string(), "x y");
    assert_eq!(FieldValue::decimal("3.14", "3.14").clone().to_string(), "3.14");
}

#[test]
fn decimal_text() {
    assert_eq!(decimal(0), "0");
    assert_eq!(decimal(7), "7");
    assert_eq!(decimal(10), "10");
    assert_eq!(decimal(1234567890), "1234567890");
    assert_eq!(decimal(u64::MAX), "18446744073709551615");
    assert!(same_text("abc", "abc"));
    assert!(!same_text("abc", "abd"));
    assert!(!same_text("abc", "ab"));
}

#[test]
fn messages_are_sanitized() {
    assert_eq!(sanitize_message("plain"), "plain");
    assert_eq!(sanitize_message(""), "");
    assert_eq!(sanitize_message("a\nb"), "a\\nb");
    assert_eq!(sanitize_message("a\rb"), "a\\rb");
    assert_eq!(sanitize_message("a\tb"), "a\\tb");
    assert_eq!(sanitize_message("\n\r\t"), "\\n\\r\\t");
    assert_eq!(sanitize_message("back\\slash"), "back\\slash");
    assert_eq!(sanitize_message("ünï\ncödé"), "ünï\\ncödé");
    let entry = LogEntry::new(LogLevel::Info, "line one\nline two\ttabbed\r".to_string());
    assert_eq!(entry.message, "line one\\nline two\\ttabbed\\r");
    assert!(!entry.message.contains('\n'));
    assert!(!entry.message.contains('\r'));
    assert!(!entry.message.contains('\t'));
}

#[test]
fn test_special_characters_escaping() {
    let entry = LogEntry::new(LogLevel::Info, "Tab\there\rCarriage\nNewline".to_string());
    assert_eq!(entry.message, "Tab\\there\\rCarriage\\nNewline");
}

#[test]
fn record_builders() {
    let at = Timestamp::new(1_700_000_000, 5).unwrap();
    let entry = LogEntry::at(LogLevel::Warn, "m", at);
    assert_eq!(entry.level, LogLevel::Warn);
    assert_eq!(entry.timestamp, at);
    assert_eq!(entry.file, None);
    assert_eq!(entry.line, None);
    assert_eq!(entry.module, None);
    assert_eq!(entry.thread_id, "");
    assert_eq!(entry.thread_name, None);
    assert!(entry.context.is_none());
    assert_eq!(entry.thread_display(), "");

    let entry = entry
        .with_location("main.rs", 42, "app::main")
        .with_thread("ThreadId(1)".to_string(), None);
    assert_eq!(entry.file, Some("main.rs".to_string()));
    assert_eq!(entry.line, Some(42));
    assert_eq!(entry.module, Some("app::main".to_string()));
    assert_eq!(entry.thread_display(), "ThreadId(1)");
    let entry = entry.with_thread("ThreadId(1)".to_string(), Some("worker".to_string()));
    assert_eq!(entry.thread_display(), "worker");

    let entry = entry
        .with_context(LogContext::new().with_field("category", FieldValue::from_text("db")));
    assert_eq!(category_of(&entry), Some("db"));
    let copy = entry.clone();
    assert_eq!(copy.message, entry.message);
    assert_eq!(copy.line, entry.line);
    assert_eq!(category_of(&copy), Some("db"));

    let numbered = LogEntry::at(LogLevel::Info, "m", at)
        .with_context(LogContext::new().with_field("category", FieldValue::Int(3)));
    assert_eq!(category_of(&numbered), None);
    assert_eq!(category_of(&LogEntry::at(LogLevel::Info, "m", at)), None);
}

#[test]
fn test_error_creation() {
    let err = LoggerError::queue_full(100, 1000);
    assert!(matches!(err, LoggerError::QueueFull { .. }));

    let err = LoggerError::config("FileAppender", "Invalid path");
    assert!(matches!(err, LoggerError::InvalidConfiguration { .. }));

    let err = LoggerError::file_appender("/var/log/app.log", "Permission denied");
    assert!(matches!(err, LoggerError::FileAppenderError { .. }));
}

#[test]
fn test_error_display() {
    let err = LoggerError::queue_full(100, 1000);
    assert_eq!(err.to_string(), "Log queue full: 100/1000 messages buffered");

    let err = LoggerError::file_rotation("/var/log/app.log", "Disk full");
    assert_eq!(
        err.to_string(),
        "File rotation failed for '/var/log/app.log': Disk full"
    );

    let err = LoggerError::formatter("JSON", "Invalid field type");
    assert_eq!(err.to_string(), "Formatter error (JSON): Invalid field type");
}

#[test]
fn test_io_operation_error() {
    let err = LoggerError::io_operation("writing log file", "cannot write to file", "access denied");

    assert!(matches!(err, LoggerError::IoOperation { .. }));
    assert!(err.to_string().contains("writing log file"));
    assert!(err.to_string().contains("cannot write to file"));
    assert_eq!(err.to_string(), "IO error while writing log file: cannot write to file");
}

#[test]
fn every_error_has_its_message() {
    assert_eq!(LoggerError::IoError("gone".to_string()).to_string(), "IO error: gone");
    assert_eq!(LoggerError::JsonError("bad".to_string()).to_string(), "JSON error: bad");
    assert_eq!(
        LoggerError::queue_overflow(7).to_string(),
        "Log queue overflow: dropped 7 messages"
    );
    assert_eq!(LoggerError::LoggerStopped.to_string(), "Logger already stopped");
    assert_eq!(
        LoggerError::config("Logger", "no").to_string(),
        "Invalid configuration for Logger: no"
    );
    assert_eq!(
        LoggerError::file_appender("a.log", "denied").to_string(),
        "File appender error for 'a.log': denied"
    );
    assert_eq!(
        LoggerError::file_lock("a.log").to_string(),
        "Failed to acquire file lock on 'a.log'"
    );
    assert_eq!(LoggerError::writer("w").to_string(), "Writer error: w");
    assert_eq!(
        LoggerError::ChannelSendError.to_string(),
        "Failed to send log entry to async worker"
    );
    assert_eq!(
        LoggerError::ChannelReceiveError.to_string(),
        "Failed to receive log entry from channel"
    );
    assert_eq!(LoggerError::other("anything").to_string(), "anything");
}

#[test]
fn field_values_from_plain_values() {
    assert_eq!(FieldValue::from(123), FieldValue::Int(123));
    assert_eq!(FieldValue::from(12345_i64), FieldValue::Int(12345));
    assert_eq!(FieldValue::from(true), FieldValue::Bool(true));
    assert_eq!(FieldValue::from("x".to_string()), FieldValue::String("x".to_string()));
    let value: FieldValue = 500_i32.into();
    assert_eq!(value.to_string(), "500");
    let ctx = LogContext::new().with_field("error_code", 500_i32.into());
    assert_eq!(ctx.format_fields(), "error_code=500");
}
