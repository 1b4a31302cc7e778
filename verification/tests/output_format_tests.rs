use rust_logger_system::appenders::console::{padded_level, ConsoleAppender};
use rust_logger_system::log_context::{FieldValue, LogContext};
use rust_logger_system::log_entry::LogEntry;
use rust_logger_system::log_level::LogLevel;
use rust_logger_system::output_format::OutputFormat;
use rust_logger_system::timestamp::Timestamp;

fn entry(level: LogLevel, message: &str) -> LogEntry {
    LogEntry::at(level, message, Timestamp::new(1_736_332_245, 123_000_000).unwrap())
        .with_thread("ThreadId(1)".to_string(), Some("main".to_string()))
}

#[test]
fn test_text_format() {
    let record = entry(LogLevel::Info, "Test message");
    let result = OutputFormat::Text.format_text(&record, "2025-01-08T10:30:45.123Z");

    assert!(result.contains("INFO"));
    assert!(result.contains("Test message"));
    assert_eq!(result, "[2025-01-08T10:30:45.123Z] [INFO ] main - Test message");
}

#[test]
fn test_text_format_with_context() {
    let context = LogContext::new()
        .with_field("user_id", FieldValue::Int(123))
        .with_field("action", FieldValue::from_text("login"));
    let record = entry(LogLevel::Info, "User logged in").with_context(context);
    let result = OutputFormat::Text.format_text(&record, "T");

    assert!(result.contains("User logged in"));
    assert!(result.contains("user_id=123"));
    assert!(result.contains("action=login"));
    assert_eq!(result, "[T] [INFO ] main - User logged in user_id=123 action=login");
}

#[test]
fn text_format_with_empty_context_and_unnamed_thread() {
    let record = LogEntry::at(LogLevel::Error, "m", Timestamp::new(0, 0).unwrap())
        .with_thread("ThreadId(7)".to_string(), None)
        .with_context(LogContext::new());
    assert_eq!(OutputFormat::Text.format_text(&record, "T"), "[T] [ERROR] ThreadId(7) - m");
}

#[test]
fn test_logfmt_format() {
    let record = entry(LogLevel::Warn, "Warning message");
    let result = OutputFormat::Logfmt.format_logfmt(&record, "2025-01-08T10:30:45.123Z");

    assert!(result.contains("level=WARN"));
    assert!(result.contains("message=\"Warning message\""));
    assert_eq!(
        result,
        "timestamp=2025-01-08T10:30:45.123Z level=WARN message=\"Warning message\" thread_id=ThreadId(1) thread_name=main"
    );
}

#[test]
fn test_logfmt_format_with_context() {
    let context = LogContext::new()
        .with_field("user", FieldValue::from_text("alice"))
        .with_field("count", FieldValue::Int(5));
    let record = entry(LogLevel::Debug, "Debug info").with_context(context);
    let result = OutputFormat::Logfmt.format_logfmt(&record, "T");

    assert!(result.contains("user=\"alice\"") || result.contains("user=alice"));
    assert!(result.contains("count=5"));
}

#[test]
fn test_logfmt_escape_special_chars() {
    let context = LogContext::new()
        .with_field("query", FieldValue::from_text("SELECT * FROM users WHERE id=1"));
    let record = entry(LogLevel::Debug, "Query executed").with_context(context);
    let result = OutputFormat::Logfmt.format_logfmt(&record, "T");

    // Value with = should be quoted
    assert!(result.contains("query=\"SELECT * FROM users WHERE id=1\""));
}

#[test]
fn logfmt_full_line() {
    let context = LogContext::new()
        .with_field("bad key!", FieldValue::Bool(true))
        .with_field("n", FieldValue::Null)
        .with_field("f", FieldValue::decimal("1.5", "1.5"));
    let record = LogEntry::at(LogLevel::Fatal, "say \"hi\"", Timestamp::new(0, 0).unwrap())
        .with_thread("t1".to_string(), None)
        .with_location("src/my file.rs", 9, "app::core")
        .with_context(context);
    assert_eq!(
        OutputFormat::Logfmt.format_logfmt(&record, "1 2"),
        "timestamp=\"1 2\" level=FATAL message=\"say \\\"hi\\\"\" thread_id=t1 file=\"src/my file.rs\" line=9 module_path=app::core badkey=true n=null f=1.5"
    );
}

#[test]
fn logfmt_escaping() {
    let format = OutputFormat::Logfmt;
    assert_eq!(format.escape_logfmt_key("user_id"), "user_id");
    assert_eq!(format.escape_logfmt_key("user id"), "userid");
    assert_eq!(format.escape_logfmt_key("a-b_c.d=e\"f"), "a-b_cdef");
    assert_eq!(format.escape_logfmt_key("größe 1"), "größe1");
    assert_eq!(format.escape_logfmt_key(""), "");

    assert_eq!(format.escape_logfmt_value("plain"), "plain");
    assert_eq!(format.escape_logfmt_value("two words"), "\"two words\"");
    assert_eq!(format.escape_logfmt_value("a=b"), "\"a=b\"");
    assert_eq!(format.escape_logfmt_value("q\"q"), "\"q\\\"q\"");
    assert_eq!(format.escape_logfmt_value("back\\slash"), "back\\slash");
    assert_eq!(format.escape_logfmt_value(""), "");

    assert_eq!(format.quote_logfmt_value("plain"), "\"plain\"");
    assert_eq!(format.quote_logfmt_value(""), "\"\"");
    assert_eq!(format.quote_logfmt_value("a\\b"), "\"a\\\\b\"");
    assert_eq!(format.quote_logfmt_value("a\"b"), "\"a\\\"b\"");
    assert_eq!(format.quote_logfmt_value("\\\""), "\"\\\\\\\"\"");
}

#[test]
fn console_line() {
    let record = entry(LogLevel::Info, "started");
    let console = ConsoleAppender::with_colors(false);
    assert_eq!(
        console.format_line("2025-01-08 10:30:45.123", padded_level(record.level), &record),
        "[2025-01-08 10:30:45.123] [INFO ] main - started"
    );
    assert_eq!(padded_level(LogLevel::Warn), "WARN ");
    assert_eq!(padded_level(LogLevel::Trace), "TRACE");
}
