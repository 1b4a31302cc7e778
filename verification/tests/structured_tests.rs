use rust_logger_system::appenders::file::{
    format_file_line, format_rotating_line, sink_time, time_pattern,
};
use rust_logger_system::appenders::network::{
    after_failed_send, not_connected, reconnect_failure, SendRecovery,
};
use rust_logger_system::appenders::rotating_file::{after_failed_rotation, RotationRecovery};
use rust_logger_system::error::LoggerError;
use rust_logger_system::log_context::{FieldValue, LogContext};
use rust_logger_system::log_entry::LogEntry;
use rust_logger_system::log_level::LogLevel;
use rust_logger_system::logger::{Disposition, Logger};
use rust_logger_system::logger_context::LoggerContext;
use rust_logger_system::output_format::{JsonTime, OutputFormat};
use rust_logger_system::structured_builder::StructuredLogBuilder;
use rust_logger_system::structured_entry::{StructuredLogEntry, TracingContext};
use rust_logger_system::timestamp::{Timestamp, TimestampFormat};

fn entry(level: LogLevel, message: &str) -> LogEntry {
    LogEntry::at(level, message, Timestamp::new(1_736_332_245, 123_456_000).unwrap())
        .with_thread("ThreadId(1)".to_string(), Some("main".to_string()))
}

#[test]
fn test_json_format() {
    let record = entry(LogLevel::Error, "Error occurred");
    let result = OutputFormat::Json.format(&record, &TimestampFormat::Iso8601).unwrap();

    // Parse as JSON to verify structure
    let parsed: serde_json::Value = serde_json::from_str(&result).unwrap();
    assert_eq!(parsed["level"], "ERROR");
    assert_eq!(parsed["message"], "Error occurred");
    assert!(parsed["timestamp"].is_string());
    assert_eq!(parsed["timestamp"], "2025-01-08T10:30:45.123Z");
    assert_eq!(parsed["thread_id"], "ThreadId(1)");
    assert_eq!(parsed["thread_name"], "main");
    assert!(parsed.get("file").is_none());
    assert_eq!(
        result,
        "{\"level\":\"ERROR\",\"message\":\"Error occurred\",\"thread_id\":\"ThreadId(1)\",\"thread_name\":\"main\",\"timestamp\":\"2025-01-08T10:30:45.123Z\"}"
    );
}

#[test]
fn test_json_format_with_context() {
    let context = LogContext::new()
        .with_field("request_id", FieldValue::from_text("abc-123"))
        .with_field("latency_ms", FieldValue::Int(42));
    let record = entry(LogLevel::Info, "Request completed").with_context(context);
    let result = OutputFormat::Json.format(&record, &TimestampFormat::Iso8601).unwrap();

    let parsed: serde_json::Value = serde_json::from_str(&result).unwrap();
    assert_eq!(parsed["request_id"], "abc-123");
    assert_eq!(parsed["latency_ms"], 42);
}

#[test]
fn json_format_with_every_kind_of_member() {
    let context = LogContext::new()
        .with_field("flag", FieldValue::Bool(true))
        .with_field("nothing", FieldValue::Null)
        .with_field("ratio", FieldValue::decimal("2.5", "2.5"))
        .with_field("broken", FieldValue::decimal("NaN", "NaN"))
        .with_field("level", FieldValue::from_text("overridden"));
    let record = entry(LogLevel::Warn, "m")
        .with_location("a.rs", 12, "app")
        .with_context(context);
    let result = OutputFormat::Json.format(&record, &TimestampFormat::UnixMillis).unwrap();
    let parsed: serde_json::Value = serde_json::from_str(&result).unwrap();
    assert_eq!(parsed["timestamp"], 1_736_332_245_123i64);
    assert_eq!(parsed["flag"], true);
    assert!(parsed["nothing"].is_null());
    assert_eq!(parsed["ratio"], 2.5);
    assert!(parsed["broken"].is_null());
    assert_eq!(parsed["level"], "overridden");
    assert_eq!(parsed["line"], 12);
    assert_eq!(parsed["file"], "a.rs");
    assert_eq!(parsed["module_path"], "app");

    let seconds = OutputFormat::Json.format(&record, &TimestampFormat::Unix).unwrap();
    let parsed: serde_json::Value = serde_json::from_str(&seconds).unwrap();
    assert_eq!(parsed["timestamp"], 1_736_332_245i64);
    let micros = OutputFormat::Json.format(&record, &TimestampFormat::UnixMicros).unwrap();
    let parsed: serde_json::Value = serde_json::from_str(&micros).unwrap();
    assert_eq!(parsed["timestamp"], 1_736_332_245_123_456i64);
}

#[test]
fn json_time_member() {
    let record = entry(LogLevel::Info, "m");
    let format = OutputFormat::Json;
    assert!(matches!(
        format.format_timestamp_json(&record, &TimestampFormat::Unix),
        Some(JsonTime::Number(1_736_332_245))
    ));
    match format.format_timestamp_json(&record, &TimestampFormat::Iso8601Micros) {
        Some(JsonTime::Text(t)) => assert_eq!(t, "2025-01-08T10:30:45.123456Z"),
        _ => panic!("expected a text"),
    }
    assert!(format
        .format_timestamp_json(&record, &TimestampFormat::Custom("%Q".to_string()))
        .is_none());
    assert_eq!(
        format.format_json(&record, &JsonTime::Number(5)).unwrap(),
        "{\"level\":\"INFO\",\"message\":\"m\",\"thread_id\":\"ThreadId(1)\",\"thread_name\":\"main\",\"timestamp\":5}"
    );
}

#[test]
fn format_dispatches_on_the_output_format() {
    let record = entry(LogLevel::Info, "hello");
    assert_eq!(
        OutputFormat::Text.format(&record, &TimestampFormat::Unix).unwrap(),
        "[1736332245] [INFO ] main - hello"
    );
    assert_eq!(
        OutputFormat::Logfmt.format(&record, &TimestampFormat::Unix).unwrap(),
        "timestamp=1736332245 level=INFO message=\"hello\" thread_id=ThreadId(1) thread_name=main"
    );
    let bad = TimestampFormat::Custom("%Q".to_string());
    assert_eq!(OutputFormat::Text.format(&record, &bad), None);
    assert_eq!(OutputFormat::Logfmt.format(&record, &bad), None);
    assert_eq!(OutputFormat::Json.format(&record, &bad), None);
}

#[test]
fn level_colors() {
    assert_eq!(LogLevel::Trace.color_code(), colored::Color::BrightBlack);
    assert_eq!(LogLevel::Debug.color_code(), colored::Color::Blue);
    assert_eq!(LogLevel::Info.color_code(), colored::Color::Green);
    assert_eq!(LogLevel::Warn.color_code(), colored::Color::Yellow);
    assert_eq!(LogLevel::Error.color_code(), colored::Color::Red);
    assert_eq!(LogLevel::Fatal.color_code(), colored::Color::BrightRed);
}

#[test]
fn sink_lines() {
    let record = entry(LogLevel::Info, "started");
    assert_eq!(time_pattern(), "%Y-%m-%d %H:%M:%S%.3f");
    assert_eq!(sink_time(&record).unwrap(), "2025-01-08 10:30:45.123");
    assert_eq!(
        format_file_line("2025-01-08 10:30:45.123", &record),
        "[2025-01-08 10:30:45.123] [INFO ] [main] started\n"
    );
    assert_eq!(format_rotating_line("T", &record), "[T] [INFO] started\n");
    let with_fields = entry(LogLevel::Error, "failed")
        .with_context(LogContext::new().with_field("code", FieldValue::Int(7)));
    assert_eq!(format_file_line("T", &with_fields), "[T] [ERROR] [main] failed | code=7\n");
    let with_empty = entry(LogLevel::Error, "failed").with_context(LogContext::new());
    assert_eq!(format_file_line("T", &with_empty), "[T] [ERROR] [main] failed | \n");
}

#[test]
fn test_append_without_connection() {
    assert_eq!(
        not_connected(),
        LoggerError::WriterError("Network stream not connected".to_string())
    );
    assert_eq!(after_failed_send(true), SendRecovery::Reconnect);
    assert_eq!(after_failed_send(false), SendRecovery::Fail);
    assert_eq!(
        reconnect_failure("broken pipe", "refused").to_string(),
        "Writer error: Failed to send log and reconnect: broken pipe (reconnect: refused)"
    );
    assert_eq!(after_failed_rotation(true), RotationRecovery::KeepWriting);
    assert_eq!(after_failed_rotation(false), RotationRecovery::Reopen);
}

#[test]
fn test_logger_context_basic() {
    let ctx = LoggerContext::new();
    ctx.set("service", FieldValue::from_text("api-gateway"));
    ctx.set("version", FieldValue::from_text("1.2.3"));

    let fields = ctx.get_fields();
    assert_eq!(fields.len(), 2);
    assert_eq!(ctx.len(), 2);
    assert!(!ctx.is_empty());
    assert!(LoggerContext::default().is_empty());
}

#[test]
fn test_logger_context_remove() {
    let ctx = LoggerContext::new();
    ctx.set("key1", FieldValue::from_text("value1"));
    ctx.set("key2", FieldValue::from_text("value2"));

    assert_eq!(ctx.get_fields().len(), 2);

    ctx.remove("key1");
    assert_eq!(ctx.get_fields().len(), 1);
    assert!(ctx.get_fields().get("key1").is_none());
    ctx.remove("absent");
    assert_eq!(ctx.get_fields().len(), 1);
}

#[test]
fn test_logger_context_clear() {
    let ctx = LoggerContext::new();
    ctx.set("key1", FieldValue::from_text("value1"));
    ctx.set("key2", FieldValue::from_text("value2"));

    ctx.clear();
    assert!(ctx.get_fields().is_empty());
}

#[test]
fn test_logger_context_merge_into() {
    let logger_ctx = LoggerContext::new();
    logger_ctx.set("service", FieldValue::from_text("api"));
    logger_ctx.set("version", FieldValue::from_text("1.0"));

    let mut log_ctx = LogContext::new().with_field("user_id", FieldValue::Int(123));

    logger_ctx.merge_into(&mut log_ctx);

    // Should have both its own and the merged fields
    assert_eq!(log_ctx.fields().len(), 3);
    assert!(log_ctx.get("service").is_some());
    assert!(log_ctx.get("version").is_some());
    assert!(log_ctx.get("user_id").is_some());
    assert_eq!(log_ctx.format_fields(), "user_id=123 service=api version=1.0");
}

#[test]
fn test_logger_context_merge_priority() {
    let logger_ctx = LoggerContext::new();
    logger_ctx.set("key", FieldValue::from_text("logger_value"));

    let mut log_ctx = LogContext::new().with_field("key", FieldValue::from_text("entry_value"));

    logger_ctx.merge_into(&mut log_ctx);

    // Entry-level field should take priority
    match log_ctx.get("key") {
        Some(FieldValue::String(s)) => assert_eq!(s, "entry_value"),
        _ => panic!("Expected string value"),
    }
    assert_eq!(log_ctx.len(), 1);
}

#[test]
fn logger_context_is_shared_between_its_clones() {
    let ctx = LoggerContext::new();
    let other = ctx.clone();
    other.set("k", FieldValue::Int(1));
    assert_eq!(ctx.len(), 1);
    assert_eq!(ctx.to_log_context().format_fields(), "k=1");
}

#[test]
fn test_structured_entry_creation() {
    let context = LogContext::new()
        .with_field("user_id", FieldValue::Int(12345))
        .with_field("username", FieldValue::from_text("alice"))
        .with_field("success", FieldValue::Bool(true));

    let tracing = TracingContext::new("trace-123".to_string(), "span-456".to_string());

    let record = StructuredLogEntry::from_context(LogLevel::Info, "Test message", context)
        .with_tracing(tracing);

    assert_eq!(record.level, LogLevel::Info);
    assert_eq!(record.message, "Test message");
    assert!(record.tracing.is_some());
    assert!(record.timestamp > 1_600_000_000_000);
    let plain = StructuredLogEntry::new(LogLevel::Debug, "plain");
    assert!(plain.context.is_empty());
    assert!(plain.tracing.is_none());
}

#[test]
fn structured_entry_from_a_record() {
    let record = entry(LogLevel::Warn, "a\nb")
        .with_context(LogContext::new().with_field("k", FieldValue::Int(1)));
    let structured = StructuredLogEntry::from_entry(&record);
    assert_eq!(structured.timestamp, 1_736_332_245_123);
    assert_eq!(structured.level, LogLevel::Warn);
    assert_eq!(structured.message, "a\\nb");
    assert_eq!(structured.context.format_fields(), "k=1");
    let bare = StructuredLogEntry::from_entry(&entry(LogLevel::Info, "m"));
    assert!(bare.context.is_empty());
}

#[test]
fn test_structured_builder_basic() {
    let (logger, _) = Logger::builder().min_level(LogLevel::Trace).build().unwrap();

    let outcome = logger
        .info_builder()
        .message("Test message")
        .field("key", FieldValue::from_text("value"))
        .log();
    assert_eq!(outcome, Disposition::Written { failed: false });
}

#[test]
fn test_structured_builder_multiple_fields() {
    let (logger, _) = Logger::builder().min_level(LogLevel::Trace).build().unwrap();

    logger
        .debug_builder()
        .message("Multiple fields test")
        .field("string_field", FieldValue::from_text("hello"))
        .field("int_field", FieldValue::Int(42))
        .field("float_field", FieldValue::decimal("3.14", "3.14"))
        .field("bool_field", FieldValue::Bool(true))
        .log();
    assert_eq!(logger.metrics().total_logged(), 1);
}

#[test]
fn test_structured_builder_all_levels() {
    let (logger, _) = Logger::builder().min_level(LogLevel::Trace).build().unwrap();

    logger.trace_builder().message("Trace").log();
    logger.debug_builder().message("Debug").log();
    logger.info_builder().message("Info").log();
    logger.warn_builder().message("Warn").log();
    logger.error_builder().message("Error").log();
    logger.fatal_builder().message("Fatal").log();
    assert_eq!(logger.metrics().total_logged(), 6);
}

#[test]
fn test_structured_builder_with_context() {
    let (logger, _) = Logger::builder().min_level(LogLevel::Trace).build().unwrap();

    let ctx = LogContext::new()
        .with_field("request_id", FieldValue::from_text("abc-123"))
        .with_field("user_id", FieldValue::Int(999));

    let outcome = logger
        .info_builder()
        .message("With context")
        .fields(ctx)
        .field("additional", FieldValue::from_text("field"))
        .location("main.rs", 3, "app")
        .log();
    assert_eq!(outcome, Disposition::Written { failed: false });
}

#[test]
fn test_structured_builder_empty_message() {
    let (logger, _) = Logger::builder().min_level(LogLevel::Trace).build().unwrap();

    // Empty message should work
    let outcome = logger.info_builder().field("key", FieldValue::from_text("value")).log();
    assert_eq!(outcome, Disposition::Written { failed: false });
}

#[test]
fn structured_builder_is_filtered_like_any_record() {
    let logger = Logger::new();
    assert_eq!(
        StructuredLogBuilder::new(&logger, LogLevel::Debug).message("below").log(),
        Disposition::Filtered
    );
    assert_eq!(logger.metrics().total_logged(), 0);
}
