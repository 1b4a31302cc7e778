use rust_logger_system::appenders::console::{ConsoleAppender, ConsoleStream};
use rust_logger_system::appenders::rotating_file::{
    after_deletion, backup_name, grown_size, plan_rotation, plan_shifts, BackupShift,
    DeletionOutcome, RotationPolicy, RotationState, RotationStep,
};
use rust_logger_system::error::LoggerError;
use rust_logger_system::dispatch::count_drop;
use rust_logger_system::log_context::FieldValue;
use rust_logger_system::metrics::LoggerMetrics;
use rust_logger_system::log_level::LogLevel;
use rust_logger_system::output_format::OutputFormat;
use rust_logger_system::structured_entry::TracingContext;

#[test]
fn test_rotation_policy_builder() {
    let policy = RotationPolicy::new()
        .with_max_size(1024)
        .with_max_backups(3)
        .with_compression(true);

    assert_eq!(policy.max_file_size, 1024);
    assert_eq!(policy.max_backup_files, 3);
    assert!(policy.compress);
}

#[test]
fn rotation_policy_default() {
    let policy = RotationPolicy::default();
    assert_eq!(policy.max_file_size, 10 * 1024 * 1024);
    assert_eq!(policy.max_backup_files, 5);
    assert!(!policy.compress);
    assert!(!policy.should_rotate(10 * 1024 * 1024 - 1));
    assert!(policy.should_rotate(10 * 1024 * 1024));
}

#[test]
fn rotation_backup_names_and_plan() {
    assert_eq!(backup_name("rotation.log", 1), "rotation.log.1");
    assert_eq!(backup_name("app.log", 12), "app.log.12");
    assert_eq!(
        plan_shifts(3),
        vec![BackupShift { from: 2, to: 3 }, BackupShift { from: 1, to: 2 }]
    );
    assert_eq!(plan_shifts(1), vec![]);
    assert_eq!(plan_shifts(0), vec![]);
}

#[test]
fn rotation_stops_after_five_failed_deletions() {
    assert_eq!(after_deletion(3, false), DeletionOutcome::Proceed { failures: 0 });
    assert_eq!(after_deletion(0, true), DeletionOutcome::Proceed { failures: 1 });
    assert_eq!(after_deletion(3, true), DeletionOutcome::Proceed { failures: 4 });
    assert_eq!(after_deletion(4, true), DeletionOutcome::Abort { failures: 5 });
    assert_eq!(grown_size(10, 5), 15);
    assert_eq!(grown_size(u64::MAX, 5), u64::MAX);
}

#[test]
fn test_output_format_default() {
    let format = OutputFormat::default();
    assert_eq!(format, OutputFormat::Text);
}

#[test]
fn test_tracing_context() {
    let tracing = TracingContext::new("trace-abc".to_string(), "span-123".to_string())
        .with_parent("span-000".to_string());

    assert_eq!(tracing.trace_id, "trace-abc");
    assert_eq!(tracing.span_id, "span-123");
    assert_eq!(tracing.parent_span_id, Some("span-000".to_string()));
}

#[test]
fn tracing_context_without_parent() {
    let tracing = TracingContext::new("t".to_string(), "s".to_string());
    assert_eq!(tracing.parent_span_id, None);
    assert_eq!(tracing.clone(), tracing);
}

#[test]
fn console_appender_settings() {
    assert!(ConsoleAppender::new().uses_colors());
    assert!(ConsoleAppender::default().uses_colors());
    assert!(!ConsoleAppender::with_colors(false).uses_colors());
    let console = ConsoleAppender::new();
    assert_eq!(console.stream_for(LogLevel::Error), ConsoleStream::Stderr);
    assert_eq!(console.stream_for(LogLevel::Fatal), ConsoleStream::Stderr);
    assert_eq!(console.stream_for(LogLevel::Warn), ConsoleStream::Stdout);
    assert_eq!(console.stream_for(LogLevel::Trace), ConsoleStream::Stdout);
    assert_eq!(console.name(), "console");
}

#[test]
fn rotation_steps_in_order() {
    let policy = RotationPolicy::new().with_max_backups(3).with_compression(true);
    assert_eq!(
        plan_rotation(&policy),
        vec![
            RotationStep::CloseCurrent,
            RotationStep::DeleteBackup(3),
            RotationStep::ShiftBackup(BackupShift { from: 2, to: 3 }),
            RotationStep::ShiftBackup(BackupShift { from: 1, to: 2 }),
            RotationStep::ArchiveCurrent { compress: true },
            RotationStep::OpenNew,
        ]
    );
    let none = RotationPolicy::new().with_max_backups(0);
    assert_eq!(
        plan_rotation(&none),
        vec![
            RotationStep::CloseCurrent,
            RotationStep::DeleteBackup(0),
            RotationStep::ArchiveCurrent { compress: false },
            RotationStep::OpenNew,
        ]
    );
}

#[test]
fn field_values_as_json() {
    assert_eq!(FieldValue::from_text("a\"b").to_json_value(), serde_json::Value::String("a\"b".to_string()));
    assert_eq!(FieldValue::Int(-3).to_json_value().to_string(), "-3");
    assert_eq!(FieldValue::decimal("0.25", "0.25").to_json_value().to_string(), "0.25");
    assert_eq!(FieldValue::decimal("inf", "inf").to_json_value(), serde_json::Value::Null);
    // a whole value is shown without a fraction and written to JSON with one
    let one = FieldValue::decimal("1", "1.0");
    assert_eq!(one.to_string(), "1");
    assert_eq!(one.to_json_value().to_string(), "1.0");
    assert_eq!(FieldValue::decimal("NaN", "null").to_json_value(), serde_json::Value::Null);
    assert_eq!(FieldValue::Bool(false).to_json_value(), serde_json::Value::Bool(false));
    assert_eq!(FieldValue::Null.to_json_value(), serde_json::Value::Null);
}

#[test]
fn counting_on_the_overflow_path() {
    let mut metrics = LoggerMetrics::new();
    assert_eq!(count_drop(&mut metrics), 1);
    assert_eq!(count_drop(&mut metrics), 2);
    assert_eq!(metrics.dropped_count(), 2);
    assert_eq!(metrics.total_logged(), 0);
}

#[test]
fn rotation_state_bookkeeping() {
    let policy = RotationPolicy::new().with_max_size(100).with_max_backups(2);
    let mut state = RotationState::new(policy, 40);
    assert_eq!(state.current_size(), 40);
    assert_eq!(*state.policy(), policy);
    assert!(!state.should_rotate());
    state.wrote(59);
    assert!(!state.should_rotate());
    state.wrote(1);
    assert!(state.should_rotate());
    assert_eq!(state.plan().len(), 5);

    // four failed deletions are borne, the fifth stops the rotation
    for _ in 0..4 {
        assert_eq!(state.deletion_done(true, "app.log"), Ok(()));
    }
    assert_eq!(
        state.deletion_done(true, "app.log"),
        Err(LoggerError::FileRotationError {
            path: "app.log".to_string(),
            message: "Rotation aborted: failed to delete old backup files 5 consecutive times. \
                      This may indicate insufficient disk space or permission issues."
                .to_string(),
        })
    );
    // a deletion that goes well starts the count again
    assert_eq!(state.deletion_done(false, "app.log"), Ok(()));
    assert_eq!(state.deletion_done(true, "app.log"), Ok(()));

    state.opened_new();
    assert_eq!(state.current_size(), 0);
    state.wrote(u64::MAX);
    state.wrote(5);
    assert_eq!(state.current_size(), u64::MAX);
    state.rotation_failed();
    assert_eq!(state.current_size(), 0);
}
