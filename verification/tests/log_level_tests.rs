use rust_logger_system::log_level::LogLevel;

fn all_levels() -> Vec<LogLevel> {
    vec![
        LogLevel::Trace,
        LogLevel::Debug,
        LogLevel::Info,
        LogLevel::Warn,
        LogLevel::Error,
        LogLevel::Fatal,
    ]
}

#[test]
fn test_log_level_str_roundtrip() {
    for level in all_levels() {
        let as_str = level.to_str();
        let parsed: LogLevel = as_str.parse().unwrap();
        assert_eq!(level, parsed);
        assert_eq!(LogLevel::from_str(as_str), Some(level));
        assert_eq!(LogLevel::from_upper(as_str), Some(level));
    }
}

#[test]
fn test_log_level_ordering() {
    for level1 in all_levels() {
        for level2 in all_levels() {
            let val1 = level1.ordinal();
            let val2 = level2.ordinal();
            assert_eq!(level1 <= level2, val1 <= val2);
            assert_eq!(level1 < level2, val1 < val2);
            assert_eq!(level1 >= level2, val1 >= val2);
            assert_eq!(level1 > level2, val1 > val2);
            assert_eq!(level1.at_least(level2), val1 >= val2);
        }
    }
}

#[test]
fn level_names() {
    assert_eq!(LogLevel::Trace.to_str(), "TRACE");
    assert_eq!(LogLevel::Debug.to_str(), "DEBUG");
    assert_eq!(LogLevel::Info.to_str(), "INFO");
    assert_eq!(LogLevel::Warn.to_str(), "WARN");
    assert_eq!(LogLevel::Error.to_str(), "ERROR");
    assert_eq!(LogLevel::Fatal.to_str(), "FATAL");
    assert_eq!(LogLevel::Trace.ordinal(), 0);
    assert_eq!(LogLevel::Fatal.ordinal(), 5);
}

#[test]
fn level_is_read_in_any_case() {
    assert_eq!(LogLevel::from_str("trace"), Some(LogLevel::Trace));
    assert_eq!(LogLevel::from_str("Debug"), Some(LogLevel::Debug));
    assert_eq!(LogLevel::from_str("iNfO"), Some(LogLevel::Info));
    assert_eq!(LogLevel::from_str("warn"), Some(LogLevel::Warn));
    assert_eq!(LogLevel::from_str("warning"), Some(LogLevel::Warn));
    assert_eq!(LogLevel::from_str("WARNING"), Some(LogLevel::Warn));
    assert_eq!(LogLevel::from_str("error"), Some(LogLevel::Error));
    assert_eq!(LogLevel::from_str("fatal"), Some(LogLevel::Fatal));
}

#[test]
fn unknown_level_names_are_refused() {
    assert_eq!(LogLevel::from_str(""), None);
    assert_eq!(LogLevel::from_str("verbose"), None);
    assert_eq!(LogLevel::from_str("INFO "), None);
    assert_eq!(LogLevel::from_str("WARNINGS"), None);
    // only the upper-case name is read by from_upper
    assert_eq!(LogLevel::from_upper("info"), None);
    assert_eq!(LogLevel::from_upper("INFO"), Some(LogLevel::Info));
}

#[test]
fn default_level_is_info() {
    assert_eq!(LogLevel::default(), LogLevel::Info);
}

#[test]
fn test_log_level_display() {
    for level in all_levels() {
        assert_eq!(level.to_string(), level.to_str());
    }
}

#[test]
fn parse_reports_what_it_could_not_read() {
    assert_eq!(LogLevel::parse("warn"), Ok(LogLevel::Warn));
    assert_eq!(
        LogLevel::parse("loud"),
        Err("Invalid log level: 'loud'".to_string())
    );
    let parsed: Result<LogLevel, String> = "???".parse();
    assert_eq!(parsed, Err("Invalid log level: '???'".to_string()));
}
