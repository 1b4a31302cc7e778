use rust_logger_system::log_level::LogLevel;
use rust_logger_system::overflow_policy::{
    apply_policy, decide_overflow, should_alert, LogPriority, OverflowAction, OverflowPolicy,
    PriorityConfig,
};
use std::time::Duration;

#[test]
fn test_overflow_policy_default() {
    let policy = OverflowPolicy::default();
    assert_eq!(policy, OverflowPolicy::AlertAndDrop);
}

#[test]
fn test_overflow_policy_display() {
    assert_eq!(OverflowPolicy::DropNewest.to_string(), "DropNewest");
    assert_eq!(OverflowPolicy::DropOldest.to_string(), "DropOldest");
    assert_eq!(OverflowPolicy::Block.to_string(), "Block");
    assert_eq!(
        OverflowPolicy::BlockWithTimeout(Duration::from_millis(100)).to_string(),
        "BlockWithTimeout(100ms)"
    );
    assert_eq!(OverflowPolicy::AlertAndDrop.to_string(), "AlertAndDrop");
}

#[test]
fn test_log_priority_ordering() {
    assert!(LogPriority::Normal < LogPriority::High);
    assert!(LogPriority::High < LogPriority::Critical);
    assert!(LogPriority::Normal < LogPriority::Critical);
}

#[test]
fn test_log_priority_default() {
    assert_eq!(LogPriority::default(), LogPriority::Normal);
}

#[test]
fn test_priority_config_default() {
    let config = PriorityConfig::default();
    assert!(config.preserve_critical);
    assert!(config.preserve_high);
    assert!(config.block_on_critical);
    assert_eq!(config.high_priority_retry_count, 3);
}

#[test]
fn test_priority_config_display() {
    let config = PriorityConfig::default();
    let display = config.to_string();
    assert!(display.contains("preserve_critical: true"));
    assert!(display.contains("preserve_high: true"));
    assert!(display.contains("block_on_critical: true"));
    assert!(display.contains("high_priority_retry_count: 3"));
}

#[test]
fn test_priority_config_custom() {
    let config = PriorityConfig {
        preserve_critical: true,
        preserve_high: false,
        block_on_critical: false,
        high_priority_retry_count: 5,
    };
    assert!(config.preserve_critical);
    assert!(!config.preserve_high);
    assert!(!config.block_on_critical);
    assert_eq!(config.high_priority_retry_count, 5);
}

#[test]
fn priority_config_display_exact() {
    let config = PriorityConfig {
        preserve_critical: false,
        preserve_high: true,
        block_on_critical: false,
        high_priority_retry_count: 120,
    };
    assert_eq!(
        config.to_string(),
        "PriorityConfig { preserve_critical: false, preserve_high: true, block_on_critical: false, high_priority_retry_count: 120 }"
    );
}

#[test]
fn log_priority_display() {
    assert_eq!(LogPriority::Normal.to_string(), "Normal");
    assert_eq!(LogPriority::High.to_string(), "High");
    assert_eq!(LogPriority::Critical.to_string(), "Critical");
}

#[test]
fn priority_follows_severity() {
    assert_eq!(LogPriority::from_level(LogLevel::Trace), LogPriority::Normal);
    assert_eq!(LogPriority::from_level(LogLevel::Debug), LogPriority::Normal);
    assert_eq!(LogPriority::from_level(LogLevel::Info), LogPriority::Normal);
    assert_eq!(LogPriority::from_level(LogLevel::Warn), LogPriority::High);
    assert_eq!(LogPriority::from_level(LogLevel::Error), LogPriority::Critical);
    assert_eq!(LogPriority::from_level(LogLevel::Fatal), LogPriority::Critical);
}

#[test]
fn critical_is_written_through_under_every_policy() {
    let config = PriorityConfig::default();
    let policies = vec![
        OverflowPolicy::DropNewest,
        OverflowPolicy::DropOldest,
        OverflowPolicy::Block,
        OverflowPolicy::BlockWithTimeout(Duration::from_millis(5)),
        OverflowPolicy::AlertAndDrop,
    ];
    for policy in policies.iter() {
        assert_eq!(
            decide_overflow(policy, &config, LogPriority::Critical),
            OverflowAction::WriteThrough
        );
        assert_ne!(
            decide_overflow(policy, &config, LogPriority::Normal),
            OverflowAction::WriteThrough
        );
        assert_ne!(
            decide_overflow(policy, &config, LogPriority::High),
            OverflowAction::WriteThrough
        );
    }
}

#[test]
fn critical_is_left_to_the_policy_when_not_preserved() {
    let config = PriorityConfig {
        preserve_critical: false,
        preserve_high: false,
        block_on_critical: false,
        high_priority_retry_count: 0,
    };
    assert_eq!(
        decide_overflow(&OverflowPolicy::DropNewest, &config, LogPriority::Critical),
        OverflowAction::Drop
    );
}

#[test]
fn policy_actions() {
    assert_eq!(apply_policy(&OverflowPolicy::DropNewest), OverflowAction::Drop);
    assert_eq!(
        apply_policy(&OverflowPolicy::DropOldest),
        OverflowAction::DropWithAlert { eviction_requested: true }
    );
    assert_eq!(apply_policy(&OverflowPolicy::Block), OverflowAction::Block);
    assert_eq!(
        apply_policy(&OverflowPolicy::BlockWithTimeout(Duration::from_secs(2))),
        OverflowAction::BlockWithTimeout(Duration::from_secs(2))
    );
    assert_eq!(
        apply_policy(&OverflowPolicy::AlertAndDrop),
        OverflowAction::DropWithAlert { eviction_requested: false }
    );
}

#[test]
fn alerts_on_first_and_every_thousandth_drop() {
    assert!(!should_alert(0));
    assert!(should_alert(1));
    assert!(!should_alert(2));
    assert!(!should_alert(999));
    assert!(should_alert(1000));
    assert!(!should_alert(1001));
    assert!(should_alert(2000));
    assert!(should_alert(1_000_000));
}

#[test]
fn retries_only_for_preserved_high_priority() {
    let config = PriorityConfig::default();
    assert_eq!(config.retries_for(LogPriority::High), 3);
    assert_eq!(config.retries_for(LogPriority::Normal), 0);
    assert_eq!(config.retries_for(LogPriority::Critical), 0);
    let off = PriorityConfig { preserve_high: false, ..config };
    assert_eq!(off.retries_for(LogPriority::High), 0);
}
