use rust_logger_system::log_level::LogLevel;
use rust_logger_system::sampling::{
    accept_at, clamp_rate, messages_per_second, scale_rate, LogSampler, RateTracker,
    SamplerMetrics, SamplerState, SamplingConfig,
};

#[test]
fn test_sampling_config_default() {
    let config = SamplingConfig::default();
    assert_eq!(config.rate, 1_000_000);
    assert!(config.always_sample.contains(&LogLevel::Error));
    assert!(config.always_sample.contains(&LogLevel::Fatal));
    assert!(!config.adaptive);
    assert_eq!(config.adaptive_threshold, 10000);
    assert_eq!(config.adaptive_min_rate, 10_000);
    assert!(config.category_rates.is_empty());
}

#[test]
fn test_sampling_config_new() {
    let config = SamplingConfig::new(500_000);
    assert_eq!(config.rate, 500_000);

    // Rate should be clamped
    let config = SamplingConfig::new(1_500_000);
    assert_eq!(config.rate, 1_000_000);

    let config = SamplingConfig::new(-500_000);
    assert_eq!(config.rate, 0);
}

#[test]
fn test_sampling_config_builder() {
    let config = SamplingConfig::new(300_000)
        .with_always_sample(vec![LogLevel::Warn, LogLevel::Error, LogLevel::Fatal])
        .with_category_rate("database", 10_000)
        .with_adaptive(50000, 1_000);

    assert_eq!(config.rate, 300_000);
    assert!(config.always_sample.contains(&LogLevel::Warn));
    assert_eq!(config.category_rate("database"), Some(10_000));
    assert_eq!(config.category_rate("network"), None);
    assert!(config.adaptive);
    assert_eq!(config.adaptive_threshold, 50000);
    assert_eq!(config.adaptive_min_rate, 1_000);
}

#[test]
fn category_rate_last_write_wins_and_is_clamped() {
    let config = SamplingConfig::no_sampling()
        .with_category_rate("a", 5)
        .with_category_rate("b", 2_000_000)
        .with_category_rate("a", 7);
    assert_eq!(config.category_rate("a"), Some(7));
    assert_eq!(config.category_rate("b"), Some(1_000_000));
    let copy = config.clone();
    assert_eq!(copy.category_rate("a"), Some(7));
    assert_eq!(copy.rate, config.rate);
    assert_eq!(copy.always_sample, config.always_sample);
}

#[test]
fn test_sampler_metrics() {
    let mut metrics = SamplerMetrics::new();
    assert_eq!(metrics.sampled_count(), 0);
    assert_eq!(metrics.dropped_count(), 0);
    assert_eq!(metrics.total_count(), 0);
    assert_eq!(metrics.effective_sample_rate(), 1_000_000);

    metrics.record_sampled();
    metrics.record_sampled();
    metrics.record_dropped();

    assert_eq!(metrics.sampled_count(), 2);
    assert_eq!(metrics.dropped_count(), 1);
    assert_eq!(metrics.total_count(), 3);

    let rate = metrics.effective_sample_rate();
    assert_eq!(rate, 666_666);
    assert!((rate as f64 / 1_000_000.0 - 0.666).abs() < 0.01);

    metrics.reset();
    assert_eq!(metrics.total_count(), 0);
    assert_eq!(metrics, SamplerMetrics::default());
}

#[test]
fn test_sampler_always_sample_critical() {
    let config = SamplingConfig::new(0); // Drop everything
    let mut sampler = LogSampler::new(config);

    // Error and Fatal should always be sampled
    assert!(sampler.should_sample(LogLevel::Error, None));
    assert!(sampler.should_sample(LogLevel::Fatal, None));

    // Other levels should be dropped (rate is 0.0)
    for _ in 0..10 {
        assert!(!sampler.should_sample(LogLevel::Debug, None));
        assert!(!sampler.should_sample(LogLevel::Info, None));
    }
}

#[test]
fn test_sampler_rate_1_0() {
    let mut sampler = LogSampler::new(SamplingConfig::new(1_000_000));

    // All logs should be sampled
    for _ in 0..100 {
        assert!(sampler.should_sample(LogLevel::Debug, None));
        assert!(sampler.should_sample(LogLevel::Info, None));
        assert!(sampler.should_sample(LogLevel::Warn, None));
    }
}

#[test]
fn test_sampler_category_rate() {
    let config = SamplingConfig::new(1_000_000).with_category_rate("noisy", 0);
    let mut sampler = LogSampler::new(config);

    // Default category should be sampled
    assert!(sampler.should_sample(LogLevel::Info, None));

    // "noisy" category should be dropped
    for _ in 0..10 {
        assert!(!sampler.should_sample(LogLevel::Info, Some("noisy")));
    }
    // a category without a rate of its own goes by the base rate
    assert!(sampler.should_sample(LogLevel::Info, Some("other")));
}

#[test]
fn test_sampler_statistical_rate() {
    // Test that sampling rate is approximately correct
    let mut sampler = LogSampler::new(SamplingConfig::new(500_000));

    let mut sampled = 0;
    let total = 10000;

    for _ in 0..total {
        if sampler.should_sample(LogLevel::Info, None) {
            sampled += 1;
        }
    }

    // Should be approximately 50% with some tolerance
    let rate = sampled as f64 / total as f64;
    assert!(
        (0.45..=0.55).contains(&rate),
        "Expected ~50% sample rate, got {}%",
        rate * 100.0
    );
    let observed = sampler.effective_sample_rate();
    assert!(observed >= 450_000 && observed <= 550_000);
}

#[test]
fn sampler_statistical_rate_ten_percent() {
    let config = SamplingConfig::new(100_000).with_always_sample(vec![]);
    let mut sampler = LogSampler::new(config);
    let mut sampled = 0;
    for _ in 0..10000 {
        if sampler.should_sample(LogLevel::Error, None) {
            sampled += 1;
        }
    }
    let rate = sampled as f64 / 10000.0;
    assert!((0.05..=0.15).contains(&rate), "got {}", rate);
}

#[test]
fn test_sampler_metrics_tracking() {
    let mut sampler = LogSampler::new(SamplingConfig::new(500_000));

    for _ in 0..100 {
        sampler.should_sample(LogLevel::Info, None);
    }

    let metrics = sampler.metrics();
    assert_eq!(metrics.total_count(), 100);
    assert_eq!(metrics.sampled_count() + metrics.dropped_count(), 100);
    assert_eq!(sampler.config().rate, 500_000);
}

#[test]
fn test_rate_tracker() {
    let mut tracker = RateTracker::new();
    assert_eq!(tracker.current_rate(), 0);

    // Record some messages
    let mut last = 0;
    for _ in 0..100 {
        last = tracker.record_and_get_rate();
    }

    let rate = tracker.current_rate();
    assert!(rate > 0, "Rate should be positive");
    assert_eq!(rate, last);
}

#[test]
fn adaptive_sampling_goes_down_under_load() {
    // threshold of one record per second: a burst is far above it
    let config = SamplingConfig::new(1_000_000)
        .with_always_sample(vec![])
        .with_adaptive(1, 0);
    let mut sampler = LogSampler::new(config);
    let mut sampled = 0;
    for _ in 0..2000 {
        if sampler.should_sample(LogLevel::Info, None) {
            sampled += 1;
        }
    }
    assert!(sampled < 2000);
    assert!(sampler.current_message_rate() > 1);
    // a category with a rate of its own is not subject to the load
    let config = SamplingConfig::new(1_000_000)
        .with_always_sample(vec![])
        .with_category_rate("steady", 1_000_000)
        .with_adaptive(1, 0);
    let mut sampler = LogSampler::new(config);
    for _ in 0..2000 {
        assert!(sampler.should_sample(LogLevel::Info, Some("steady")));
    }
    assert_eq!(sampler.current_message_rate(), 0);
}

#[test]
fn rate_arithmetic() {
    assert_eq!(clamp_rate(-1), 0);
    assert_eq!(clamp_rate(0), 0);
    assert_eq!(clamp_rate(250_000), 250_000);
    assert_eq!(clamp_rate(1_000_000), 1_000_000);
    assert_eq!(clamp_rate(i64::MAX), 1_000_000);
    assert_eq!(clamp_rate(i64::MIN), 0);

    assert_eq!(messages_per_second(100, 0), 0);
    assert_eq!(messages_per_second(100, 1_000_000_000), 100);
    assert_eq!(messages_per_second(100, 500_000_000), 200);
    assert_eq!(messages_per_second(1, 3_000_000_000), 0);
    assert_eq!(messages_per_second(usize::MAX, 1), u64::MAX);

    // half the rate at twice the threshold
    assert_eq!(scale_rate(1_000_000, 10_000, 20_000, 10_000), 500_000);
    assert_eq!(scale_rate(300_000, 10_000, 30_000, 10_000), 100_000);
    // not below the floor
    assert_eq!(scale_rate(1_000_000, 1, 1_000_000_000, 10_000), 10_000);
    assert_eq!(scale_rate(1_000_000, 0, 5, 0), 0);

    assert!(accept_at(1_000_000, 999_999));
    assert!(accept_at(2_000_000, 999_999));
    assert!(!accept_at(0, 0));
    assert!(accept_at(500_000, 499_999));
    assert!(!accept_at(500_000, 500_000));
}

#[test]
fn test_sampler_debug() {
    let sampler = LogSampler::new(SamplingConfig::new(500_000));
    let debug_str = format!("{:?}", sampler);
    assert!(debug_str.contains("LogSampler"));
    assert!(debug_str.contains("config"));
}

#[test]
fn sampler_state_works_under_any_configuration() {
    let mut state = SamplerState::new();
    let none = SamplingConfig::new(0);
    let all = SamplingConfig::new(1_000_000).with_always_sample(vec![]);
    assert!(!state.sample(&none, LogLevel::Info, None));
    assert!(state.sample(&none, LogLevel::Fatal, None));
    assert!(state.sample(&all, LogLevel::Trace, Some("any")));
    assert_eq!(state.metrics().total_count(), 3);
    assert_eq!(state.metrics().sampled_count(), 2);
    assert_eq!(state.metrics().dropped_count(), 1);
    assert_eq!(state.current_message_rate(), 0);
}
