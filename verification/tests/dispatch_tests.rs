use rust_logger_system::appender::{Appender, SinkSlot};
use rust_logger_system::dispatch::{
    deliver, flush_all, keep_first, log_sync, process_batch, process_sync, write_through, Sinks,
    SyncOutcome,
};
use rust_logger_system::error::LoggerError;
use rust_logger_system::log_entry::LogEntry;
use rust_logger_system::log_level::LogLevel;
use rust_logger_system::logger::{move_all, register};
use rust_logger_system::metrics::LoggerMetrics;
use rust_logger_system::timestamp::Timestamp;
use std::sync::{Arc, Mutex};

struct Journal {
    events: Arc<Mutex<Vec<String>>>,
    label: &'static str,
    fail_on: Option<&'static str>,
    flush_error: Option<&'static str>,
}

impl Appender for Journal {
    fn append(&mut self, entry: &LogEntry) -> Result<(), LoggerError> {
        self.events.lock().unwrap().push(format!("{}:append:{}", self.label, entry.message));
        if self.fail_on == Some(entry.message.as_str()) {
            Err(LoggerError::writer("no"))
        } else {
            Ok(())
        }
    }

    fn flush(&mut self) -> Result<(), LoggerError> {
        self.events.lock().unwrap().push(format!("{}:flush", self.label));
        match self.flush_error {
            Some(message) => Err(LoggerError::other(message)),
            None => Ok(()),
        }
    }

    fn name(&self) -> &str {
        self.label
    }
}

fn sink(
    events: &Arc<Mutex<Vec<String>>>,
    label: &'static str,
    fail_on: Option<&'static str>,
    flush_error: Option<&'static str>,
) -> SinkSlot {
    SinkSlot::new(Box::new(Journal { events: Arc::clone(events), label, fail_on, flush_error }))
}

fn sinks_of(slots: Vec<SinkSlot>) -> Sinks {
    let mut sinks = Sinks::new();
    for slot in slots {
        register(&mut sinks, slot);
    }
    sinks
}

fn record(level: LogLevel, message: &str) -> LogEntry {
    LogEntry::at(level, message, Timestamp::new(0, 0).unwrap())
}

#[test]
fn deliver_hands_the_record_to_every_sink_in_order() {
    let events = Arc::new(Mutex::new(Vec::new()));
    let mut sinks = Sinks::new();
    register(&mut sinks, sink(&events, "a", Some("bad"), None));
    register(&mut sinks, sink(&events, "b", None, None));
    assert_eq!(sinks.len(), 2);
    assert_eq!(sinks.get(0).unwrap().name(), "a");
    assert_eq!(sinks.get(1).unwrap().name(), "b");
    assert!(sinks.get(2).is_none());

    assert!(!deliver(&mut sinks, &record(LogLevel::Info, "good")));
    assert!(deliver(&mut sinks, &record(LogLevel::Info, "bad")));
    assert_eq!(
        *events.lock().unwrap(),
        vec!["a:append:good", "b:append:good", "a:append:bad", "b:append:bad"]
    );
}

#[test]
fn process_sync_counts_each_record_once() {
    let events = Arc::new(Mutex::new(Vec::new()));
    let mut sinks = sinks_of(vec![sink(&events, "a", Some("bad"), None), sink(&events, "b", None, None)]);
    let mut metrics = LoggerMetrics::new();
    assert!(!process_sync(&mut sinks, &record(LogLevel::Info, "good"), &mut metrics));
    assert_eq!((metrics.total_logged(), metrics.dropped_count()), (1, 0));
    assert!(process_sync(&mut sinks, &record(LogLevel::Info, "bad"), &mut metrics));
    assert_eq!((metrics.total_logged(), metrics.dropped_count()), (1, 1));
    // no sinks: the record counts as logged
    let mut none = Sinks::new();
    assert!(!process_sync(&mut none, &record(LogLevel::Info, "x"), &mut metrics));
    assert_eq!((metrics.total_logged(), metrics.dropped_count()), (2, 1));
}

#[test]
fn log_sync_ignores_records_below_the_minimum_level() {
    let events = Arc::new(Mutex::new(Vec::new()));
    let mut sinks = sinks_of(vec![sink(&events, "a", None, None)]);
    let mut metrics = LoggerMetrics::new();
    assert_eq!(
        log_sync(LogLevel::Warn, &mut sinks, &mut metrics, &record(LogLevel::Info, "low")),
        SyncOutcome::Ignored
    );
    assert!(events.lock().unwrap().is_empty());
    assert_eq!(metrics, LoggerMetrics::new());
    assert_eq!(
        log_sync(LogLevel::Warn, &mut sinks, &mut metrics, &record(LogLevel::Warn, "at")),
        SyncOutcome::Written { failed: false }
    );
    assert_eq!(*events.lock().unwrap(), vec!["a:append:at"]);
    assert_eq!(metrics.total_logged(), 1);
}

#[test]
fn process_batch_writes_in_order_and_flushes_once() {
    let events = Arc::new(Mutex::new(Vec::new()));
    let mut sinks = sinks_of(vec![sink(&events, "a", Some("2"), None), sink(&events, "b", None, None)]);
    let mut metrics = LoggerMetrics::new();
    let batch = vec![
        record(LogLevel::Info, "1"),
        record(LogLevel::Info, "2"),
        record(LogLevel::Info, "3"),
    ];
    assert_eq!(process_batch(&mut sinks, &batch, &mut metrics), 1);
    assert_eq!(
        *events.lock().unwrap(),
        vec![
            "a:append:1",
            "b:append:1",
            "a:append:2",
            "b:append:2",
            "a:append:3",
            "b:append:3",
            "a:flush",
            "b:flush"
        ]
    );
    assert_eq!((metrics.total_logged(), metrics.dropped_count()), (2, 1));
    // an empty batch only flushes
    events.lock().unwrap().clear();
    assert_eq!(process_batch(&mut sinks, &Vec::new(), &mut metrics), 0);
    assert_eq!(*events.lock().unwrap(), vec!["a:flush", "b:flush"]);
    assert_eq!((metrics.total_logged(), metrics.dropped_count()), (2, 1));
}

#[test]
fn write_through_counts_the_record_as_preserved() {
    let events = Arc::new(Mutex::new(Vec::new()));
    let mut sinks = sinks_of(vec![sink(&events, "a", None, None), sink(&events, "b", Some("x"), None)]);
    let mut metrics = LoggerMetrics::new();
    assert!(!write_through(&mut sinks, &record(LogLevel::Fatal, "boom"), &mut metrics));
    assert!(write_through(&mut sinks, &record(LogLevel::Error, "x"), &mut metrics));
    assert_eq!(metrics.critical_logs_preserved(), 2);
    assert_eq!((metrics.total_logged(), metrics.dropped_count()), (1, 1));
    assert_eq!(events.lock().unwrap().len(), 4);
}

#[test]
fn flush_all_flushes_every_sink_and_keeps_the_first_error() {
    let events = Arc::new(Mutex::new(Vec::new()));
    let mut sinks = sinks_of(vec![
        sink(&events, "a", None, None),
        sink(&events, "b", None, Some("first")),
        sink(&events, "c", None, Some("second")),
        sink(&events, "d", None, None),
    ]);
    assert_eq!(flush_all(&mut sinks), Err(LoggerError::Other("first".to_string())));
    assert_eq!(*events.lock().unwrap(), vec!["a:flush", "b:flush", "c:flush", "d:flush"]);
    let mut fine = sinks_of(vec![sink(&events, "e", None, None)]);
    assert_eq!(flush_all(&mut fine), Ok(()));
    let mut none = Sinks::new();
    assert_eq!(flush_all(&mut none), Ok(()));

    let first = LoggerError::other("first");
    let second = LoggerError::other("second");
    assert_eq!(keep_first(None, Ok(())), None);
    assert_eq!(keep_first(None, Err(first.clone())), Some(first.clone()));
    assert_eq!(keep_first(Some(first.clone()), Err(second)), Some(first.clone()));
    assert_eq!(keep_first(Some(first.clone()), Ok(())), Some(first));
}

#[test]
fn move_all_keeps_the_order() {
    let events = Arc::new(Mutex::new(Vec::new()));
    let mut to = sinks_of(vec![sink(&events, "a", None, None)]);
    let mut from = sinks_of(vec![sink(&events, "b", None, None), sink(&events, "c", None, None)]);
    move_all(&mut to, &mut from);
    assert_eq!(from.len(), 0);
    assert_eq!(to.len(), 3);
    let names: Vec<&str> = (0..3).map(|i| to.get(i).unwrap().name()).collect();
    assert_eq!(names, vec!["a", "b", "c"]);
}

#[test]
fn process_batch_counts_each_failed_record_once() {
    // two sinks that always fail and one that never does: three records, three
    // failures, and the good sink sees the batch in order and then one flush
    let events = Arc::new(Mutex::new(Vec::new()));
    struct Refusing {
        events: Arc<Mutex<Vec<String>>>,
        label: &'static str,
    }
    impl Appender for Refusing {
        fn append(&mut self, entry: &LogEntry) -> Result<(), LoggerError> {
            self.events.lock().unwrap().push(format!("{}:append:{}", self.label, entry.message));
            Err(LoggerError::writer("refused"))
        }
        fn flush(&mut self) -> Result<(), LoggerError> {
            self.events.lock().unwrap().push(format!("{}:flush", self.label));
            Ok(())
        }
        fn name(&self) -> &str {
            self.label
        }
    }
    let mut sinks = Sinks::new();
    register(
        &mut sinks,
        SinkSlot::new(Box::new(Refusing { events: Arc::clone(&events), label: "A" })),
    );
    register(
        &mut sinks,
        SinkSlot::new(Box::new(Refusing { events: Arc::clone(&events), label: "B" })),
    );
    register(&mut sinks, sink(&events, "C", None, None));
    let mut metrics = LoggerMetrics::new();
    let batch = vec![
        record(LogLevel::Info, "a"),
        record(LogLevel::Warn, "b"),
        record(LogLevel::Error, "c"),
    ];
    assert_eq!(process_batch(&mut sinks, &batch, &mut metrics), 3);
    assert_eq!(metrics.dropped_count(), 3);
    assert_eq!(metrics.total_logged(), 0);
    assert_eq!(
        *events.lock().unwrap(),
        vec![
            "A:append:a",
            "B:append:a",
            "C:append:a",
            "A:append:b",
            "B:append:b",
            "C:append:b",
            "A:append:c",
            "B:append:c",
            "C:append:c",
            "A:flush",
            "B:flush",
            "C:flush"
        ]
    );
}
