use rust_logger_system::appender::Appender;
use rust_logger_system::error::LoggerError;
use rust_logger_system::log_entry::LogEntry;
use rust_logger_system::log_level::LogLevel;
use rust_logger_system::logger::{Disposition, Logger, Worker, WorkerStep};
use rust_logger_system::overflow_policy::OverflowPolicy;
use std::sync::{Arc, Mutex};

struct CountingSink {
    seen: Arc<Mutex<Vec<String>>>,
    calls: usize,
    fail_every: usize,
}

impl Appender for CountingSink {
    fn append(&mut self, entry: &LogEntry) -> Result<(), LoggerError> {
        self.calls += 1;
        if self.fail_every > 0 && self.calls % self.fail_every == 0 {
            return Err(LoggerError::other("Simulated failure"));
        }
        self.seen.lock().unwrap().push(entry.message.clone());
        Ok(())
    }

    fn flush(&mut self) -> Result<(), LoggerError> {
        Ok(())
    }

    fn name(&self) -> &str {
        "counting"
    }
}

/// Runs the worker until the queue is closed and empty, waiting as it asks.
fn run_worker(mut worker: Worker) {
    loop {
        match worker.collect() {
            WorkerStep::Continue => {}
            WorkerStep::Wait(_) => worker.finish(),
            WorkerStep::Done => break,
        }
    }
}

#[test]
fn test_concurrent_logging() {
    // callers that take turns, 50 records each, one sink that fails every 7th
    // call: the other sink still gets every record
    let callers = 8;
    let per_caller = 50;
    let good = Arc::new(Mutex::new(Vec::new()));
    let faulty = Arc::new(Mutex::new(Vec::new()));
    let mut logger = Logger::new();
    logger.set_min_level(LogLevel::Info);
    logger.add_appender(Box::new(CountingSink { seen: Arc::clone(&faulty), calls: 0, fail_every: 7 }));
    logger.add_appender(Box::new(CountingSink { seen: Arc::clone(&good), calls: 0, fail_every: 0 }));
    let logger = Arc::new(logger);

    let handles: Vec<Arc<Logger>> = (0..callers).map(|_| Arc::clone(&logger)).collect();
    for i in 0..per_caller {
        for (caller, handle) in handles.iter().enumerate() {
            handle.info(&format!("Thread {} message {}", caller, i));
        }
    }
    logger.flush().expect("Failed to flush");

    let total = callers * per_caller;
    assert_eq!(good.lock().unwrap().len(), total);
    assert_eq!(faulty.lock().unwrap().len(), total - total / 7);
    let metrics = logger.metrics();
    assert_eq!(metrics.dropped_count() as usize, total / 7);
    assert_eq!((metrics.dropped_count() + metrics.total_logged()) as usize, total);
    // each caller's records arrive in the order in which it sent them
    let seen = good.lock().unwrap();
    for caller in 0..callers {
        let prefix = format!("Thread {} message ", caller);
        let mine: Vec<usize> = seen
            .iter()
            .filter(|m| m.starts_with(&prefix))
            .map(|m| m[prefix.len()..].parse().unwrap())
            .collect();
        assert_eq!(mine, (0..per_caller).collect::<Vec<usize>>());
    }
}

#[test]
fn test_async_backpressure() {
    // policy Block with a small queue and a worker that runs beside the
    // caller: the caller waits for room, and no record is lost
    let runtime = tokio::runtime::Builder::new_current_thread().build().unwrap();
    for size in [1usize, 5] {
        let seen = Arc::new(Mutex::new(Vec::new()));
        let (mut logger, worker) = Logger::builder()
            .async_mode(size)
            .overflow_policy(OverflowPolicy::Block)
            .build()
            .unwrap();
        logger.add_appender(Box::new(CountingSink { seen: Arc::clone(&seen), calls: 0, fail_every: 0 }));
        let worker = worker.unwrap();
        let running = runtime.spawn_blocking(move || run_worker(worker));

        let total = 200;
        for i in 0..total {
            match logger.info(&format!("Message {}", i)) {
                Disposition::Queued { .. } => {}
                other => panic!("unexpected {:?}", other),
            }
        }
        logger.close();
        runtime.block_on(running).expect("worker panicked");

        let seen = seen.lock().unwrap();
        assert_eq!(seen.len(), total, "All messages should be logged despite backpressure");
        for i in 0..total {
            assert_eq!(seen[i], format!("Message {}", i));
        }
        assert_eq!(logger.metrics().total_logged() as usize, total);
        assert_eq!(logger.metrics().dropped_count(), 0);
    }
}

#[test]
fn block_policy_without_overflow_loses_nothing() {
    let seen = Arc::new(Mutex::new(Vec::new()));
    let (mut logger, worker) = Logger::builder()
        .async_mode(5)
        .overflow_policy(OverflowPolicy::Block)
        .build()
        .unwrap();
    logger.add_appender(Box::new(CountingSink { seen: Arc::clone(&seen), calls: 0, fail_every: 0 }));
    let mut worker = worker.unwrap();
    for round in 0..10 {
        for i in 0..5 {
            assert_eq!(
                logger.info(&format!("{}-{}", round, i)),
                Disposition::Queued { waited: false }
            );
        }
        assert_eq!(worker.collect(), WorkerStep::Wait(10));
        worker.finish();
    }
    assert_eq!(seen.lock().unwrap().len(), 50);
    assert_eq!(logger.metrics().block_events(), 0);
}
