//! The logger: severity filter, sampler, and the way to the sinks.
//!
//! A logger in synchronous mode writes each record to the sinks on the
//! caller's thread. A logger in asynchronous mode offers each record to a
//! bounded queue, which a `Worker` drains; what happens when the queue is full
//! is decided by the overflow policy and the record's priority.
//!
//! The sinks and the counters are shared with the worker and sit behind locks,
//! so a function of the logger cannot say what they hold after it returns.
//! Each logging function says instead what became of the record, as a
//! `Disposition`, and which dispositions the configuration allows. What a
//! write does to the sinks and the counters is stated where it is done, in
//! `dispatch`.

use vstd::prelude::*;
use std::sync::Arc;
use parking_lot::RwLock;
use crossbeam_channel::{Receiver, Sender};
use crate::appender::{Appender, SinkSlot};
use crate::dispatch::{
    count_drop,
    flush_all,
    log_sync,
    process_batch,
    write_through,
    Sinks,
    SyncOutcome,
};
use crate::error::LoggerError;
use crate::lock::{lock_write, locked, new_lock, share, try_lock_write};
use crate::log_context::{FieldValue, LogContext};
use crate::log_entry::LogEntry;
use crate::log_level::LogLevel;
use crate::metrics::LoggerMetrics;
use crate::overflow_policy::{
    alert_due,
    apply_policy,
    decide_overflow,
    overflow_action,
    policy_action,
    should_alert,
    LogPriority,
    OverflowAction,
    OverflowPolicy,
    PriorityConfig,
};
use crate::queue::{
    new_queue,
    offer,
    poll,
    receive,
    send_blocking,
    send_within,
    Offer,
    Polled,
    TimedOffer,
    MAX_BUFFER_SIZE,
};
use crate::sampling::{
    can_hold_back,
    must_hold_back,
    opt_view,
    SamplerMetrics,
    SamplerState,
    SamplingConfig,
};

verus! {

/// The most records that the worker writes in one batch.
pub const BATCH_SIZE: usize = 50;

/// How long the worker waits for a small batch to grow, in milliseconds.
pub const BATCH_TIMEOUT_MS: u64 = 10;

/// How long a caller of `shutdown` sleeps between two looks at the worker, in
/// milliseconds.
pub const SHUTDOWN_POLL_MS: u64 = 10;

/// How long a logger that is dropped without `shutdown` waits for its worker,
/// in seconds.
pub const DEFAULT_SHUTDOWN_TIMEOUT_SECS: u64 = 5;

/// What became of a record that was handed to the logger.
#[derive(Debug, Clone, Copy, PartialEq, Eq, Structural)]
pub enum Disposition {
    /// Its severity is below the minimum level. Nothing was done.
    Filtered,
    /// The sampler did not let it pass. Only the sampler counted it.
    SampledOut,
    /// It was written to the sinks on the caller's thread; `failed` tells
    /// whether a sink failed.
    Written { failed: bool },
    /// The queue took it; `waited` tells whether the caller had to wait for
    /// room.
    Queued { waited: bool },
    /// The queue was full and the record, being critical, was written to the
    /// sinks on the caller's thread; `failed` tells whether a sink failed.
    Preserved { failed: bool },
    /// The queue was full and the record was discarded. `alert` holds the
    /// number of drops so far when this drop calls for an alert: the caller is
    /// to tell the operator. `eviction_requested` tells that the policy asked
    /// for the oldest record to give way, which the queue cannot do.
    Dropped { alert: Option<u64>, eviction_requested: bool },
    /// The queue was closed: the logger is shutting down, and the record was
    /// discarded without being counted.
    Discarded,
}

/// The sampler of a logger: its configuration, which does not change, and
/// what the sampler changes as it works.
pub struct Sampling {
    config: SamplingConfig,
    state: RwLock<SamplerState>,
}

/// Where the records of a logger go once they have passed the filter and the
/// sampler.
pub enum Route {
    /// To the sinks, on the caller's thread.
    Direct,
    /// Into the queue.
    Queue(Sender<LogEntry>),
    /// Nowhere: the logger had a queue and has closed it.
    Closed,
}

/// A logger.
pub struct Logger {
    min_level: LogLevel,
    appenders: Arc<RwLock<Sinks>>,
    metrics: Arc<RwLock<LoggerMetrics>>,
    sampler: Option<Sampling>,
    route: Route,
    overflow_policy: OverflowPolicy,
    priority_config: PriorityConfig,
}

/// Whether a policy's action, applied to a refused record, can end in the
/// given disposition.
pub open spec fn policy_allows(action: OverflowAction, r: Disposition) -> bool {
    match r {
        Disposition::Queued { waited } => waited ==> (action is Block || action is BlockWithTimeout),
        Disposition::Discarded => true,
        Disposition::Dropped { alert, eviction_requested } => match action {
            OverflowAction::Drop => alert is None && !eviction_requested,
            OverflowAction::DropWithAlert { eviction_requested: asked } => {
                &&& eviction_requested == asked
                &&& alert is Some ==> alert_due(alert->0 as nat)
            },
            OverflowAction::BlockWithTimeout(_) => {
                &&& !eviction_requested
                &&& alert is Some ==> alert_due(alert->0 as nat)
            },
            _ => false,
        },
        _ => false,
    }
}

/// Whether the alert of a drop fits the count of drops: an alert is only
/// raised with a count that calls for one.
pub open spec fn alert_fits(alert: Option<u64>) -> bool {
    alert is Some ==> alert_due(alert->0 as nat)
}

/// What applying a policy's action to a refused record ends in. A drop
/// without alert is the one outcome of `Drop`; a drop with the alert that the
/// count calls for is the one outcome of `DropWithAlert`; a record that
/// waits is queued unless the queue is closed meanwhile, and dropped with an
/// alert if its time runs out.
pub open spec fn settles(action: OverflowAction, r: Disposition) -> bool {
    match action {
        OverflowAction::WriteThrough => false,
        OverflowAction::Drop => r == (Disposition::Dropped {
            alert: None,
            eviction_requested: false,
        }),
        OverflowAction::DropWithAlert { eviction_requested: asked } => {
            &&& r matches Disposition::Dropped { alert, eviction_requested }
            &&& eviction_requested == asked
            &&& alert_fits(alert)
        },
        OverflowAction::Block => r == (Disposition::Queued { waited: true }) || r
            == Disposition::Discarded,
        OverflowAction::BlockWithTimeout(_) => {
            ||| r == (Disposition::Queued { waited: true })
            ||| r == Disposition::Discarded
            ||| (r matches Disposition::Dropped { alert, eviction_requested }
                && !eviction_requested && alert_fits(alert))
        },
    }
}

/// What the sampler's answer makes of a record: a record that the sampler
/// holds back ends as `SampledOut` and goes no further; one that passes goes
/// on.
pub fn after_sampling(passed: bool) -> (r: Option<Disposition>)
    ensures
        r == (if passed {
            None::<Disposition>
        } else {
            Some(Disposition::SampledOut)
        }),
{
    if passed {
        None
    } else {
        Some(Disposition::SampledOut)
    }
}

/// What became of a record that waited for the queue without a limit of
/// time: it is queued, or discarded with the queue that was closed.
pub fn after_send(sent: Result<(), LogEntry>) -> (r: Disposition)
    ensures
        r == (match sent {
            Ok(_) => Disposition::Queued { waited: true },
            Err(_) => Disposition::Discarded,
        }),
{
    match sent {
        Ok(_) => Disposition::Queued { waited: true },
        Err(_) => Disposition::Discarded,
    }
}

/// What became of a record that waited for the queue for a limited time: it
/// is queued, or discarded with the queue that was closed, or, when its time
/// ran out, it comes back to be dropped.
pub fn after_timed_send(sent: TimedOffer) -> (r: Result<Disposition, LogEntry>)
    ensures
        r == (match sent {
            TimedOffer::Accepted => Ok::<Disposition, LogEntry>(Disposition::Queued { waited: true }),
            TimedOffer::Closed(_) => Ok::<Disposition, LogEntry>(Disposition::Discarded),
            TimedOffer::TimedOut(entry) => Err::<Disposition, LogEntry>(entry),
        }),
{
    match sent {
        TimedOffer::Accepted => Ok(Disposition::Queued { waited: true }),
        TimedOffer::Closed(_) => Ok(Disposition::Discarded),
        TimedOffer::TimedOut(entry) => Err(entry),
    }
}

/// What became of a record that was offered to the queue without waiting: it
/// is queued, or discarded with the queue that was closed, or, when the queue
/// was full, it comes back.
pub fn after_offer(offered: Offer) -> (r: Result<Disposition, LogEntry>)
    ensures
        r == (match offered {
            Offer::Accepted => Ok::<Disposition, LogEntry>(Disposition::Queued { waited: false }),
            Offer::Closed(_) => Ok::<Disposition, LogEntry>(Disposition::Discarded),
            Offer::Full(entry) => Err::<Disposition, LogEntry>(entry),
        }),
{
    match offered {
        Offer::Accepted => Ok(Disposition::Queued { waited: false }),
        Offer::Closed(_) => Ok(Disposition::Discarded),
        Offer::Full(entry) => Err(entry),
    }
}

impl Logger {
    /// The severity below which records are ignored.
    pub closed spec fn min_level(self) -> LogLevel {
        self.min_level
    }

    /// Whether the logger is in asynchronous mode. A logger keeps its mode
    /// when it closes its queue.
    pub closed spec fn is_async(self) -> bool {
        !(self.route is Direct)
    }

    /// Whether the logger has a queue that it has not closed.
    pub closed spec fn queue_open(self) -> bool {
        self.route is Queue
    }

    /// The configuration of the sampler, where one is set up.
    pub closed spec fn sampling(self) -> Option<SamplingConfig> {
        match self.sampler {
            Some(s) => Some(s.config),
            None => None,
        }
    }

    /// Whether a sampler is set up.
    pub open spec fn samples(self) -> bool {
        self.sampling() is Some
    }

    /// Whether the sampler can hold back a record of the given severity and
    /// category.
    pub open spec fn can_sample_out(self, level: LogLevel, category: Option<Seq<char>>) -> bool {
        self.sampling() matches Some(config) && can_hold_back(config, level, category)
    }

    /// Whether the sampler holds back a record of the given severity and
    /// category for certain.
    pub open spec fn must_sample_out(self, level: LogLevel, category: Option<Seq<char>>) -> bool {
        self.sampling() matches Some(config) && must_hold_back(config, level, category)
    }

    /// The overflow policy.
    pub closed spec fn policy(self) -> OverflowPolicy {
        self.overflow_policy
    }

    /// How the priorities are honoured.
    pub closed spec fn priorities(self) -> PriorityConfig {
        self.priority_config
    }

    /// Whether a record of this severity passes the filter.
    pub open spec fn admits(self, level: LogLevel) -> bool {
        level.rank() >= self.min_level().rank()
    }

    /// Whether a refused record of this severity is written through to the
    /// sinks.
    pub open spec fn writes_through(self, level: LogLevel) -> bool {
        overflow_action(self.policy(), self.priorities(), LogPriority::of(level))
            == OverflowAction::WriteThrough
    }

    /// Whether the policy can come to apply to a refused record of this
    /// severity: it does unless the record is written through, and also for
    /// such a record where the caller does not wait for the sinks.
    pub open spec fn policy_applies(self, level: LogLevel) -> bool {
        !self.writes_through(level) || !self.priorities().block_on_critical
    }

    /// What handling a record that the full queue refused ends in. A record
    /// that is written through is preserved; where the caller of such a
    /// record does not wait for the sinks it can also be left to the policy.
    /// Every other record ends as the policy's action settles it.
    pub open spec fn overflows(self, level: LogLevel, r: Disposition) -> bool {
        if self.writes_through(level) {
            r is Preserved || (!self.priorities().block_on_critical && settles(
                policy_action(self.policy()),
                r,
            ))
        } else {
            settles(policy_action(self.policy()), r)
        }
    }

    /// The dispositions that the configuration allows for a record of the
    /// given severity.
    pub open spec fn allows(self, level: LogLevel, r: Disposition) -> bool {
        match r {
            Disposition::Filtered => !self.admits(level),
            Disposition::SampledOut => self.admits(level) && self.samples(),
            Disposition::Written { failed } => self.admits(level) && !self.is_async(),
            Disposition::Preserved { failed } => self.admits(level) && self.queue_open()
                && self.writes_through(level),
            Disposition::Queued { waited } => self.admits(level) && self.queue_open() && (waited
                ==> self.policy_applies(level) && policy_allows(policy_action(self.policy()), r)),
            Disposition::Discarded => self.admits(level) && self.is_async(),
            Disposition::Dropped { alert, eviction_requested } => self.admits(level)
                && self.queue_open() && self.policy_applies(level) && policy_allows(
                policy_action(self.policy()),
                r,
            ),
        }
    }

    /// A logger in synchronous mode, with the minimum level `Info`, no sinks
    /// and no sampler.
    pub fn new() -> (r: Logger)
        ensures
            r.min_level() == LogLevel::Info,
            !r.is_async(),
            !r.queue_open(),
            r.sampling() is None,
            r.policy() == OverflowPolicy::AlertAndDrop,
            r.priorities() == PriorityConfig::standard(),
    {
        Logger {
            min_level: LogLevel::Info,
            appenders: Arc::new(new_lock(Sinks::new())),
            metrics: Arc::new(new_lock(LoggerMetrics::new())),
            sampler: None,
            route: Route::Direct,
            overflow_policy: OverflowPolicy::AlertAndDrop,
            priority_config: PriorityConfig::default(),
        }
    }

    /// A logger in asynchronous mode with a queue of `buffer_size` records,
    /// and the worker that drains the queue. The worker is to be run on a
    /// thread of its own.
    pub fn with_async(buffer_size: usize) -> (r: (Logger, Worker))
        requires
            buffer_size <= MAX_BUFFER_SIZE,
        ensures
            r.0.min_level() == LogLevel::Info,
            r.0.is_async(),
            r.0.queue_open(),
            r.0.sampling() is None,
            r.0.policy() == OverflowPolicy::AlertAndDrop,
            r.0.priorities() == PriorityConfig::standard(),
            r.1.state() is Draining,
            r.1.pending().len() == 0,
            r.1.received().len() == 0,
            r.1.written().len() == 0,
    {
        let (sender, receiver) = new_queue(buffer_size);
        let appenders: Arc<RwLock<Sinks>> = Arc::new(new_lock(Sinks::new()));
        let metrics = Arc::new(new_lock(LoggerMetrics::new()));
        let worker = Worker {
            receiver,
            appenders: share(&appenders),
            metrics: share(&metrics),
            batch: Vec::new(),
            state: WorkerState::Draining,
            taken: Ghost(Seq::empty()),
            passed_on: Ghost(Seq::empty()),
        };
        let logger = Logger {
            min_level: LogLevel::Info,
            appenders,
            metrics,
            sampler: None,
            route: Route::Queue(sender),
            overflow_policy: OverflowPolicy::AlertAndDrop,
            priority_config: PriorityConfig::default(),
        };
        (logger, worker)
    }

    /// A builder for a logger.
    pub fn builder() -> (r: LoggerBuilder)
        ensures
            r.level() == LogLevel::Info,
            r.sinks().len() == 0,
            r.buffer() is None,
            r.policy() == OverflowPolicy::AlertAndDrop,
            r.priorities() == PriorityConfig::standard(),
            r.sampling() is None,
    {
        LoggerBuilder::new()
    }

    /// Registers every sink of `from` behind the ones that are there.
    fn add_all(&mut self, from: &mut Sinks)
        ensures
            final(self).min_level() == old(self).min_level(),
            final(self).is_async() == old(self).is_async(),
            final(self).queue_open() == old(self).queue_open(),
            final(self).sampling() == old(self).sampling(),
            final(self).policy() == old(self).policy(),
            final(self).priorities() == old(self).priorities(),
    {
        let mut guard = lock_write(&*self.appenders);
        let sinks = locked(&mut guard);
        move_all(sinks, from);
    }

    /// Registers a sink behind the ones that are there.
    pub fn add_appender(&mut self, appender: Box<dyn Appender>)
        ensures
            final(self).min_level() == old(self).min_level(),
            final(self).is_async() == old(self).is_async(),
            final(self).queue_open() == old(self).queue_open(),
            final(self).sampling() == old(self).sampling(),
            final(self).policy() == old(self).policy(),
            final(self).priorities() == old(self).priorities(),
    {
        let mut guard = lock_write(&*self.appenders);
        let sinks = locked(&mut guard);
        register(sinks, SinkSlot::new(appender));
    }

    /// Sets the severity below which records are ignored.
    pub fn set_min_level(&mut self, level: LogLevel)
        ensures
            final(self).min_level() == level,
            final(self).is_async() == old(self).is_async(),
            final(self).queue_open() == old(self).queue_open(),
            final(self).sampling() == old(self).sampling(),
            final(self).policy() == old(self).policy(),
            final(self).priorities() == old(self).priorities(),
    {
        self.min_level = level;
    }

    /// Whether a record of this severity passes the filter.
    pub fn is_enabled(&self, level: LogLevel) -> (r: bool)
        ensures
            r == self.admits(level),
    {
        level.at_least(self.min_level)
    }

    /// Takes a record down the synchronous path while holding the sinks and
    /// the counters.
    fn write_now(&self, entry: &LogEntry) -> (r: SyncOutcome)
        ensures
            r is Ignored <==> !self.admits(entry.level),
    {
        let mut sinks_guard = lock_write(&*self.appenders);
        let sinks = locked(&mut sinks_guard);
        let mut metrics_guard = lock_write(&*self.metrics);
        let metrics = locked(&mut metrics_guard);
        log_sync(self.min_level, sinks, metrics, entry)
    }

    /// Writes a critical record past the full queue. Returns `None` where the
    /// sinks are held by another thread and the caller is not to wait.
    fn preserve(&self, entry: &LogEntry) -> (r: Option<bool>)
        ensures
            self.priorities().block_on_critical ==> r is Some,
    {
        let attempt = try_lock_write(&*self.appenders);
        let mut sinks_guard = match attempt {
            Some(guard) => guard,
            None => {
                if self.priority_config.block_on_critical {
                    lock_write(&*self.appenders)
                } else {
                    return None;
                }
            },
        };
        let sinks = locked(&mut sinks_guard);
        let mut metrics_guard = lock_write(&*self.metrics);
        let metrics = locked(&mut metrics_guard);
        Some(write_through(sinks, entry, metrics))
    }

    /// Counts a drop and returns the number of drops so far.
    fn note_drop(&self) -> u64 {
        let mut guard = lock_write(&*self.metrics);
        let metrics = locked(&mut guard);
        count_drop(metrics)
    }

    fn note_queue_full(&self) {
        let mut guard = lock_write(&*self.metrics);
        let metrics = locked(&mut guard);
        metrics.record_queue_full();
    }

    fn note_block(&self) {
        let mut guard = lock_write(&*self.metrics);
        let metrics = locked(&mut guard);
        metrics.record_block();
    }

    /// Discards a record with a count, and with an alert if the count calls
    /// for one.
    fn drop_with_alert(&self, eviction_requested: bool) -> (r: Disposition)
        ensures
            r matches Disposition::Dropped { alert, eviction_requested: asked } && asked
                == eviction_requested && alert_fits(alert),
    {
        let count = self.note_drop();
        Disposition::Dropped { alert: alert_for(count), eviction_requested }
    }

    /// Applies a policy's action to a record that the full queue refused.
    fn settle(&self, sender: &Sender<LogEntry>, entry: LogEntry, action: OverflowAction) -> (r:
        Disposition)
        requires
            !(action is WriteThrough),
        ensures
            settles(action, r),
            policy_allows(action, r),
            r is Queued || r is Discarded || r is Dropped,
    {
        match action {
            OverflowAction::WriteThrough => Disposition::Discarded,
            OverflowAction::Drop => {
                let _ = self.note_drop();
                Disposition::Dropped { alert: None, eviction_requested: false }
            },
            OverflowAction::DropWithAlert { eviction_requested } => self.drop_with_alert(
                eviction_requested,
            ),
            OverflowAction::Block => {
                self.note_block();
                after_send(send_blocking(sender, entry))
            },
            OverflowAction::BlockWithTimeout(timeout) => {
                self.note_block();
                match after_timed_send(send_within(sender, entry, timeout)) {
                    Ok(outcome) => outcome,
                    Err(_) => self.drop_with_alert(false),
                }
            },
        }
    }

    /// Handles a record that the full queue refused: a critical record is
    /// written to the sinks on this thread where the configuration preserves
    /// critical records, and every other record is left to the policy.
    fn overflow(&self, sender: &Sender<LogEntry>, entry: LogEntry) -> (r: Disposition)
        requires
            self.admits(entry.level),
            self.queue_open(),
        ensures
            self.overflows(entry.level, r),
            self.allows(entry.level, r),
            !(r is Filtered) && !(r is SampledOut) && !(r is Written),
    {
        let level = entry.level;
        let priority = LogPriority::from_level(level);
        let action = decide_overflow(&self.overflow_policy, &self.priority_config, priority);
        match action {
            OverflowAction::WriteThrough => {
                match self.preserve(&entry) {
                    Some(failed) => Disposition::Preserved { failed },
                    None => self.settle(sender, entry, apply_policy(&self.overflow_policy)),
                }
            },
            other => self.settle(sender, entry, other),
        }
    }

    /// Offers a record to the queue, again where its priority earns it, and
    /// handles the overflow if the queue stays full.
    fn enqueue(&self, sender: &Sender<LogEntry>, entry: LogEntry) -> (r: Disposition)
        requires
            self.admits(entry.level),
            self.queue_open(),
        ensures
            self.allows(entry.level, r),
            !(r is Filtered) && !(r is SampledOut) && !(r is Written),
    {
        let level = entry.level;
        let refused = match after_offer(offer(sender, entry)) {
            Ok(outcome) => {
                return outcome;
            },
            Err(refused) => refused,
        };
        self.note_queue_full();
        let mut held = refused;
        let mut left: u32 = self.priority_config.retries_for(LogPriority::from_level(level));
        while left > 0
            invariant
                held.level == level,
                level == entry.level,
                self.admits(level),
                self.queue_open(),
            decreases left,
        {
            match after_offer(offer(sender, held)) {
                Ok(outcome) => {
                    return outcome;
                },
                Err(again) => {
                    held = again;
                },
            }
            left -= 1;
        }
        self.overflow(sender, held)
    }

    /// Hands a record to the logger: the record is filtered by its severity,
    /// put to the sampler, and then written to the sinks (synchronous mode)
    /// or offered to the queue (asynchronous mode). The category by which the
    /// sampler looks up a rate is the text of the record's field `category`.
    ///
    /// The result tells what became of the record. It is `Filtered` exactly
    /// when the severity is below the minimum level, and it is always one
    /// that the configuration allows.
    pub fn log_entry(&self, entry: LogEntry) -> (r: Disposition)
        ensures
            r is Filtered <==> !self.admits(entry.level),
            self.allows(entry.level, r),
            r is SampledOut ==> self.can_sample_out(entry.level, category_text(entry)),
            self.admits(entry.level) && self.must_sample_out(entry.level, category_text(entry))
                ==> r is SampledOut,
            self.is_async() && !self.queue_open() && self.admits(entry.level) && !(r
                is SampledOut) ==> r is Discarded,
    {
        if !entry.level.at_least(self.min_level) {
            return Disposition::Filtered;
        }
        match &self.sampler {
            Some(sampling) => {
                let mut guard = lock_write(&sampling.state);
                let state = locked(&mut guard);
                let category = category_of(&entry);
                let passed = state.sample(&sampling.config, entry.level, category);
                match after_sampling(passed) {
                    Some(outcome) => {
                        return outcome;
                    },
                    None => {},
                }
            },
            None => {},
        }
        match &self.route {
            Route::Queue(sender) => self.enqueue(sender, entry),
            Route::Closed => Disposition::Discarded,
            Route::Direct => match self.write_now(&entry) {
                SyncOutcome::Ignored => Disposition::Filtered,
                SyncOutcome::Written { failed } => Disposition::Written { failed },
            },
        }
    }

    /// Logs a message with the given severity. A record is only made if the
    /// severity passes the filter.
    pub fn log(&self, level: LogLevel, message: &str) -> (r: Disposition)
        ensures
            r is Filtered <==> !self.admits(level),
            self.allows(level, r),
            r is SampledOut ==> self.can_sample_out(level, None),
            self.admits(level) && self.must_sample_out(level, None) ==> r is SampledOut,
    {
        if !level.at_least(self.min_level) {
            return Disposition::Filtered;
        }
        self.log_entry(LogEntry::new(level, message.to_owned()))
    }

    /// Logs a message with the given severity and fields.
    pub fn log_with_context(&self, level: LogLevel, message: &str, context: LogContext) -> (r:
        Disposition)
        ensures
            r is Filtered <==> !self.admits(level),
            self.allows(level, r),
            r is SampledOut ==> self.can_sample_out(level, context_category(context)),
            self.admits(level) && self.must_sample_out(level, context_category(context)) ==> r
                is SampledOut,
    {
        if !level.at_least(self.min_level) {
            return Disposition::Filtered;
        }
        self.log_entry(LogEntry::new(level, message.to_owned()).with_context(context))
    }

    pub fn trace(&self, message: &str) -> (r: Disposition)
        ensures
            r is Filtered <==> !self.admits(LogLevel::Trace),
            self.allows(LogLevel::Trace, r),
    {
        self.log(LogLevel::Trace, message)
    }

    pub fn debug(&self, message: &str) -> (r: Disposition)
        ensures
            r is Filtered <==> !self.admits(LogLevel::Debug),
            self.allows(LogLevel::Debug, r),
    {
        self.log(LogLevel::Debug, message)
    }

    pub fn info(&self, message: &str) -> (r: Disposition)
        ensures
            r is Filtered <==> !self.admits(LogLevel::Info),
            self.allows(LogLevel::Info, r),
    {
        self.log(LogLevel::Info, message)
    }

    pub fn warn(&self, message: &str) -> (r: Disposition)
        ensures
            r is Filtered <==> !self.admits(LogLevel::Warn),
            self.allows(LogLevel::Warn, r),
    {
        self.log(LogLevel::Warn, message)
    }

    pub fn error(&self, message: &str) -> (r: Disposition)
        ensures
            r is Filtered <==> !self.admits(LogLevel::Error),
            self.allows(LogLevel::Error, r),
    {
        self.log(LogLevel::Error, message)
    }

    pub fn fatal(&self, message: &str) -> (r: Disposition)
        ensures
            r is Filtered <==> !self.admits(LogLevel::Fatal),
            self.allows(LogLevel::Fatal, r),
    {
        self.log(LogLevel::Fatal, message)
    }

    pub fn info_with_context(&self, message: &str, context: LogContext) -> (r: Disposition)
        ensures
            r is Filtered <==> !self.admits(LogLevel::Info),
            self.allows(LogLevel::Info, r),
    {
        self.log_with_context(LogLevel::Info, message, context)
    }

    pub fn error_with_context(&self, message: &str, context: LogContext) -> (r: Disposition)
        ensures
            r is Filtered <==> !self.admits(LogLevel::Error),
            self.allows(LogLevel::Error, r),
    {
        self.log_with_context(LogLevel::Error, message, context)
    }

    /// A copy of the counters as they are now.
    pub fn metrics(&self) -> LoggerMetrics {
        let mut guard = lock_write(&*self.metrics);
        let metrics = locked(&mut guard);
        *metrics
    }

    /// A copy of the sampler's counters as they are now, where a sampler is
    /// set up.
    pub fn sampler_metrics(&self) -> (r: Option<SamplerMetrics>)
        ensures
            r is Some <==> self.samples(),
    {
        match &self.sampler {
            Some(sampling) => {
                let mut guard = lock_write(&sampling.state);
                let state = locked(&mut guard);
                Some(*state.metrics())
            },
            None => None,
        }
    }

    /// How many records were lost so far.
    pub fn failed_write_count(&self) -> u64 {
        self.metrics().dropped_count()
    }

    /// How many records were lost so far.
    pub fn dropped_count(&self) -> u64 {
        self.metrics().dropped_count()
    }

    /// How often a record found the queue full.
    pub fn queue_full_count(&self) -> u64 {
        self.metrics().queue_full_events()
    }

    /// How many critical records were written past the full queue.
    pub fn sync_fallback_count(&self) -> u64 {
        self.metrics().critical_logs_preserved()
    }

    /// Flushes every sink, also after one of them failed, and returns the
    /// first error that came.
    pub fn flush(&self) -> Result<(), LoggerError> {
        let mut guard = lock_write(&*self.appenders);
        let sinks = locked(&mut guard);
        flush_all(sinks)
    }

    /// Closes the queue: the worker writes what the queue still holds and
    /// ends. The logger stays in its mode: a record that is handed to an
    /// asynchronous logger after its queue was closed is discarded. Returns
    /// whether there was an open queue.
    pub fn close(&mut self) -> (was_open: bool)
        ensures
            was_open == old(self).queue_open(),
            !final(self).queue_open(),
            final(self).is_async() == old(self).is_async(),
            final(self).min_level() == old(self).min_level(),
            final(self).sampling() == old(self).sampling(),
            final(self).policy() == old(self).policy(),
            final(self).priorities() == old(self).priorities(),
    {
        let was_open = match &self.route {
            Route::Queue(_) => true,
            _ => false,
        };
        if was_open {
            self.route = Route::Closed;
        }
        was_open
    }

    /// Ends the work of the logger once the wait for the worker is over: the
    /// queue is closed if it was not, and the sinks are flushed a last time.
    /// Returns whether the worker ended in time; a logger without a worker,
    /// or one whose worker was waited for before, has nothing to wait for and
    /// returns `true`.
    pub fn shutdown(&mut self, worker: WorkerExit) -> (clean: bool)
        ensures
            clean == worker_ended(worker),
            !final(self).queue_open(),
            final(self).is_async() == old(self).is_async(),
            final(self).min_level() == old(self).min_level(),
            final(self).sampling() == old(self).sampling(),
            final(self).policy() == old(self).policy(),
            final(self).priorities() == old(self).priorities(),
    {
        self.close();
        let _ = self.flush();
        worker_has_ended(worker)
    }
}

/// Whether the wait for the worker ended with the worker gone: it ended in
/// time, or there was none to wait for.
pub open spec fn worker_ended(worker: WorkerExit) -> bool {
    worker is NotRunning || worker is Finished
}

/// Whether the wait for the worker ended with the worker gone.
pub fn worker_has_ended(worker: WorkerExit) -> (r: bool)
    ensures
        r == worker_ended(worker),
{
    match worker {
        WorkerExit::NotRunning | WorkerExit::Finished => true,
        WorkerExit::Panicked | WorkerExit::TimedOut => false,
    }
}

/// Gathers the settings of a logger before it is made.
pub struct LoggerBuilder {
    min_level: LogLevel,
    appenders: Sinks,
    async_buffer: Option<usize>,
    overflow_policy: OverflowPolicy,
    priority_config: PriorityConfig,
    sampling: Option<SamplingConfig>,
}

impl LoggerBuilder {
    /// The minimum level that the logger will have.
    pub closed spec fn level(self) -> LogLevel {
        self.min_level
    }

    /// The sinks that the logger will have, in the order of registration.
    pub closed spec fn sinks(self) -> Seq<SinkSlot> {
        self.appenders@
    }

    /// The capacity of the queue, where the logger will be asynchronous.
    pub closed spec fn buffer(self) -> Option<usize> {
        self.async_buffer
    }

    /// The overflow policy that the logger will have.
    pub closed spec fn policy(self) -> OverflowPolicy {
        self.overflow_policy
    }

    /// How the logger will honour the priorities.
    pub closed spec fn priorities(self) -> PriorityConfig {
        self.priority_config
    }

    /// The configuration of the sampler, where the logger will have one.
    pub closed spec fn sampling(self) -> Option<SamplingConfig> {
        self.sampling
    }

    /// Whether a logger can be built: the queue, if there is one, is not
    /// larger than `MAX_BUFFER_SIZE`.
    pub open spec fn buildable(self) -> bool {
        match self.buffer() {
            Some(n) => n <= MAX_BUFFER_SIZE,
            None => true,
        }
    }

    /// A builder with the settings of `Logger::new`.
    pub fn new() -> (r: LoggerBuilder)
        ensures
            r.level() == LogLevel::Info,
            r.sinks().len() == 0,
            r.buffer() is None,
            r.policy() == OverflowPolicy::AlertAndDrop,
            r.priorities() == PriorityConfig::standard(),
            r.sampling() is None,
    {
        LoggerBuilder {
            min_level: LogLevel::Info,
            appenders: Sinks::new(),
            async_buffer: None,
            overflow_policy: OverflowPolicy::AlertAndDrop,
            priority_config: PriorityConfig::default(),
            sampling: None,
        }
    }

    /// Sets the minimum level.
    pub fn min_level(self, level: LogLevel) -> (r: LoggerBuilder)
        ensures
            r.level() == level,
            r.sinks() == self.sinks(),
            r.buffer() == self.buffer(),
            r.policy() == self.policy(),
            r.priorities() == self.priorities(),
            r.sampling() == self.sampling(),
    {
        let mut builder = self;
        builder.min_level = level;
        builder
    }

    /// Adds a sink behind the ones that are there.
    pub fn appender<A: Appender + 'static>(self, appender: A) -> (r: LoggerBuilder)
        ensures
            r.sinks().len() == self.sinks().len() + 1,
            r.sinks().drop_last() == self.sinks(),
            r.sinks().last().accepted().len() == 0,
            r.level() == self.level(),
            r.buffer() == self.buffer(),
            r.policy() == self.policy(),
            r.priorities() == self.priorities(),
            r.sampling() == self.sampling(),
    {
        let mut builder = self;
        let boxed: Box<dyn Appender> = Box::new(appender);
        builder.appenders.push(SinkSlot::new(boxed));
        assert(builder.appenders@.drop_last() == self.appenders@);
        builder
    }

    /// Makes the logger asynchronous, with a queue of `buffer_size` records.
    pub fn async_mode(self, buffer_size: usize) -> (r: LoggerBuilder)
        ensures
            r.buffer() == Some(buffer_size),
            r.sinks() == self.sinks(),
            r.level() == self.level(),
            r.policy() == self.policy(),
            r.priorities() == self.priorities(),
            r.sampling() == self.sampling(),
    {
        let mut builder = self;
        builder.async_buffer = Some(buffer_size);
        builder
    }

    /// Sets what happens to a record that the full queue refuses.
    pub fn overflow_policy(self, policy: OverflowPolicy) -> (r: LoggerBuilder)
        ensures
            r.policy() == policy,
            r.sinks() == self.sinks(),
            r.level() == self.level(),
            r.buffer() == self.buffer(),
            r.priorities() == self.priorities(),
            r.sampling() == self.sampling(),
    {
        let mut builder = self;
        builder.overflow_policy = policy;
        builder
    }

    /// Sets how the priorities are honoured.
    pub fn priority_config(self, config: PriorityConfig) -> (r: LoggerBuilder)
        ensures
            r.priorities() == config,
            r.sinks() == self.sinks(),
            r.level() == self.level(),
            r.buffer() == self.buffer(),
            r.policy() == self.policy(),
            r.sampling() == self.sampling(),
    {
        let mut builder = self;
        builder.priority_config = config;
        builder
    }

    /// Sets up a sampler.
    pub fn with_sampling(self, config: SamplingConfig) -> (r: LoggerBuilder)
        ensures
            r.sampling() == Some(config),
            r.sinks() == self.sinks(),
            r.level() == self.level(),
            r.buffer() == self.buffer(),
            r.policy() == self.policy(),
            r.priorities() == self.priorities(),
    {
        let mut builder = self;
        builder.sampling = Some(config);
        builder
    }

    /// Makes the logger, and the worker of its queue where it has one. A
    /// queue larger than `MAX_BUFFER_SIZE` is refused as an invalid
    /// configuration.
    pub fn build(self) -> (r: Result<(Logger, Option<Worker>), LoggerError>)
        ensures
            r is Ok <==> self.buildable(),
            r matches Err(e) ==> e is InvalidConfiguration,
            r matches Ok(made) ==> {
                &&& made.0.min_level() == self.level()
                &&& made.0.is_async() == (self.buffer() is Some)
                &&& made.0.queue_open() == (self.buffer() is Some)
                &&& made.0.sampling() == self.sampling()
                &&& made.0.policy() == self.policy()
                &&& made.0.priorities() == self.priorities()
                &&& made.1 is Some <==> self.buffer() is Some
                &&& made.1 matches Some(w) ==> w.state() is Draining && w.pending().len() == 0
                    && w.received().len() == 0 && w.written().len() == 0
            },
    {
        let (mut logger, worker) = match self.async_buffer {
            Some(size) => {
                if size > MAX_BUFFER_SIZE {
                    return Err(
                        LoggerError::config("Logger", "the queue is larger than the largest allowed"),
                    );
                }
                let (logger, worker) = Logger::with_async(size);
                (logger, Some(worker))
            },
            None => (Logger::new(), None),
        };
        logger.min_level = self.min_level;
        logger.overflow_policy = self.overflow_policy;
        logger.priority_config = self.priority_config;
        logger.sampler = match self.sampling {
            Some(config) => Some(Sampling { config, state: new_lock(SamplerState::new()) }),
            None => None,
        };
        let mut pending = self.appenders;
        logger.add_all(&mut pending);
        Ok((logger, worker))
    }
}

impl Default for LoggerBuilder {
    fn default() -> (r: LoggerBuilder)
        ensures
            r.level() == LogLevel::Info,
            r.sinks().len() == 0,
            r.buffer() is None,
            r.sampling() is None,
    {
        LoggerBuilder::new()
    }
}

/// Moves every sink of `from` to the end of `to`, in order.
pub fn move_all(to: &mut Sinks, from: &mut Sinks)
    ensures
        final(to)@ == old(to)@ + old(from)@,
        final(to).journal() == old(to).journal(),
        final(from)@.len() == 0,
{
    to.take_all(from);
}

/// The alert that a drop count calls for.
pub fn alert_for(count: u64) -> (r: Option<u64>)
    ensures
        r == (if alert_due(count as nat) {
            Some(count)
        } else {
            None
        }),
{
    if should_alert(count) {
        Some(count)
    } else {
        None
    }
}

/// The category that a context gives a record: the text of its field
/// `category`.
pub open spec fn context_category(context: LogContext) -> Option<Seq<char>> {
    match context.value_of("category"@) {
        Some(FieldValue::String(s)) => Some(s@),
        _ => None,
    }
}

/// The category of a record: the text of its field `category`.
pub open spec fn category_text(entry: LogEntry) -> Option<Seq<char>> {
    match entry.context {
        Some(context) => context_category(context),
        None => None,
    }
}

/// The category of a record: the text of its field `category`.
pub fn category_of(entry: &LogEntry) -> (r: Option<&str>)
    ensures
        match r {
            Some(c) => category_text(*entry) == Some(c@),
            None => category_text(*entry) is None,
        },
{
    match &entry.context {
        Some(context) => match context.get("category") {
            Some(FieldValue::String(s)) => Some(s.as_str()),
            _ => None,
        },
        None => None,
    }
}

/// Adds a sink behind the ones that are there.
pub fn register(appenders: &mut Sinks, appender: SinkSlot)
    ensures
        final(appenders)@ == old(appenders)@.push(appender),
        final(appenders).journal() == old(appenders).journal(),
{
    appenders.push(appender);
}

/// How the wait for the worker ended.
#[derive(Debug, Clone, Copy, PartialEq, Eq, Structural)]
pub enum WorkerExit {
    /// There was no worker, or it was waited for before.
    NotRunning,
    /// The worker wrote all that the queue held and ended.
    Finished,
    /// The worker's thread panicked.
    Panicked,
    /// The worker did not end within the timeout.
    TimedOut,
}

/// What a caller that waits for the worker does next.
#[derive(Debug, Clone, Copy, PartialEq, Eq, Structural)]
pub enum WaitStep {
    /// The worker has ended: join it.
    Join,
    /// The time is up: stop waiting.
    GiveUp,
    /// Sleep for the given number of milliseconds, then look again.
    Sleep(u64),
}

/// What a caller that waits for the worker does next: it joins a worker that
/// has ended, gives up once `timeout_ms` milliseconds have passed, and sleeps
/// a little otherwise.
pub open spec fn wait_decision(finished: bool, elapsed_ms: nat, timeout_ms: nat) -> WaitStep {
    if finished {
        WaitStep::Join
    } else if elapsed_ms >= timeout_ms {
        WaitStep::GiveUp
    } else {
        WaitStep::Sleep(SHUTDOWN_POLL_MS)
    }
}

/// Decides what a caller that waits for the worker does next.
pub fn wait_step(finished: bool, elapsed_ms: u128, timeout_ms: u128) -> (r: WaitStep)
    ensures
        r == wait_decision(finished, elapsed_ms as nat, timeout_ms as nat),
{
    if finished {
        WaitStep::Join
    } else if elapsed_ms >= timeout_ms {
        WaitStep::GiveUp
    } else {
        WaitStep::Sleep(SHUTDOWN_POLL_MS)
    }
}

/// Where the worker stands.
#[derive(Debug, Clone, Copy, PartialEq, Eq, Structural)]
pub enum WorkerState {
    /// The queue is open and the worker takes records from it.
    Draining,
    /// The queue was closed and the worker writes what is left.
    ShuttingDown,
    /// The worker has written everything and has ended.
    Terminated,
}

/// What the thread that runs the worker does next.
#[derive(Debug, Clone, Copy, PartialEq, Eq, Structural)]
pub enum WorkerStep {
    /// Call `collect` again.
    Continue,
    /// Sleep for the given number of milliseconds, then call `finish`.
    Wait(u64),
    /// End the thread.
    Done,
}

/// The consumer end of the queue. It gathers records into a batch of at most
/// `BATCH_SIZE`, and writes a batch at once when it is full or, when it is
/// not, after a short wait for more.
pub struct Worker {
    receiver: Receiver<LogEntry>,
    appenders: Arc<RwLock<Sinks>>,
    metrics: Arc<RwLock<LoggerMetrics>>,
    batch: Vec<LogEntry>,
    state: WorkerState,
    taken: Ghost<Seq<LogEntry>>,
    passed_on: Ghost<Seq<LogEntry>>,
}

impl Worker {
    /// Where the worker stands.
    pub closed spec fn state(self) -> WorkerState {
        self.state
    }

    /// The records that the worker took from the queue and has not written
    /// yet, oldest first.
    pub closed spec fn pending(self) -> Seq<LogEntry> {
        self.batch@
    }

    /// Every record that the worker has taken from the queue so far, oldest
    /// first.
    pub closed spec fn received(self) -> Seq<LogEntry> {
        self.taken@
    }

    /// Every record that the worker has handed to the sinks so far, in the
    /// order in which it did.
    pub closed spec fn written(self) -> Seq<LogEntry> {
        self.passed_on@
    }

    /// Whether `a` stands at the front of `b`.
    pub open spec fn is_prefix(a: Seq<LogEntry>, b: Seq<LogEntry>) -> bool {
        a.len() <= b.len() && b.take(a.len() as int) == a
    }

    /// Whether nothing was lost or moved between two moments of a worker: the
    /// records that it received in between are exactly the ones by which
    /// what it has written and what still waits has grown, in their order.
    pub open spec fn conserves(before: Worker, after: Worker) -> bool {
        let news = after.received().skip(before.received().len() as int);
        &&& before.received().len() <= after.received().len()
        &&& after.received() == before.received() + news
        &&& after.written() + after.pending() == before.written() + before.pending() + news
        &&& Worker::is_prefix(before.written(), after.written())
    }

    /// Where the worker stands.
    pub fn current_state(&self) -> (r: WorkerState)
        ensures
            r == self.state(),
    {
        self.state
    }

    /// How many records wait to be written.
    pub fn pending_count(&self) -> (r: usize)
        ensures
            r == self.pending().len(),
    {
        self.batch.len()
    }

    /// Puts a record that came from the queue at the end of the batch.
    fn take_in(&mut self, entry: LogEntry)
        ensures
            final(self).state() == old(self).state(),
            final(self).pending() == old(self).pending().push(entry),
            final(self).received() == old(self).received().push(entry),
            final(self).written() == old(self).written(),
            Worker::conserves(*old(self), *final(self)),
    {
        self.taken = Ghost(self.taken@.push(entry));
        self.batch.push(entry);
        proof {
            let news = self.taken@.skip(old(self).taken@.len() as int);
            assert(news =~= seq![entry]);
            assert(self.taken@ =~= old(self).taken@ + news);
            assert(self.passed_on@ + self.batch@ =~= old(self).passed_on@ + old(self).batch@
                + news);
            assert(self.passed_on@.take(self.passed_on@.len() as int) =~= self.passed_on@);
        }
    }

    /// Takes what one look at the queue gave. A record goes to the end of the
    /// batch; the worker is to look again if a record came and the batch is
    /// not full yet. An empty or closed queue changes nothing and ends the
    /// looking.
    pub fn on_polled(&mut self, got: Polled) -> (again: bool)
        ensures
            final(self).state() == old(self).state(),
            final(self).written() == old(self).written(),
            got matches Polled::Record(entry) ==> {
                &&& final(self).pending() == old(self).pending().push(entry)
                &&& final(self).received() == old(self).received().push(entry)
                &&& again == (final(self).pending().len() < BATCH_SIZE)
            },
            !(got is Record) ==> {
                &&& !again
                &&& final(self).pending() == old(self).pending()
                &&& final(self).received() == old(self).received()
            },
            Worker::conserves(*old(self), *final(self)),
    {
        match got {
            Polled::Record(entry) => {
                self.take_in(entry);
                self.batch.len() < BATCH_SIZE
            },
            Polled::Empty => {
                proof {
                    Worker::lemma_conserves_nothing(*self);
                }
                false
            },
            Polled::Closed => {
                proof {
                    Worker::lemma_conserves_nothing(*self);
                }
                false
            },
        }
    }

    /// Takes the records that the queue has ready, without waiting, until the
    /// batch is full. The records that waited keep their places, and the new
    /// ones follow in the order in which the queue gave them.
    fn top_up(&mut self)
        ensures
            final(self).state() == old(self).state(),
            Worker::is_prefix(old(self).pending(), final(self).pending()),
            final(self).pending().len() <= BATCH_SIZE || final(self).pending().len() == old(
                self,
            ).pending().len(),
            final(self).written() == old(self).written(),
            Worker::conserves(*old(self), *final(self)),
    {
        proof {
            assert(self.batch@.take(self.batch@.len() as int) =~= self.batch@);
            Worker::lemma_conserves_nothing(*self);
        }
        while self.batch.len() < BATCH_SIZE
            invariant
                self.state == old(self).state,
                Worker::is_prefix(old(self).batch@, self.batch@),
                self.batch@.len() <= BATCH_SIZE || self.batch@.len() == old(self).batch@.len(),
                self.passed_on@ == old(self).passed_on@,
                Worker::conserves(*old(self), *self),
            decreases BATCH_SIZE - self.batch.len(),
        {
            let ghost before = *self;
            let got = poll(&self.receiver);
            let again = self.on_polled(got);
            proof {
                assert(self.batch@.take(old(self).batch@.len() as int) =~= before.batch@.take(
                    old(self).batch@.len() as int,
                ));
                Worker::lemma_conserves_chain(*old(self), before, *self);
            }
            if !again {
                break ;
            }
        }
    }

    /// Writes the batch to the sinks, counts its records, and empties it.
    fn write_out(&mut self)
        ensures
            final(self).state() == old(self).state(),
            final(self).pending().len() == 0,
            final(self).received() == old(self).received(),
            final(self).written() == old(self).written() + old(self).pending(),
            Worker::conserves(*old(self), *final(self)),
    {
        if self.batch.len() > 0 {
            let mut sinks_guard = lock_write(&*self.appenders);
            let sinks = locked(&mut sinks_guard);
            let mut metrics_guard = lock_write(&*self.metrics);
            let metrics = locked(&mut metrics_guard);
            let _ = process_batch(sinks, &self.batch, metrics);
            self.passed_on = Ghost(self.passed_on@ + self.batch@);
            self.batch.clear();
        }
        proof {
            let news = self.taken@.skip(old(self).taken@.len() as int);
            assert(news.len() == 0);
            assert(self.taken@ =~= old(self).taken@ + news);
            assert(self.passed_on@ =~= old(self).passed_on@ + old(self).batch@);
            assert(self.passed_on@ + self.batch@ =~= old(self).passed_on@ + old(self).batch@
                + news);
            assert(self.passed_on@.take(old(self).passed_on@.len() as int) =~= old(
                self,
            ).passed_on@);
        }
    }

    /// Takes what the wait for the next record gave.
    ///
    /// `None` means that the queue is closed and empty: the records that still
    /// wait are written and the worker ends (`Done`). A record opens a batch:
    /// it goes to the end of the batch, the records that the queue has ready
    /// follow it, and a full batch is written at once (`Continue`), while for
    /// a smaller one the thread is asked to wait `BATCH_TIMEOUT_MS` and then
    /// to call `finish`. No record is lost or moved on the way.
    pub fn on_received(&mut self, got: Option<LogEntry>) -> (step: WorkerStep)
        requires
            !(old(self).state() is Terminated),
        ensures
            got is None <==> step is Done,
            step is Done <==> final(self).state() is Terminated,
            !(step is Done) ==> final(self).state() is Draining,
            got is None ==> {
                &&& final(self).received() == old(self).received()
                &&& final(self).written() == old(self).written() + old(self).pending()
                &&& final(self).pending().len() == 0
            },
            got matches Some(entry) ==> {
                &&& Worker::is_prefix(old(self).received().push(entry), final(self).received())
                &&& step is Continue || step == WorkerStep::Wait(BATCH_TIMEOUT_MS)
            },
            step is Continue ==> final(self).pending().len() == 0,
            step is Wait ==> {
                &&& final(self).written() == old(self).written()
                &&& Worker::is_prefix(old(self).pending(), final(self).pending())
                &&& 0 < final(self).pending().len()
                &&& old(self).pending().len() < BATCH_SIZE ==> final(self).pending().len()
                    < BATCH_SIZE
            },
            Worker::conserves(*old(self), *final(self)),
    {
        match got {
            None => {
                self.state = WorkerState::ShuttingDown;
                let ghost closing = *self;
                self.write_out();
                let ghost emptied = *self;
                self.state = WorkerState::Terminated;
                proof {
                    Worker::lemma_conserves_nothing(*old(self));
                    assert(Worker::conserves(*old(self), closing));
                    Worker::lemma_conserves_chain(*old(self), closing, emptied);
                    assert(Worker::conserves(*old(self), *self));
                }
                WorkerStep::Done
            },
            Some(entry) => {
                self.state = WorkerState::Draining;
                let ghost started = *self;
                self.take_in(entry);
                let ghost first = *self;
                self.top_up();
                let ghost filled = *self;
                proof {
                    Worker::lemma_conserves_nothing(*old(self));
                    assert(first.batch@.take(old(self).batch@.len() as int) =~= old(self).batch@);
                    assert(self.batch@.take(old(self).batch@.len() as int) =~= first.batch@.take(
                        old(self).batch@.len() as int,
                    ));
                    assert(Worker::conserves(*old(self), started));
                    Worker::lemma_conserves_chain(*old(self), started, first);
                    Worker::lemma_conserves_chain(*old(self), first, filled);
                    let news = filled.taken@.skip(first.taken@.len() as int);
                    assert(filled.taken@ =~= first.taken@ + news);
                    assert(filled.taken@.take(first.taken@.len() as int) =~= first.taken@);
                }
                if self.batch.len() >= BATCH_SIZE {
                    self.write_out();
                    proof {
                        Worker::lemma_conserves_chain(*old(self), filled, *self);
                    }
                    WorkerStep::Continue
                } else {
                    WorkerStep::Wait(BATCH_TIMEOUT_MS)
                }
            },
        }
    }

    /// Waits for the next record and hands what came to `on_received`. A
    /// worker that has ended stays as it is and does not look at the queue
    /// again.
    pub fn collect(&mut self) -> (step: WorkerStep)
        ensures
            old(self).state() is Terminated ==> step is Done && final(self).pending() == old(
                self,
            ).pending(),
            step is Done <==> final(self).state() is Terminated,
            step is Done && !(old(self).state() is Terminated) ==> final(self).pending().len()
                == 0,
            step is Continue ==> final(self).pending().len() == 0,
            step is Wait ==> step == WorkerStep::Wait(BATCH_TIMEOUT_MS) && Worker::is_prefix(
                old(self).pending(),
                final(self).pending(),
            ) && 0 < final(self).pending().len() && (old(self).pending().len() < BATCH_SIZE
                ==> final(self).pending().len() < BATCH_SIZE),
            !(step is Done) ==> final(self).state() is Draining,
            Worker::conserves(*old(self), *final(self)),
    {
        match self.state {
            WorkerState::Terminated => {
                proof {
                    Worker::lemma_conserves_nothing(*self);
                }
                return WorkerStep::Done;
            },
            _ => {},
        }
        let got = receive(&self.receiver);
        self.on_received(got)
    }

    /// After the wait: adds the records that have come in the meantime and
    /// writes the batch.
    pub fn finish(&mut self)
        ensures
            final(self).state() == old(self).state(),
            final(self).pending().len() == 0,
            Worker::conserves(*old(self), *final(self)),
    {
        self.top_up();
        let ghost filled = *self;
        self.write_out();
        proof {
            Worker::lemma_conserves_chain(*old(self), filled, *self);
        }
    }

    /// A worker that does nothing loses nothing.
    pub proof fn lemma_conserves_nothing(worker: Worker)
        ensures
            Worker::conserves(worker, worker),
    {
        let news = worker.received().skip(worker.received().len() as int);
        assert(news.len() == 0);
        assert(worker.received() + news =~= worker.received());
        assert(worker.written() + worker.pending() + news =~= worker.written()
            + worker.pending());
        assert(worker.written().take(worker.written().len() as int) =~= worker.written());
    }

    /// What holds from one moment to a second and from the second to a third
    /// holds from the first to the third: over any number of steps, the
    /// records that a worker has written and those that still wait are the
    /// records that it received, in their order.
    pub proof fn lemma_conserves_chain(first: Worker, second: Worker, third: Worker)
        requires
            Worker::conserves(first, second),
            Worker::conserves(second, third),
        ensures
            Worker::conserves(first, third),
    {
        let a = second.received().skip(first.received().len() as int);
        let b = third.received().skip(second.received().len() as int);
        let news = third.received().skip(first.received().len() as int);
        assert(third.received() =~= first.received() + a + b);
        assert(news =~= a + b);
        assert(third.received() =~= first.received() + news);
        assert(third.written() + third.pending() =~= first.written() + first.pending() + a + b);
        assert(first.written() + first.pending() + a + b =~= first.written() + first.pending()
            + news);
        assert(third.written().take(first.written().len() as int) =~= second.written().take(
            first.written().len() as int,
        ));
    }

    /// A worker that started with nothing and has ended has written every
    /// record that it received, in the order in which it received them.
    pub proof fn lemma_nothing_lost(start: Worker, end: Worker)
        requires
            start.received().len() == 0,
            start.written().len() == 0,
            start.pending().len() == 0,
            Worker::conserves(start, end),
            end.pending().len() == 0,
        ensures
            end.written() == end.received(),
    {
        let news = end.received().skip(0);
        assert(news == end.received());
        assert(end.written() + end.pending() == end.written());
        assert(start.written() + start.pending() + news == news);
    }
}

/// A critical record is never dropped: where the configuration preserves
/// critical records and lets their callers wait for the sinks, a record of
/// severity `Error` or `Fatal` is written, queued, or, once the logger is
/// shutting down, discarded with the queue — whatever the policy says.
pub proof fn lemma_critical_never_dropped(logger: Logger, level: LogLevel, r: Disposition)
    requires
        logger.allows(level, r),
        level == LogLevel::Error || level == LogLevel::Fatal,
        logger.priorities().preserve_critical,
        logger.priorities().block_on_critical,
    ensures
        !(r is Dropped),
        r matches Disposition::Queued { waited } ==> !waited,
{
}

/// A critical record that the full queue refuses is written to the sinks on
/// the caller's thread, whatever the policy: where the configuration
/// preserves critical records and lets their callers wait for the sinks, a
/// refused record of severity `Error` or `Fatal` ends as `Preserved` and in
/// no other way.
pub proof fn lemma_refused_critical_is_preserved(logger: Logger, level: LogLevel, r: Disposition)
    requires
        logger.overflows(level, r),
        level == LogLevel::Error || level == LogLevel::Fatal,
        logger.priorities().preserve_critical,
        logger.priorities().block_on_critical,
    ensures
        r is Preserved,
{
}

/// A record that is handed to an asynchronous logger after its queue was
/// closed is discarded: it is not written, not queued and not counted as
/// dropped.
pub proof fn lemma_closed_queue_discards(logger: Logger, level: LogLevel, r: Disposition)
    requires
        logger.allows(level, r),
        logger.is_async(),
        !logger.queue_open(),
        logger.admits(level),
    ensures
        r is Discarded || r is SampledOut,
        !logger.samples() ==> r is Discarded,
{
}

/// Under the policy `Block` no record is dropped: a record that passed the
/// filter and the sampler is queued or written, unless the logger is shutting
/// down.
pub proof fn lemma_block_never_drops(logger: Logger, level: LogLevel, r: Disposition)
    requires
        logger.allows(level, r),
        logger.policy() == OverflowPolicy::Block,
    ensures
        !(r is Dropped),
{
}

/// In synchronous mode a record that passes the filter and the sampler is
/// written to the sinks on the spot.
pub proof fn lemma_sync_mode_writes(logger: Logger, level: LogLevel, r: Disposition)
    requires
        logger.allows(level, r),
        !logger.is_async(),
        logger.admits(level),
    ensures
        r is Written || r is SampledOut,
        !logger.samples() ==> r is Written,
{
}

/// A record is ignored exactly when its severity is below the minimum level.
pub proof fn lemma_filter_is_exact(logger: Logger, level: LogLevel, r: Disposition)
    requires
        logger.allows(level, r),
    ensures
        r is Filtered <==> level.rank() < logger.min_level().rank(),
{
}

} // verus!
