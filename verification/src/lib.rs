//! A structured logging engine with a verified dispatch core.
//!
//! Records are filtered by severity, optionally sampled, and delivered to the
//! registered sinks either on the caller's thread or through a bounded queue
//! that a background worker drains in batches. Every decision on that path is
//! a function with a contract; time, randomness, locks and the queue itself
//! come from outside crates behind small trusted wrappers.
//!
//! The parts, from the leaves up:
//!
//! - `log_level`, `log_entry`, `log_context`, `timestamp`: the record and
//!   what it is made of.
//! - `metrics`, `sampling`, `overflow_policy`: counters, the sampler, and the
//!   decision on a record that a full queue refuses.
//! - `appender`, `dispatch`: what a sink is, and how records are written to
//!   the sinks and counted.
//! - `lock`, `queue`: the lock and the channel that the logger shares with
//!   its worker.
//! - `logger`: the logger, its builder and its worker.
//! - `output_format`, `json`, `appenders`, `structured_entry`,
//!   `structured_builder`, `logger_context`: formats, what the sinks decide,
//!   and conveniences around the logger.
//!
//! A thread that runs a `Worker` calls `collect` in a loop, sleeps when it is
//! asked to, and then calls `finish`. A caller that shuts a logger down calls
//! `close`, waits for that thread as `wait_step` tells, and hands the outcome
//! to `shutdown`.

pub mod appender;
pub mod appenders;
pub mod dispatch;
pub mod error;
pub mod json;
pub mod lock;
pub mod log_context;
pub mod log_entry;
pub mod log_level;
pub mod logger;
pub mod logger_context;
pub mod metrics;
pub mod output_format;
pub mod overflow_policy;
pub mod queue;
pub mod sampling;
pub mod structured_builder;
pub mod structured_entry;
pub mod text;
pub mod timestamp;

pub use crate::appender::{Appender, SinkSlot};
pub use crate::appenders::console::ConsoleAppender;
pub use crate::appenders::rotating_file::RotationPolicy;
pub use crate::error::{LoggerError, Result};
pub use crate::log_context::{FieldValue, LogContext};
pub use crate::log_entry::LogEntry;
pub use crate::log_level::LogLevel;
pub use crate::logger::{
    Disposition, Logger, LoggerBuilder, Worker, WorkerExit, WorkerState, WorkerStep,
};
pub use crate::logger_context::LoggerContext;
pub use crate::metrics::LoggerMetrics;
pub use crate::output_format::OutputFormat;
pub use crate::overflow_policy::{LogPriority, OverflowAction, OverflowPolicy, PriorityConfig};
pub use crate::sampling::{LogSampler, SamplerMetrics, SamplingConfig};
pub use crate::structured_builder::StructuredLogBuilder;
pub use crate::structured_entry::{StructuredLogEntry, TracingContext};
pub use crate::timestamp::{FormatterConfig, Timestamp, TimestampFormat};
