//! Identifiers that tie a record to a distributed trace.

use vstd::prelude::*;
use crate::log_context::LogContext;
use crate::log_entry::LogEntry;
use crate::log_level::LogLevel;
use crate::timestamp::Timestamp;

verus! {

/// The place of an operation in a distributed trace.
#[derive(Debug, PartialEq, Eq)]
pub struct TracingContext {
    /// The trace that the request belongs to.
    pub trace_id: String,
    /// The span of this operation.
    pub span_id: String,
    /// The span that this one was started from, if any.
    pub parent_span_id: Option<String>,
}

impl TracingContext {
    /// A tracing context without a parent span.
    pub fn new(trace_id: String, span_id: String) -> (r: TracingContext)
        ensures
            r == (TracingContext { trace_id, span_id, parent_span_id: None }),
    {
        TracingContext { trace_id, span_id, parent_span_id: None }
    }

    /// The context with its parent span set.
    pub fn with_parent(self, parent_span_id: String) -> (r: TracingContext)
        ensures
            r == (TracingContext { parent_span_id: Some(parent_span_id), ..self }),
    {
        let mut context = self;
        context.parent_span_id = Some(parent_span_id);
        context
    }
}

impl Clone for TracingContext {
    fn clone(&self) -> (r: TracingContext)
        ensures
            r == *self,
    {
        TracingContext {
            trace_id: self.trace_id.clone(),
            span_id: self.span_id.clone(),
            parent_span_id: match &self.parent_span_id {
                Some(p) => Some(p.clone()),
                None => None,
            },
        }
    }
}

/// A record for structured output: the time in milliseconds since 1970, the
/// fields, and the place in a trace.
#[derive(Debug)]
pub struct StructuredLogEntry {
    /// Milliseconds since the start of 1970.
    pub timestamp: i64,
    pub level: LogLevel,
    pub message: String,
    /// The fields of the record.
    pub context: LogContext,
    /// The place of the record in a trace, if it has one.
    pub tracing: Option<TracingContext>,
}

impl StructuredLogEntry {
    /// A record made now, without fields.
    pub fn new(level: LogLevel, message: &str) -> (r: StructuredLogEntry)
        ensures
            r.level == level,
            r.message@ == message@,
            r.timestamp >= 0,
            r.context.entries().len() == 0,
            r.tracing is None,
    {
        StructuredLogEntry::from_context(level, message, LogContext::new())
    }

    /// A record made now, with the given fields.
    pub fn from_context(level: LogLevel, message: &str, context: LogContext) -> (r:
        StructuredLogEntry)
        ensures
            r.level == level,
            r.message@ == message@,
            r.timestamp >= 0,
            r.context == context,
            r.tracing is None,
    {
        StructuredLogEntry {
            timestamp: Timestamp::now().timestamp_millis(),
            level,
            message: message.to_owned(),
            context,
            tracing: None,
        }
    }

    /// The structured form of a record: its severity and message, its time in
    /// milliseconds, and its fields.
    pub fn from_entry(entry: &LogEntry) -> (r: StructuredLogEntry)
        ensures
            r.level == entry.level,
            r.message == entry.message,
            r.timestamp == entry.timestamp.secs() * 1000 + entry.timestamp.nanos() / 1_000_000,
            r.tracing is None,
            match entry.context {
                Some(c) => r.context.entries() == c.entries(),
                None => r.context.entries().len() == 0,
            },
    {
        StructuredLogEntry {
            timestamp: entry.timestamp.timestamp_millis(),
            level: entry.level,
            message: entry.message.clone(),
            context: match &entry.context {
                Some(c) => c.clone(),
                None => LogContext::new(),
            },
            tracing: None,
        }
    }

    /// The record with its place in a trace.
    pub fn with_tracing(self, tracing: TracingContext) -> (r: StructuredLogEntry)
        ensures
            r == (StructuredLogEntry { tracing: Some(tracing), ..self }),
    {
        let mut entry = self;
        entry.tracing = Some(tracing);
        entry
    }
}

} // verus!
