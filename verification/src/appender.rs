//! What a sink is to the logger.

use vstd::prelude::*;
use crate::error::LoggerError;
use crate::log_entry::LogEntry;

verus! {

/// An output destination. The logger calls a sink's methods one after the
/// other, never two at a time. What a sink does with a record is its own
/// business: the logger only learns whether the call succeeded.
pub trait Appender: Send + Sync {
    /// Writes one record.
    fn append(&mut self, entry: &LogEntry) -> Result<(), LoggerError>;

    /// Hands what was written on to the destination.
    fn flush(&mut self) -> Result<(), LoggerError>;

    /// The name of the sink.
    fn name(&self) -> &str;
}

/// What the logger has seen of one sink.
pub struct SinkAccount {
    /// The records that were handed to the sink's `append`, oldest first.
    pub offered: Seq<LogEntry>,
    /// Those of them for which `append` returned `Ok`, oldest first.
    pub accepted: Seq<LogEntry>,
    /// What each call of the sink's `flush` returned, oldest first: `None`
    /// for success, and the error otherwise.
    pub flushes: Seq<Option<LoggerError>>,
}

/// A registered sink, together with the logger's account of it. The account
/// is kept by the library itself: it notes each call that it makes and what
/// came back.
pub struct SinkSlot {
    sink: Box<dyn Appender>,
    account: Ghost<SinkAccount>,
}

/// The error of a result, if it is one.
pub open spec fn error_of(result: Result<(), LoggerError>) -> Option<LoggerError> {
    match result {
        Ok(_) => None,
        Err(e) => Some(e),
    }
}

impl SinkSlot {
    /// What the logger has seen of the sink.
    pub closed spec fn account(self) -> SinkAccount {
        self.account@
    }

    /// The records that were handed to the sink, oldest first.
    pub open spec fn offered(self) -> Seq<LogEntry> {
        self.account().offered
    }

    /// The records that the sink took, oldest first.
    pub open spec fn accepted(self) -> Seq<LogEntry> {
        self.account().accepted
    }

    /// What the calls of the sink's `flush` returned, oldest first.
    pub open spec fn flushes(self) -> Seq<Option<LoggerError>> {
        self.account().flushes
    }

    /// A slot for a sink that has not been called yet.
    pub fn new(sink: Box<dyn Appender>) -> (r: SinkSlot)
        ensures
            r.offered().len() == 0,
            r.accepted().len() == 0,
            r.flushes().len() == 0,
    {
        SinkSlot {
            sink,
            account: Ghost(
                SinkAccount { offered: Seq::empty(), accepted: Seq::empty(), flushes: Seq::empty() },
            ),
        }
    }

    /// Hands the sink one record to write and notes whether it took it.
    pub fn append(&mut self, entry: &LogEntry) -> (r: Result<(), LoggerError>)
        ensures
            final(self).offered() == old(self).offered().push(*entry),
            r is Ok ==> final(self).accepted() == old(self).accepted().push(*entry),
            r is Err ==> final(self).accepted() == old(self).accepted(),
            final(self).flushes() == old(self).flushes(),
    {
        let result = self.sink.append(entry);
        let ghost before = self.account@;
        if result.is_ok() {
            self.account = Ghost(
                SinkAccount {
                    offered: before.offered.push(*entry),
                    accepted: before.accepted.push(*entry),
                    flushes: before.flushes,
                },
            );
        } else {
            self.account = Ghost(
                SinkAccount {
                    offered: before.offered.push(*entry),
                    accepted: before.accepted,
                    flushes: before.flushes,
                },
            );
        }
        result
    }

    /// Asks the sink to hand on what it wrote, and notes what came back.
    pub fn flush(&mut self) -> (r: Result<(), LoggerError>)
        ensures
            final(self).offered() == old(self).offered(),
            final(self).accepted() == old(self).accepted(),
            final(self).flushes() == old(self).flushes().push(error_of(r)),
    {
        let result = self.sink.flush();
        let ghost before = self.account@;
        self.account = Ghost(
            SinkAccount {
                offered: before.offered,
                accepted: before.accepted,
                flushes: before.flushes.push(error_of(result)),
            },
        );
        result
    }

    /// The name of the sink.
    pub fn name(&self) -> &str {
        self.sink.name()
    }
}

} // verus!
