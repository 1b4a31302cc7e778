//! The bounded queue between the callers and the worker: a channel of
//! `crossbeam_channel`.
//!
//! Whether the queue takes a record depends on what the other threads do, so
//! the contracts say only what holds of every outcome: a record that the queue
//! did not take comes back unchanged.

use vstd::prelude::*;
use std::time::Duration;
use crossbeam_channel::{Receiver, Sender};
use crate::log_entry::LogEntry;

verus! {

/// The largest capacity that a queue is made with. `bounded` allocates every
/// slot of the queue at once and panics when the size of that allocation does
/// not fit the address space; a slot for a record is smaller than 512 bytes,
/// so a 1024th of the address space in slots always fits. Whether the machine
/// has that much memory is another matter.
pub const MAX_BUFFER_SIZE: usize = usize::MAX / 1024;

#[verifier::external_type_specification]
#[verifier::external_body]
#[verifier::reject_recursive_types(T)]
pub struct ExSender<T>(Sender<T>);

#[verifier::external_type_specification]
#[verifier::external_body]
#[verifier::reject_recursive_types(T)]
pub struct ExReceiver<T>(Receiver<T>);

/// What became of a record that was offered to the queue.
pub enum Offer {
    /// The queue took the record.
    Accepted,
    /// The queue is full; the record comes back.
    Full(LogEntry),
    /// The queue is closed; the record comes back.
    Closed(LogEntry),
}

/// What became of a record that was offered to the queue for a limited time.
pub enum TimedOffer {
    /// The queue took the record.
    Accepted,
    /// The queue stayed full for the whole time; the record comes back.
    TimedOut(LogEntry),
    /// The queue is closed; the record comes back.
    Closed(LogEntry),
}

/// What the queue had for the worker.
pub enum Polled {
    /// The oldest record of the queue.
    Record(LogEntry),
    /// The queue is empty for now.
    Empty,
    /// The queue is empty and closed: no record will come any more.
    Closed,
}

/// `crossbeam_channel::bounded`: a queue that holds at most `capacity`
/// records, with its two ends. A queue of capacity 0 takes a record only while
/// the worker waits for one. A capacity whose slots do not fit the address
/// space makes `bounded` panic, so the capacity is limited to what always
/// fits.
#[verifier::external_body]
pub(crate) fn new_queue(capacity: usize) -> (Sender<LogEntry>, Receiver<LogEntry>)
    requires
        capacity <= MAX_BUFFER_SIZE,
{
    crossbeam_channel::bounded(capacity)
}

/// `Sender::try_send`: offers a record without waiting. A record that is not
/// taken comes back in the error.
#[verifier::external_body]
pub(crate) fn offer(sender: &Sender<LogEntry>, entry: LogEntry) -> (r: Offer)
    ensures
        r matches Offer::Full(e) ==> e == entry,
        r matches Offer::Closed(e) ==> e == entry,
{
    match sender.try_send(entry) {
        Ok(()) => Offer::Accepted,
        Err(crossbeam_channel::TrySendError::Full(e)) => Offer::Full(e),
        Err(crossbeam_channel::TrySendError::Disconnected(e)) => Offer::Closed(e),
    }
}

/// `Sender::send`: waits until the queue takes the record. It fails only when
/// the queue is closed, and the record comes back in the error.
#[verifier::external_body]
pub(crate) fn send_blocking(sender: &Sender<LogEntry>, entry: LogEntry) -> (r: Result<
    (),
    LogEntry,
>)
    ensures
        r matches Err(e) ==> e == entry,
{
    match sender.send(entry) {
        Ok(()) => Ok(()),
        Err(crossbeam_channel::SendError(e)) => Err(e),
    }
}

/// `Sender::send_timeout`: waits for the queue to take the record, at most
/// for `timeout`. A record that is not taken comes back in the error.
#[verifier::external_body]
pub(crate) fn send_within(sender: &Sender<LogEntry>, entry: LogEntry, timeout: Duration) -> (r:
    TimedOffer)
    ensures
        r matches TimedOffer::TimedOut(e) ==> e == entry,
        r matches TimedOffer::Closed(e) ==> e == entry,
{
    match sender.send_timeout(entry, timeout) {
        Ok(()) => TimedOffer::Accepted,
        Err(crossbeam_channel::SendTimeoutError::Timeout(e)) => TimedOffer::TimedOut(e),
        Err(crossbeam_channel::SendTimeoutError::Disconnected(e)) => TimedOffer::Closed(e),
    }
}

/// `Receiver::recv`: waits for the next record. `None` means that the queue is
/// empty and closed.
#[verifier::external_body]
pub(crate) fn receive(receiver: &Receiver<LogEntry>) -> Option<LogEntry> {
    match receiver.recv() {
        Ok(entry) => Some(entry),
        Err(crossbeam_channel::RecvError) => None,
    }
}

/// `Receiver::try_recv`: takes the next record if one is there, without
/// waiting.
#[verifier::external_body]
pub(crate) fn poll(receiver: &Receiver<LogEntry>) -> Polled {
    match receiver.try_recv() {
        Ok(entry) => Polled::Record(entry),
        Err(crossbeam_channel::TryRecvError::Empty) => Polled::Empty,
        Err(crossbeam_channel::TryRecvError::Disconnected) => Polled::Closed,
    }
}

} // verus!
