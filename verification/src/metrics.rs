//! Counters that make the health of a logger visible.
//!
//! The counters are plain numbers. A logger keeps them behind the same kind of
//! lock as its sinks and hands out copies, so a reader always sees the five
//! counters of one moment.

use vstd::prelude::*;

verus! {

/// One million: the scale of every rate in this library. A rate of 1.0 is
/// written as 1,000,000.
pub const RATE_SCALE: u32 = 1_000_000;

/// The counter after one more event. A counter that has reached the largest
/// 64-bit number starts again from zero.
pub open spec fn next_count(n: nat) -> nat {
    (n + 1) % 0x1_0000_0000_0000_0000
}

/// `part` out of `whole`, in millionths, rounded down.
pub open spec fn millionths(part: nat, whole: nat) -> nat
    recommends
        whole > 0,
{
    part * (RATE_SCALE as nat) / whole
}

/// The values of the five counters.
pub struct MetricsView {
    /// Records that were lost: refused by a full queue, or failed by a sink.
    pub dropped: nat,
    /// Records that every sink took.
    pub logged: nat,
    /// Times a record found the queue full.
    pub queue_full: nat,
    /// Times a caller waited for room in the queue.
    pub blocked: nat,
    /// Critical records that were written past a full queue.
    pub critical_preserved: nat,
}

/// Counters of what became of the records of one logger.
#[derive(Debug, Clone, Copy, PartialEq, Eq, Structural)]
pub struct LoggerMetrics {
    dropped_count: u64,
    total_logged: u64,
    queue_full_events: u64,
    block_events: u64,
    critical_logs_preserved: u64,
}

impl View for LoggerMetrics {
    type V = MetricsView;

    closed spec fn view(&self) -> MetricsView {
        MetricsView {
            dropped: self.dropped_count as nat,
            logged: self.total_logged as nat,
            queue_full: self.queue_full_events as nat,
            blocked: self.block_events as nat,
            critical_preserved: self.critical_logs_preserved as nat,
        }
    }
}

impl MetricsView {
    /// All counters at zero.
    pub open spec fn zero() -> MetricsView {
        MetricsView { dropped: 0, logged: 0, queue_full: 0, blocked: 0, critical_preserved: 0 }
    }

    /// The records that were written or lost: the sum of `dropped` and
    /// `logged`.
    pub open spec fn settled(self) -> nat {
        self.dropped + self.logged
    }

    /// The share of dropped records among the settled ones, in millionths; 0
    /// when none was settled.
    pub open spec fn drop_rate(self) -> nat {
        if self.settled() == 0 {
            0
        } else {
            millionths(self.dropped, self.settled())
        }
    }
}

impl LoggerMetrics {
    /// New counters, all at zero.
    pub fn new() -> (r: LoggerMetrics)
        ensures
            r@ == MetricsView::zero(),
    {
        LoggerMetrics {
            dropped_count: 0,
            total_logged: 0,
            queue_full_events: 0,
            block_events: 0,
            critical_logs_preserved: 0,
        }
    }

    pub fn dropped_count(&self) -> (r: u64)
        ensures
            r == self@.dropped,
    {
        self.dropped_count
    }

    pub fn total_logged(&self) -> (r: u64)
        ensures
            r == self@.logged,
    {
        self.total_logged
    }

    pub fn queue_full_events(&self) -> (r: u64)
        ensures
            r == self@.queue_full,
    {
        self.queue_full_events
    }

    pub fn block_events(&self) -> (r: u64)
        ensures
            r == self@.blocked,
    {
        self.block_events
    }

    pub fn critical_logs_preserved(&self) -> (r: u64)
        ensures
            r == self@.critical_preserved,
    {
        self.critical_logs_preserved
    }

    /// Counts a lost record and returns the count before.
    pub fn record_dropped(&mut self) -> (previous: u64)
        ensures
            previous == old(self)@.dropped,
            final(self)@ == (MetricsView { dropped: next_count(old(self)@.dropped), ..old(self)@ }),
    {
        let previous = self.dropped_count;
        self.dropped_count = previous.wrapping_add(1);
        previous
    }

    /// Counts a record that every sink took and returns the count before.
    pub fn record_logged(&mut self) -> (previous: u64)
        ensures
            previous == old(self)@.logged,
            final(self)@ == (MetricsView { logged: next_count(old(self)@.logged), ..old(self)@ }),
    {
        let previous = self.total_logged;
        self.total_logged = previous.wrapping_add(1);
        previous
    }

    /// Counts a record that found the queue full and returns the count before.
    pub fn record_queue_full(&mut self) -> (previous: u64)
        ensures
            previous == old(self)@.queue_full,
            final(self)@ == (MetricsView {
                queue_full: next_count(old(self)@.queue_full),
                ..old(self)@
            }),
    {
        let previous = self.queue_full_events;
        self.queue_full_events = previous.wrapping_add(1);
        previous
    }

    /// Counts a caller that waited for the queue and returns the count before.
    pub fn record_block(&mut self) -> (previous: u64)
        ensures
            previous == old(self)@.blocked,
            final(self)@ == (MetricsView { blocked: next_count(old(self)@.blocked), ..old(self)@ }),
    {
        let previous = self.block_events;
        self.block_events = previous.wrapping_add(1);
        previous
    }

    /// Counts a critical record that was written past the full queue and
    /// returns the count before.
    pub fn record_critical_preserved(&mut self) -> (previous: u64)
        ensures
            previous == old(self)@.critical_preserved,
            final(self)@ == (MetricsView {
                critical_preserved: next_count(old(self)@.critical_preserved),
                ..old(self)@
            }),
    {
        let previous = self.critical_logs_preserved;
        self.critical_logs_preserved = previous.wrapping_add(1);
        previous
    }

    /// The share of dropped records among all that were written or lost, in
    /// millionths (a percentage with four decimal places); 0 when there was
    /// none.
    pub fn drop_rate(&self) -> (r: u64)
        ensures
            r == self@.drop_rate(),
            r <= RATE_SCALE,
    {
        let dropped: u128 = self.dropped_count as u128;
        let settled: u128 = dropped + self.total_logged as u128;
        if settled == 0 {
            0
        } else {
            proof {
                let d = dropped as int;
                let t = settled as int;
                assert(d * 1_000_000 <= t * 1_000_000) by (nonlinear_arith)
                    requires
                        d <= t,
                ;
                assert((d * 1_000_000) / t <= 1_000_000) by (nonlinear_arith)
                    requires
                        d * 1_000_000 <= t * 1_000_000,
                        t > 0,
                ;
            }
            let rate: u128 = dropped * 1_000_000 / settled;
            rate as u64
        }
    }

    /// Every counter is a 64-bit number.
    pub proof fn lemma_in_range(self)
        ensures
            self@.dropped <= u64::MAX,
            self@.logged <= u64::MAX,
            self@.queue_full <= u64::MAX,
            self@.blocked <= u64::MAX,
            self@.critical_preserved <= u64::MAX,
    {
    }

    /// Sets every counter back to zero.
    pub fn reset(&mut self)
        ensures
            final(self)@ == MetricsView::zero(),
    {
        self.dropped_count = 0;
        self.total_logged = 0;
        self.queue_full_events = 0;
        self.block_events = 0;
        self.critical_logs_preserved = 0;
    }
}

impl Default for LoggerMetrics {
    fn default() -> (r: LoggerMetrics)
        ensures
            r@ == MetricsView::zero(),
    {
        LoggerMetrics::new()
    }
}

} // verus!
