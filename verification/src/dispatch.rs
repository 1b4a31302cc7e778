//! Writing records to the sinks, and counting what became of them.
//!
//! These functions work on the sinks and the counters themselves. The logger
//! and its worker call them while they hold the locks.

use vstd::prelude::*;
use crate::appender::SinkSlot;
use crate::error::LoggerError;
use crate::log_entry::LogEntry;
use crate::log_level::LogLevel;
use crate::metrics::{LoggerMetrics, MetricsView};

verus! {

/// One call of a sink's `append` within a round: which sink was called, by
/// its place in the order of registration, and whether it took the record.
pub struct Call {
    pub sink: int,
    pub taken: bool,
}

/// One call of a sink's `flush` within a round: which sink was called, and
/// the error that came back, if one did.
pub struct FlushCall {
    pub sink: int,
    pub error: Option<LoggerError>,
}

/// One pass over the sinks. The calls of a round stand in the order in which
/// they were made.
pub enum Round {
    /// A record was handed to the sinks.
    Wrote { entry: LogEntry, calls: Seq<Call> },
    /// The sinks were flushed.
    Flushed { calls: Seq<FlushCall> },
}

/// The sinks of a logger, in the order in which they were registered,
/// together with a journal of the passes that were made over them. The
/// journal is kept by the library itself: each function that calls the sinks
/// notes its calls, one by one and in the order in which it makes them.
pub struct Sinks {
    slots: Vec<SinkSlot>,
    passes: Ghost<Seq<Round>>,
}

impl View for Sinks {
    type V = Seq<SinkSlot>;

    closed spec fn view(&self) -> Seq<SinkSlot> {
        self.slots@
    }
}

impl Sinks {
    /// The passes that were made over the sinks, oldest first.
    pub closed spec fn journal(self) -> Seq<Round> {
        self.passes@
    }

    /// No sinks, and no pass made.
    pub fn new() -> (r: Sinks)
        ensures
            r@.len() == 0,
            r.journal().len() == 0,
    {
        Sinks { slots: Vec::new(), passes: Ghost(Seq::empty()) }
    }

    /// How many sinks are registered.
    pub fn len(&self) -> (r: usize)
        ensures
            r == self@.len(),
    {
        self.slots.len()
    }

    /// Registers a sink behind the ones that are there.
    pub fn push(&mut self, slot: SinkSlot)
        ensures
            final(self)@ == old(self)@.push(slot),
            final(self).journal() == old(self).journal(),
    {
        self.slots.push(slot);
    }

    /// Moves every sink of `from` behind the ones that are there, in order.
    pub fn take_all(&mut self, from: &mut Sinks)
        ensures
            final(self)@ == old(self)@ + old(from)@,
            final(self).journal() == old(self).journal(),
            final(from)@.len() == 0,
            final(from).journal() == old(from).journal(),
    {
        self.slots.append(&mut from.slots);
    }

    /// The sink at the given place in the order of registration.
    pub fn get(&self, index: usize) -> (r: Option<&SinkSlot>)
        ensures
            match r {
                Some(slot) => index < self@.len() && *slot == self@[index as int],
                None => index >= self@.len(),
            },
    {
        if index < self.slots.len() {
            Some(&self.slots[index])
        } else {
            None
        }
    }
}

/// The calls of a pass that hands `entry` to every sink: sink after sink in
/// the order of registration, each noted with whether it took the record.
pub open spec fn fan_calls(before: Seq<SinkSlot>, after: Seq<SinkSlot>, entry: LogEntry) -> Seq<
    Call,
> {
    Seq::new(before.len(), |i: int| Call { sink: i, taken: took(before[i], after[i], entry) })
}

/// The calls of a pass that flushes every sink: sink after sink in the order
/// of registration, each noted with what its flush returned.
pub open spec fn flush_calls(after: Seq<SinkSlot>) -> Seq<FlushCall> {
    Seq::new(after.len(), |i: int| FlushCall { sink: i, error: after[i].flushes().last() })
}

/// Whether a round handed `entry` to each of `sinks` sinks once, in the order
/// of registration.
pub open spec fn is_write_of(round: Round, entry: LogEntry, sinks: nat) -> bool {
    &&& round matches Round::Wrote { entry: written, calls }
    &&& written == entry
    &&& calls.len() == sinks
    &&& forall|i: int| 0 <= i < sinks ==> (#[trigger] calls[i]).sink == i
}

/// Whether a round flushed each of `sinks` sinks once, in the order of
/// registration.
pub open spec fn is_flush_of(round: Round, sinks: nat) -> bool {
    &&& round matches Round::Flushed { calls }
    &&& calls.len() == sinks
    &&& forall|i: int| 0 <= i < sinks ==> (#[trigger] calls[i]).sink == i
}

/// Whether some sink did not take the record of a round.
pub open spec fn round_failed(round: Round) -> bool {
    match round {
        Round::Wrote { entry, calls } => exists|i: int|
            0 <= i < calls.len() && !(#[trigger] calls[i]).taken,
        Round::Flushed { calls } => false,
    }
}

/// How many of the rounds handed out a record that some sink did not take.
pub open spec fn failed_rounds(rounds: Seq<Round>) -> nat
    decreases rounds.len(),
{
    if rounds.len() == 0 {
        0
    } else {
        failed_rounds(rounds.drop_last()) + (if round_failed(rounds.last()) {
            1nat
        } else {
            0nat
        })
    }
}

/// Whether the journal grew by one round for each record of `batch`, in the
/// order of the batch, each handing its record to every sink in the order of
/// registration. `failed` is the number of those records that some sink did
/// not take.
pub open spec fn writes_journal(
    before: Seq<Round>,
    after: Seq<Round>,
    batch: Seq<LogEntry>,
    sinks: nat,
    failed: nat,
) -> bool {
    let start = before.len() as int;
    &&& after.len() == start + batch.len()
    &&& after.take(start) == before
    &&& forall|k: int|
        0 <= k < batch.len() ==> is_write_of(after[start + k], #[trigger] batch[k], sinks)
    &&& failed == failed_rounds(after.skip(start))
}

/// What writing a batch adds to the journal: one round for each record of the
/// batch, in the order of the batch, and after all of them one round that
/// flushes the sinks. `failed` is the number of records that some sink did
/// not take.
pub open spec fn batch_journal(
    before: Seq<Round>,
    after: Seq<Round>,
    batch: Seq<LogEntry>,
    sinks: nat,
    failed: nat,
) -> bool {
    &&& after.len() == before.len() + batch.len() + 1
    &&& writes_journal(before, after.drop_last(), batch, sinks, failed)
    &&& is_flush_of(after.last(), sinks)
}

/// Whether the journal grew by one round that hands `entry` to every sink in
/// the order of registration.
pub open spec fn noted_write(before: Sinks, after: Sinks, entry: LogEntry) -> bool {
    after.journal() == before.journal().push(
        Round::Wrote { entry, calls: fan_calls(before@, after@, entry) },
    )
}

/// Whether the journal grew by one round that flushes every sink in the order
/// of registration.
pub open spec fn noted_flush(before: Sinks, after: Sinks) -> bool {
    after.journal() == before.journal().push(Round::Flushed { calls: flush_calls(after@) })
}

/// Whether the record was handed to the sink, once, and the sink was not
/// flushed.
pub open spec fn handed(before: SinkSlot, after: SinkSlot, entry: LogEntry) -> bool {
    &&& after.offered() == before.offered().push(entry)
    &&& after.flushes() == before.flushes()
}

/// Whether the sink took the record: the records that it took grew by
/// exactly this one.
pub open spec fn took(before: SinkSlot, after: SinkSlot, entry: LogEntry) -> bool {
    after.accepted() == before.accepted().push(entry)
}

/// Whether the sink took no record.
pub open spec fn kept(before: SinkSlot, after: SinkSlot) -> bool {
    after.accepted() == before.accepted()
}

/// What one attempt to write `entry` to every sink leaves behind: the record
/// was handed to every sink, each sink either took it or failed, and `failed`
/// tells whether some sink failed.
pub open spec fn fan_out(
    before: Seq<SinkSlot>,
    after: Seq<SinkSlot>,
    entry: LogEntry,
    failed: bool,
) -> bool {
    &&& after.len() == before.len()
    &&& forall|i: int| 0 <= i < before.len() ==> #[trigger] handed(before[i], after[i], entry)
    &&& forall|i: int|
        0 <= i < before.len() ==> #[trigger] took(before[i], after[i], entry) || kept(
            before[i],
            after[i],
        )
    &&& !failed <==> forall|i: int|
        0 <= i < before.len() ==> #[trigger] took(before[i], after[i], entry)
}

/// Whether `part` can be had from `whole` by leaving records out, without
/// changing the order of the rest.
pub open spec fn is_selection(part: Seq<LogEntry>, whole: Seq<LogEntry>) -> bool
    decreases whole.len(),
{
    if part.len() == 0 {
        true
    } else if whole.len() == 0 {
        false
    } else {
        (part.last() == whole.last() && is_selection(part.drop_last(), whole.drop_last()))
            || is_selection(part, whole.drop_last())
    }
}

/// Whether `after` is `before` with a selection of `batch` added at its end.
pub open spec fn grew_by_selection(
    before: Seq<LogEntry>,
    after: Seq<LogEntry>,
    batch: Seq<LogEntry>,
) -> bool {
    &&& before.len() <= after.len()
    &&& after.take(before.len() as int) == before
    &&& is_selection(after.skip(before.len() as int), batch)
}

/// Whether the records of `batch` were handed to the sink in order, and the
/// sink took a selection of them.
pub open spec fn written_to(before: SinkSlot, after: SinkSlot, batch: Seq<LogEntry>) -> bool {
    &&& after.offered() == before.offered() + batch
    &&& grew_by_selection(before.accepted(), after.accepted(), batch)
}

/// Whether the records of `batch` were written to the sink and the sink was
/// not flushed.
pub open spec fn wrote(before: SinkSlot, after: SinkSlot, batch: Seq<LogEntry>) -> bool {
    &&& written_to(before, after, batch)
    &&& after.flushes() == before.flushes()
}

/// Whether the sink took every record of the batch, in the order of the
/// batch.
pub open spec fn took_all(before: SinkSlot, after: SinkSlot, batch: Seq<LogEntry>) -> bool {
    after.accepted() == before.accepted() + batch
}

/// Whether the sink was flushed once and handed no record.
pub open spec fn flushed_once(before: SinkSlot, after: SinkSlot) -> bool {
    &&& after.offered() == before.offered()
    &&& after.accepted() == before.accepted()
    &&& after.flushes().len() == before.flushes().len() + 1
    &&& after.flushes().drop_last() == before.flushes()
}

/// Whether the sink was flushed once after the batch was written to it.
pub open spec fn wrote_and_flushed(before: SinkSlot, after: SinkSlot, batch: Seq<LogEntry>) -> bool {
    &&& written_to(before, after, batch)
    &&& after.flushes().len() == before.flushes().len() + 1
    &&& after.flushes().drop_last() == before.flushes()
}

/// What writing a batch to every sink leaves behind: every record of the
/// batch was handed to every sink in the order of the batch, each sink took
/// the records for which it did not fail, every sink was flushed once, and
/// where no record failed every sink took the whole batch.
pub open spec fn batch_fan_out(
    before: Seq<SinkSlot>,
    after: Seq<SinkSlot>,
    batch: Seq<LogEntry>,
    failed: nat,
) -> bool {
    &&& after.len() == before.len()
    &&& failed <= batch.len()
    &&& forall|i: int|
        0 <= i < before.len() ==> #[trigger] wrote_and_flushed(before[i], after[i], batch)
    &&& failed == 0 ==> forall|i: int|
        0 <= i < before.len() ==> #[trigger] took_all(before[i], after[i], batch)
}

/// The first error among the latest flushes of the first `upto` sinks.
pub open spec fn first_error(sinks: Seq<SinkSlot>, upto: int) -> Option<LoggerError>
    decreases upto,
{
    if upto <= 0 {
        None
    } else {
        match first_error(sinks, upto - 1) {
            Some(e) => Some(e),
            None => sinks[upto - 1].flushes().last(),
        }
    }
}

/// What flushing every sink leaves behind: every sink was flushed once, also
/// those behind a sink that failed, and `result` is the first error that
/// came, if one did.
pub open spec fn flushed_all(
    before: Seq<SinkSlot>,
    after: Seq<SinkSlot>,
    result: Result<(), LoggerError>,
) -> bool {
    &&& after.len() == before.len()
    &&& forall|i: int| 0 <= i < before.len() ==> #[trigger] flushed_once(before[i], after[i])
    &&& result == (match first_error(after, after.len() as int) {
        Some(e) => Err::<(), LoggerError>(e),
        None => Ok::<(), LoggerError>(()),
    })
}

/// The counter after `k` more events, starting again from zero after the
/// largest 64-bit number.
pub open spec fn add_count(n: nat, k: nat) -> nat {
    (n + k) % 0x1_0000_0000_0000_0000
}

/// The counters after a record was written: `dropped` counts it if a sink
/// failed, `logged` if none did.
pub open spec fn settled_one(before: MetricsView, failed: bool) -> MetricsView {
    if failed {
        MetricsView { dropped: add_count(before.dropped, 1), ..before }
    } else {
        MetricsView { logged: add_count(before.logged, 1), ..before }
    }
}

/// The counters after a batch of `total` records was written of which `failed`
/// met a failing sink.
pub open spec fn settled_batch(before: MetricsView, total: nat, failed: nat) -> MetricsView
    recommends
        failed <= total,
{
    MetricsView {
        dropped: add_count(before.dropped, failed),
        logged: add_count(before.logged, (total - failed) as nat),
        ..before
    }
}

/// Adding a selected record, or skipping one, keeps a selection.
proof fn lemma_selection_step(part: Seq<LogEntry>, batch: Seq<LogEntry>, k: int, taken: bool)
    requires
        0 <= k < batch.len(),
        is_selection(part, batch.take(k)),
    ensures
        taken ==> is_selection(part.push(batch[k]), batch.take(k + 1)),
        !taken ==> is_selection(part, batch.take(k + 1)),
{
    let next = batch.take(k + 1);
    assert(next.drop_last() == batch.take(k));
    assert(next.last() == batch[k]);
    if taken {
        assert(part.push(batch[k]).drop_last() == part);
        assert(part.push(batch[k]).last() == batch[k]);
    }
}

/// The first error among the first sinks depends on those sinks only.
proof fn lemma_first_error_prefix(a: Seq<SinkSlot>, b: Seq<SinkSlot>, upto: int)
    requires
        0 <= upto <= a.len(),
        upto <= b.len(),
        forall|j: int| 0 <= j < upto ==> a[j] == b[j],
    ensures
        first_error(a, upto) == first_error(b, upto),
    decreases upto,
{
    if upto > 0 {
        lemma_first_error_prefix(a, b, upto - 1);
    }
}

/// Counting one by one is counting all at once.
pub proof fn lemma_add_count_step(n: nat, k: nat)
    ensures
        add_count(add_count(n, k), 1) == add_count(n, k + 1),
        add_count(n, 0) == n % 0x1_0000_0000_0000_0000,
{
    let x: int = (n + k) as int;
    assert(((x % 0x1_0000_0000_0000_0000) + 1) % 0x1_0000_0000_0000_0000 == (x + 1)
        % 0x1_0000_0000_0000_0000);
}

/// Writes one record to every sink, in the order of registration, and returns
/// whether a sink failed. A failing sink does not keep the others from
/// getting the record.
pub fn deliver(appenders: &mut Sinks, entry: &LogEntry) -> (failed: bool)
    ensures
        fan_out(old(appenders)@, final(appenders)@, *entry, failed),
        noted_write(*old(appenders), *final(appenders), *entry),
        failed == round_failed(final(appenders).journal().last()),
{
    let mut failed = false;
    let ghost mut witness: int = 0;
    let ghost mut calls: Seq<Call> = Seq::empty();
    let n = appenders.slots.len();
    let mut i: usize = 0;
    while i < n
        invariant
            i <= n,
            appenders@.len() == n,
            n == old(appenders)@.len(),
            appenders.journal() == old(appenders).journal(),
            forall|j: int| i <= j < n ==> appenders@[j] == old(appenders)@[j],
            forall|j: int|
                0 <= j < i ==> #[trigger] handed(old(appenders)@[j], appenders@[j], *entry),
            forall|j: int|
                0 <= j < i ==> #[trigger] took(old(appenders)@[j], appenders@[j], *entry) || kept(
                    old(appenders)@[j],
                    appenders@[j],
                ),
            !failed ==> forall|j: int|
                0 <= j < i ==> #[trigger] took(old(appenders)@[j], appenders@[j], *entry),
            failed ==> 0 <= witness < i && !took(
                old(appenders)@[witness],
                appenders@[witness],
                *entry,
            ),
            calls.len() == i,
            forall|j: int|
                0 <= j < i ==> (#[trigger] calls[j]) == (Call {
                    sink: j,
                    taken: took(old(appenders)@[j], appenders@[j], *entry),
                }),
        decreases n - i,
    {
        let ghost before = appenders@;
        let result = appenders.slots[i].append(entry);
        proof {
            let was = before[i as int];
            let now = appenders@[i as int];
            assert(was == old(appenders)@[i as int]);
            assert(was.accepted().push(*entry).len() == was.accepted().len() + 1);
            assert(forall|j: int| 0 <= j < n && j != i ==> appenders@[j] == before[j]);
            assert(handed(was, now, *entry));
            if result is Err {
                assert(kept(was, now));
                assert(!took(was, now, *entry));
                witness = i as int;
            } else {
                assert(took(was, now, *entry));
            }
            calls = calls.push(Call { sink: i as int, taken: result is Ok });
        }
        if result.is_err() {
            failed = true;
        }
        i += 1;
    }
    let ghost round = Round::Wrote { entry: *entry, calls };
    proof {
        assert(calls =~= fan_calls(old(appenders)@, appenders@, *entry));
        if failed {
            assert(0 <= witness < calls.len());
            assert(calls[witness].taken == took(
                old(appenders)@[witness],
                appenders@[witness],
                *entry,
            ));
            assert(!calls[witness].taken);
            assert(round matches Round::Wrote { entry: e, calls: c } && c == calls);
            let c = round->Wrote_calls;
            assert(0 <= witness < c.len() && !c[witness].taken);
            assert(exists|i: int| 0 <= i < c.len() && !(#[trigger] c[i]).taken);
            assert(round_failed(round));
        } else {
            assert forall|j: int| 0 <= j < calls.len() implies (#[trigger] calls[j]).taken by {
                assert(took(old(appenders)@[j], appenders@[j], *entry));
            }
            assert(!round_failed(round));
        }
    }
    appenders.passes = Ghost(appenders.passes@.push(round));
    assert(appenders.journal().last() == round);
    failed
}

/// Writes one record to every sink and counts it: as dropped if a sink
/// failed, as logged if none did. Returns whether a sink failed.
pub fn process_sync(appenders: &mut Sinks, entry: &LogEntry, metrics: &mut LoggerMetrics) -> (has_error:
    bool)
    ensures
        fan_out(old(appenders)@, final(appenders)@, *entry, has_error),
        noted_write(*old(appenders), *final(appenders), *entry),
        final(metrics)@ == settled_one(old(metrics)@, has_error),
{
    let has_error = deliver(appenders, entry);
    if has_error {
        metrics.record_dropped();
    } else {
        metrics.record_logged();
    }
    has_error
}

/// The counters after a critical record was written past the full queue: it
/// is counted as written, and as preserved.
pub open spec fn settled_preserved(before: MetricsView, failed: bool) -> MetricsView {
    MetricsView {
        critical_preserved: add_count(before.critical_preserved, 1),
        ..settled_one(before, failed)
    }
}

/// Writes a critical record that the full queue refused to every sink, on the
/// caller's thread, and counts it as written and as preserved. Returns
/// whether a sink failed.
pub fn write_through(appenders: &mut Sinks, entry: &LogEntry, metrics: &mut LoggerMetrics) -> (failed:
    bool)
    ensures
        fan_out(old(appenders)@, final(appenders)@, *entry, failed),
        noted_write(*old(appenders), *final(appenders), *entry),
        final(metrics)@ == settled_preserved(old(metrics)@, failed),
{
    let failed = process_sync(appenders, entry, metrics);
    metrics.record_critical_preserved();
    failed
}

/// The counters after a record was discarded by the overflow policy.
pub open spec fn settled_drop(before: MetricsView) -> MetricsView {
    MetricsView { dropped: add_count(before.dropped, 1), ..before }
}

/// Counts a record that the overflow policy discarded, and returns the
/// number of drops so far.
pub fn count_drop(metrics: &mut LoggerMetrics) -> (count: u64)
    ensures
        final(metrics)@ == settled_drop(old(metrics)@),
        count == add_count(old(metrics)@.dropped, 1),
{
    let previous = metrics.record_dropped();
    previous.wrapping_add(1)
}

/// What became of a record on the synchronous path.
#[derive(Debug, Clone, Copy, PartialEq, Eq, Structural)]
pub enum SyncOutcome {
    /// The severity was below the minimum level: no sink was called and no
    /// counter changed.
    Ignored,
    /// The record was written; `failed` tells whether a sink failed.
    Written { failed: bool },
}

/// The synchronous path from the filter to the sinks. A record whose severity
/// is below `min_level` changes nothing: no sink is called and no counter
/// moves. Every other record is written to every sink and counted once.
pub fn log_sync(
    min_level: LogLevel,
    appenders: &mut Sinks,
    metrics: &mut LoggerMetrics,
    entry: &LogEntry,
) -> (r: SyncOutcome)
    ensures
        r is Ignored <==> entry.level.rank() < min_level.rank(),
        r is Ignored ==> *final(appenders) == *old(appenders) && *final(metrics) == *old(metrics),
        r matches SyncOutcome::Written { failed } ==> fan_out(
            old(appenders)@,
            final(appenders)@,
            *entry,
            failed,
        ) && noted_write(*old(appenders), *final(appenders), *entry) && final(metrics)@
            == settled_one(old(metrics)@, failed),
{
    if !entry.level.at_least(min_level) {
        return SyncOutcome::Ignored;
    }
    let failed = process_sync(appenders, entry, metrics);
    SyncOutcome::Written { failed }
}

/// Writes a batch to every sink, record by record in the order of the batch,
/// counts each record as dropped or logged, and then flushes every sink once.
/// Returns how many records met a failing sink.
pub fn process_batch(appenders: &mut Sinks, batch: &Vec<LogEntry>, metrics: &mut LoggerMetrics) -> (failed:
    usize)
    ensures
        batch_fan_out(old(appenders)@, final(appenders)@, batch@, failed as nat),
        batch_journal(
            old(appenders).journal(),
            final(appenders).journal(),
            batch@,
            old(appenders)@.len(),
            failed as nat,
        ),
        final(metrics)@ == settled_batch(old(metrics)@, batch@.len(), failed as nat),
{
    let mut failed: usize = 0;
    let mut k: usize = 0;
    let ghost start = appenders.journal().len() as int;
    let ghost sinks = appenders@.len();
    proof {
        metrics.lemma_in_range();
        assert(batch@.take(0).len() == 0);
        assert(appenders.journal().take(start) =~= appenders.journal());
        assert(appenders.journal().skip(start).len() == 0);
        assert forall|i: int| 0 <= i < appenders@.len() implies #[trigger] wrote(
            appenders@[i],
            appenders@[i],
            batch@.take(0),
        ) by {
            let account = appenders@[i].accepted();
            assert(account.take(account.len() as int) == account);
            assert(appenders@[i].offered() + batch@.take(0) == appenders@[i].offered());
        }
        assert forall|i: int| 0 <= i < appenders@.len() implies #[trigger] took_all(
            appenders@[i],
            appenders@[i],
            batch@.take(0),
        ) by {
            assert(appenders@[i].accepted() + batch@.take(0) == appenders@[i].accepted());
        }
    }
    while k < batch.len()
        invariant
            k <= batch.len(),
            failed <= k,
            appenders@.len() == old(appenders)@.len(),
            forall|i: int|
                0 <= i < appenders@.len() ==> #[trigger] wrote(
                    old(appenders)@[i],
                    appenders@[i],
                    batch@.take(k as int),
                ),
            failed == 0 ==> forall|i: int|
                0 <= i < appenders@.len() ==> #[trigger] took_all(
                    old(appenders)@[i],
                    appenders@[i],
                    batch@.take(k as int),
                ),
            metrics@ == settled_batch(old(metrics)@, k as nat, failed as nat),
            start == old(appenders).journal().len(),
            sinks == old(appenders)@.len(),
            writes_journal(
                old(appenders).journal(),
                appenders.journal(),
                batch@.take(k as int),
                sinks,
                failed as nat,
            ),
        decreases batch.len() - k,
    {
        let ghost before = appenders@;
        let ghost noted = appenders.journal();
        let has_error = deliver(appenders, &batch[k]);
        if has_error {
            metrics.record_dropped();
            failed += 1;
        } else {
            metrics.record_logged();
        }
        proof {
            let entry = batch@[k as int];
            let earlier: int = failed - if has_error {
                1int
            } else {
                0
            };
            lemma_add_count_step(old(metrics)@.dropped, earlier as nat);
            lemma_add_count_step(old(metrics)@.logged, (k - earlier) as nat);
            assert(batch@.take(k + 1) == batch@.take(k as int).push(entry));
            assert forall|i: int| 0 <= i < appenders@.len() implies #[trigger] wrote(
                old(appenders)@[i],
                appenders@[i],
                batch@.take(k + 1),
            ) by {
                let origin = old(appenders)@[i].accepted();
                let was = before[i].accepted();
                let now = appenders@[i].accepted();
                assert(wrote(old(appenders)@[i], before[i], batch@.take(k as int)));
                assert(handed(before[i], appenders@[i], entry));
                assert(took(before[i], appenders@[i], entry) || kept(before[i], appenders@[i]));
                let part = was.skip(origin.len() as int);
                if took(before[i], appenders@[i], entry) {
                    lemma_selection_step(part, batch@, k as int, true);
                    assert(now.skip(origin.len() as int) == part.push(entry));
                    assert(now.take(origin.len() as int) == was.take(origin.len() as int));
                } else {
                    lemma_selection_step(part, batch@, k as int, false);
                }
                assert(appenders@[i].offered() == old(appenders)@[i].offered() + batch@.take(
                    k + 1,
                ));
            }
            if failed == 0 {
                assert forall|i: int| 0 <= i < appenders@.len() implies #[trigger] took_all(
                    old(appenders)@[i],
                    appenders@[i],
                    batch@.take(k + 1),
                ) by {
                    assert(took_all(old(appenders)@[i], before[i], batch@.take(k as int)));
                    assert(took(before[i], appenders@[i], entry));
                    assert(appenders@[i].accepted() == old(appenders)@[i].accepted() + batch@.take(
                        k + 1,
                    ));
                }
            }
            let now = appenders.journal();
            let round = now.last();
            assert(now == noted.push(round));
            assert(now.take(start) =~= noted.take(start));
            assert(is_write_of(round, entry, sinks));
            assert forall|j: int| 0 <= j < k + 1 implies is_write_of(
                now[start + j],
                #[trigger] batch@.take(k + 1)[j],
                sinks,
            ) by {
                if j < k {
                    assert(is_write_of(noted[start + j], batch@.take(k as int)[j], sinks));
                    assert(now[start + j] == noted[start + j]);
                }
            }
            assert(now.skip(start).drop_last() =~= noted.skip(start));
            assert(now.skip(start).last() == round);
        }
        k += 1;
    }
    assert(batch@.take(batch@.len() as int) == batch@);
    let ghost written = appenders@;
    let ghost noted = appenders.journal();
    let _ = flush_all(appenders);
    proof {
        assert(appenders.journal().drop_last() =~= noted);
        assert(is_flush_of(appenders.journal().last(), sinks));
        assert forall|i: int| 0 <= i < appenders@.len() implies #[trigger] wrote_and_flushed(
            old(appenders)@[i],
            appenders@[i],
            batch@,
        ) by {
            assert(flushed_once(written[i], appenders@[i]));
            assert(wrote(old(appenders)@[i], written[i], batch@));
        }
        if failed == 0 {
            assert forall|i: int| 0 <= i < appenders@.len() implies #[trigger] took_all(
                old(appenders)@[i],
                appenders@[i],
                batch@,
            ) by {
                assert(flushed_once(written[i], appenders@[i]));
                assert(took_all(old(appenders)@[i], written[i], batch@));
            }
        }
    }
    failed
}

/// The error to report after one more flush: the first one that came.
pub fn keep_first(first: Option<LoggerError>, result: Result<(), LoggerError>) -> (r: Option<
    LoggerError,
>)
    ensures
        r == (match first {
            Some(e) => Some(e),
            None => match result {
                Ok(_) => None,
                Err(e) => Some(e),
            },
        }),
{
    match first {
        Some(e) => Some(e),
        None => match result {
            Ok(_) => None,
            Err(e) => Some(e),
        },
    }
}

/// Flushes every sink, also after one of them failed, and returns the first
/// error that came.
pub fn flush_all(appenders: &mut Sinks) -> (r: Result<(), LoggerError>)
    ensures
        flushed_all(old(appenders)@, final(appenders)@, r),
        noted_flush(*old(appenders), *final(appenders)),
{
    let mut first: Option<LoggerError> = None;
    let ghost mut calls: Seq<FlushCall> = Seq::empty();
    let n = appenders.slots.len();
    let mut i: usize = 0;
    while i < n
        invariant
            i <= n,
            appenders@.len() == n,
            n == old(appenders)@.len(),
            appenders.journal() == old(appenders).journal(),
            calls.len() == i,
            forall|j: int|
                0 <= j < i ==> (#[trigger] calls[j]) == (FlushCall {
                    sink: j,
                    error: appenders@[j].flushes().last(),
                }),
            forall|j: int| i <= j < n ==> appenders@[j] == old(appenders)@[j],
            forall|j: int|
                0 <= j < i ==> #[trigger] flushed_once(old(appenders)@[j], appenders@[j]),
            first == first_error(appenders@, i as int),
        decreases n - i,
    {
        let ghost before = appenders@;
        let result = appenders.slots[i].flush();
        proof {
            calls = calls.push(FlushCall { sink: i as int, error: crate::appender::error_of(result) });
            assert(forall|j: int| 0 <= j < n && j != i ==> appenders@[j] == before[j]);
            assert(before[i as int] == old(appenders)@[i as int]);
            assert(flushed_once(old(appenders)@[i as int], appenders@[i as int])) by {
                let was = before[i as int].flushes();
                let now = appenders@[i as int].flushes();
                assert(now.drop_last() == was);
            }
            lemma_first_error_prefix(before, appenders@, i as int);
            assert(appenders@[i as int].flushes().last() == crate::appender::error_of(result));
        }
        first = keep_first(first, result);
        i += 1;
    }
    proof {
        assert(calls =~= flush_calls(appenders@));
    }
    appenders.passes = Ghost(appenders.passes@.push(Round::Flushed { calls }));
    match first {
        Some(e) => Err(e),
        None => Ok(()),
    }
}

/// A record that no sink failed on stands at the end of what every sink
/// took: with two sinks, both hold the same record, and each holds one record
/// more than before.
pub proof fn lemma_all_sinks_hold_record(
    before: Seq<SinkSlot>,
    after: Seq<SinkSlot>,
    entry: LogEntry,
    i: int,
)
    requires
        fan_out(before, after, entry, false),
        0 <= i < before.len(),
    ensures
        after[i].accepted().len() == before[i].accepted().len() + 1,
        after[i].accepted().last() == entry,
        after[i].accepted().drop_last() == before[i].accepted(),
{
    assert(took(before[i], after[i], entry));
}

/// A record is handed to every registered sink, whether or not a sink before
/// it failed.
pub proof fn lemma_every_sink_is_tried(
    before: Seq<SinkSlot>,
    after: Seq<SinkSlot>,
    entry: LogEntry,
    failed: bool,
    i: int,
)
    requires
        fan_out(before, after, entry, failed),
        0 <= i < before.len(),
    ensures
        after[i].offered().len() == before[i].offered().len() + 1,
        after[i].offered().last() == entry,
{
    assert(handed(before[i], after[i], entry));
}

/// A record is handed to the sinks in the order in which they were
/// registered: in the round that a write notes, the first call is made on the
/// first sink, the second on the second, and so on to the last; of two sinks
/// the one that was registered first is called first.
pub proof fn lemma_registration_order(before: Sinks, after: Sinks, entry: LogEntry)
    requires
        noted_write(before, after, entry),
    ensures
        is_write_of(after.journal().last(), entry, before@.len()),
        after.journal().len() == before.journal().len() + 1,
{
}

/// The sinks are flushed once per batch, and only after every record of the
/// batch was handed to every sink: the flush is the last round that a batch
/// adds to the journal, and each round before it hands out one record of the
/// batch, in the order of the batch.
pub proof fn lemma_flush_follows_batch(
    before: Seq<Round>,
    after: Seq<Round>,
    batch: Seq<LogEntry>,
    sinks: nat,
    failed: nat,
    k: int,
)
    requires
        batch_journal(before, after, batch, sinks, failed),
        0 <= k < batch.len(),
    ensures
        is_flush_of(after[(before.len() + batch.len()) as int], sinks),
        is_write_of(after[before.len() + k], batch[k], sinks),
        failed <= batch.len(),
{
    let start = before.len() as int;
    let writes = after.drop_last();
    assert(is_write_of(writes[start + k], batch[k], sinks));
    assert(after[start + k] == writes[start + k]);
    assert(after.last() == after[start + batch.len()]);
    lemma_failed_rounds_bounded(writes.skip(start));
}

/// No more rounds fail than there are.
pub proof fn lemma_failed_rounds_bounded(rounds: Seq<Round>)
    ensures
        failed_rounds(rounds) <= rounds.len(),
    decreases rounds.len(),
{
    if rounds.len() > 0 {
        lemma_failed_rounds_bounded(rounds.drop_last());
    }
}

/// A record that is written always moves a counter: a record that passes the
/// filter is never without effect.
pub proof fn lemma_written_is_visible(before: MetricsView, failed: bool)
    requires
        before.dropped <= u64::MAX,
        before.logged <= u64::MAX,
    ensures
        settled_one(before, failed) != before,
{
    if failed {
        assert(add_count(before.dropped, 1) != before.dropped);
    } else {
        assert(add_count(before.logged, 1) != before.logged);
    }
}

/// Every record that is written is counted once: as dropped or as logged,
/// whatever the sinks did. As long as the counters have not reached the
/// largest 64-bit number, the sum of `dropped` and `logged` grows by one for
/// each record.
pub proof fn lemma_written_counted_once(before: MetricsView, failed: bool)
    requires
        before.dropped < u64::MAX,
        before.logged < u64::MAX,
    ensures
        settled_one(before, failed).settled() == before.settled() + 1,
        failed ==> settled_one(before, failed).dropped == before.dropped + 1,
        !failed ==> settled_one(before, failed).logged == before.logged + 1,
{
}

/// Every record of a batch is counted once, as dropped or as logged.
pub proof fn lemma_batch_counted_once(before: MetricsView, total: nat, failed: nat)
    requires
        failed <= total,
        before.dropped + failed <= u64::MAX,
        before.logged + (total - failed) <= u64::MAX,
    ensures
        settled_batch(before, total, failed).settled() == before.settled() + total,
{
}

} // verus!
