//! Sampling: forwarding only a share of the records when there are many.
//!
//! Rates are whole numbers of millionths: `RATE_SCALE` stands for 1.0, half of
//! it for 0.5. A severity on the always-sample list passes whatever the rate.
//! For every other record the rate is looked up (a rate set for the record's
//! category, else the base rate, scaled down under load where adaptive
//! sampling is on), and a random number below `RATE_SCALE` decides: the record
//! passes if the number is below the rate.

use vstd::prelude::*;
use std::time::{Duration, Instant};
use crate::log_level::LogLevel;
use crate::metrics::{millionths, next_count, RATE_SCALE};
use crate::text::same_text;

verus! {

/// Nanoseconds in a second.
pub const NANOS_PER_SECOND: u64 = 1_000_000_000;

/// How the sampler is set up.
#[derive(Debug)]
pub struct SamplingConfig {
    /// The share of records that pass, in millionths. `RATE_SCALE` and more
    /// lets every record pass, 0 none.
    pub rate: u32,
    /// Severities whose records always pass.
    pub always_sample: Vec<LogLevel>,
    /// Rates by category, in millionths. Where a category stands more than
    /// once, the last one counts.
    pub category_rates: Vec<(String, u32)>,
    /// Whether the rate goes down when more records come per second than
    /// `adaptive_threshold`.
    pub adaptive: bool,
    /// Records per second from which on the adaptive rate goes down.
    pub adaptive_threshold: usize,
    /// The rate below which adaptive sampling does not go, in millionths.
    pub adaptive_min_rate: u32,
}

/// A rate brought into the range from 0 to `RATE_SCALE`.
pub open spec fn clamped_rate(rate: int) -> nat {
    if rate < 0 {
        0
    } else if rate > RATE_SCALE {
        RATE_SCALE as nat
    } else {
        rate as nat
    }
}

/// The rate that is set for a category, if one is: the last entry under that
/// name.
pub open spec fn rate_for(rates: Seq<(String, u32)>, category: Seq<char>) -> Option<u32>
    decreases rates.len(),
{
    if rates.len() == 0 {
        None
    } else if rates.last().0@ == category {
        Some(rates.last().1)
    } else {
        rate_for(rates.drop_last(), category)
    }
}

/// Records per second, rounded down, when `count` records came in
/// `elapsed_nanos` nanoseconds; 0 when no time has passed. The result does not
/// go beyond the largest 64-bit number.
pub open spec fn per_second(count: nat, elapsed_nanos: nat) -> nat {
    if elapsed_nanos == 0 {
        0
    } else if count * (NANOS_PER_SECOND as nat) / elapsed_nanos > u64::MAX {
        u64::MAX as nat
    } else {
        count * (NANOS_PER_SECOND as nat) / elapsed_nanos
    }
}

/// The rate under load: the base rate times `threshold / throughput`, rounded
/// down, but not below `min_rate`. It applies when the throughput is above the
/// threshold.
pub open spec fn scaled_rate(rate: nat, threshold: nat, throughput: nat, min_rate: nat) -> nat
    recommends
        throughput > threshold,
{
    let scaled = rate * threshold / throughput;
    if scaled < min_rate {
        min_rate
    } else {
        scaled
    }
}

/// Whether a record passes at the given rate when the random number is
/// `draw`: always at `RATE_SCALE` and above, never at 0, and otherwise when
/// the number is below the rate.
pub open spec fn passes(rate: nat, draw: nat) -> bool {
    if rate >= RATE_SCALE {
        true
    } else if rate == 0 {
        false
    } else {
        draw < rate
    }
}

impl SamplingConfig {
    /// The configuration before anything is set: every record passes.
    pub open spec fn is_initial(self) -> bool {
        &&& self.rate == RATE_SCALE
        &&& self.always_sample@ == seq![LogLevel::Error, LogLevel::Fatal]
        &&& self.category_rates@.len() == 0
        &&& !self.adaptive
        &&& self.adaptive_threshold == 10000
        &&& self.adaptive_min_rate == 10000
    }

    /// The rate that does not depend on the load: the rate of the category
    /// where one is set, else the base rate.
    pub open spec fn fixed_rate(self, category: Option<Seq<char>>) -> nat {
        match category {
            Some(c) => match rate_for(self.category_rates@, c) {
                Some(r) => r as nat,
                None => self.rate as nat,
            },
            None => self.rate as nat,
        }
    }

    /// Whether the rate of a record of this category depends on the load.
    pub open spec fn load_matters(self, category: Option<Seq<char>>) -> bool {
        self.adaptive && (category is None || rate_for(self.category_rates@, category->0) is None)
    }

    /// The rate for a record of the given category when `throughput` records
    /// come per second.
    pub open spec fn rate_under(self, category: Option<Seq<char>>, throughput: nat) -> nat {
        if self.load_matters(category) && throughput > self.adaptive_threshold {
            scaled_rate(
                self.rate as nat,
                self.adaptive_threshold as nat,
                throughput,
                self.adaptive_min_rate as nat,
            )
        } else {
            self.fixed_rate(category)
        }
    }

    /// A configuration with the given base rate in millionths, brought into
    /// the range from 0 to `RATE_SCALE`.
    pub fn new(rate: i64) -> (r: SamplingConfig)
        ensures
            r.rate == clamped_rate(rate as int),
            r == (SamplingConfig { rate: r.rate, ..r }),
            (SamplingConfig { rate: RATE_SCALE, ..r }).is_initial(),
    {
        let mut config = SamplingConfig::no_sampling();
        config.rate = clamp_rate(rate);
        config
    }

    /// A configuration under which every record passes.
    pub fn no_sampling() -> (r: SamplingConfig)
        ensures
            r.is_initial(),
    {
        let mut always: Vec<LogLevel> = Vec::new();
        always.push(LogLevel::Error);
        always.push(LogLevel::Fatal);
        assert(always@ == seq![LogLevel::Error, LogLevel::Fatal]);
        SamplingConfig {
            rate: RATE_SCALE,
            always_sample: always,
            category_rates: Vec::new(),
            adaptive: false,
            adaptive_threshold: 10000,
            adaptive_min_rate: 10000,
        }
    }

    /// Sets the severities whose records always pass.
    pub fn with_always_sample(self, levels: Vec<LogLevel>) -> (r: SamplingConfig)
        ensures
            r == (SamplingConfig { always_sample: levels, ..self }),
    {
        let mut config = self;
        config.always_sample = levels;
        config
    }

    /// Sets the rate of a category, in millionths, brought into the range
    /// from 0 to `RATE_SCALE`.
    pub fn with_category_rate(self, category: &str, rate: i64) -> (r: SamplingConfig)
        ensures
            rate_for(r.category_rates@, category@) == Some(clamped_rate(rate as int) as u32),
            forall|other: Seq<char>|
                other != category@ ==> rate_for(r.category_rates@, other) == rate_for(
                    self.category_rates@,
                    other,
                ),
            r.rate == self.rate,
            r.always_sample == self.always_sample,
            r.adaptive == self.adaptive,
            r.adaptive_threshold == self.adaptive_threshold,
            r.adaptive_min_rate == self.adaptive_min_rate,
    {
        let mut config = self;
        let ghost before = config.category_rates@;
        config.category_rates.push((category.to_owned(), clamp_rate(rate)));
        proof {
            assert(config.category_rates@.drop_last() == before);
            assert(config.category_rates@.last().0@ == category@);
        }
        config
    }

    /// Turns adaptive sampling on: above `threshold` records per second the
    /// rate goes down, but not below `min_rate` (in millionths, brought into
    /// the range from 0 to `RATE_SCALE`).
    pub fn with_adaptive(self, threshold: usize, min_rate: i64) -> (r: SamplingConfig)
        ensures
            r.adaptive,
            r.adaptive_threshold == threshold,
            r.adaptive_min_rate == clamped_rate(min_rate as int),
            r == (SamplingConfig {
                adaptive: true,
                adaptive_threshold: threshold,
                adaptive_min_rate: r.adaptive_min_rate,
                ..self
            }),
    {
        let mut config = self;
        config.adaptive = true;
        config.adaptive_threshold = threshold;
        config.adaptive_min_rate = clamp_rate(min_rate);
        config
    }

    /// The rate set for a category, if one is.
    pub fn category_rate(&self, category: &str) -> (r: Option<u32>)
        ensures
            r == rate_for(self.category_rates@, category@),
    {
        let mut i: usize = self.category_rates.len();
        assert(self.category_rates@.take(i as int) == self.category_rates@);
        while i > 0
            invariant
                i <= self.category_rates.len(),
                rate_for(self.category_rates@, category@) == rate_for(
                    self.category_rates@.take(i as int),
                    category@,
                ),
            decreases i,
        {
            let ghost upto = self.category_rates@.take(i as int);
            assert(upto.last() == self.category_rates@[i - 1]);
            assert(upto.drop_last() == self.category_rates@.take(i - 1));
            if same_text(self.category_rates[i - 1].0.as_str(), category) {
                return Some(self.category_rates[i - 1].1);
            }
            i -= 1;
        }
        assert(self.category_rates@.take(0).len() == 0);
        None
    }

    /// Whether records of this severity always pass.
    pub fn always_samples(&self, level: LogLevel) -> (r: bool)
        ensures
            r == self.always_sample@.contains(level),
    {
        let mut i: usize = 0;
        while i < self.always_sample.len()
            invariant
                i <= self.always_sample.len(),
                forall|j: int| 0 <= j < i ==> self.always_sample@[j] != level,
            decreases self.always_sample.len() - i,
        {
            if self.always_sample[i] == level {
                return true;
            }
            i += 1;
        }
        false
    }
}

impl Default for SamplingConfig {
    fn default() -> (r: SamplingConfig)
        ensures
            r.is_initial(),
    {
        SamplingConfig::no_sampling()
    }
}

impl Clone for SamplingConfig {
    fn clone(&self) -> (r: SamplingConfig)
        ensures
            r.rate == self.rate,
            r.always_sample@ == self.always_sample@,
            r.category_rates@ == self.category_rates@,
            r.adaptive == self.adaptive,
            r.adaptive_threshold == self.adaptive_threshold,
            r.adaptive_min_rate == self.adaptive_min_rate,
    {
        let mut always: Vec<LogLevel> = Vec::new();
        let mut i: usize = 0;
        while i < self.always_sample.len()
            invariant
                i <= self.always_sample.len(),
                always@ == self.always_sample@.take(i as int),
            decreases self.always_sample.len() - i,
        {
            always.push(self.always_sample[i]);
            assert(self.always_sample@.take(i + 1) == self.always_sample@.take(i as int).push(
                self.always_sample@[i as int],
            ));
            i += 1;
        }
        assert(self.always_sample@.take(self.always_sample.len() as int) == self.always_sample@);
        let mut rates: Vec<(String, u32)> = Vec::new();
        let mut k: usize = 0;
        while k < self.category_rates.len()
            invariant
                k <= self.category_rates.len(),
                rates@ == self.category_rates@.take(k as int),
            decreases self.category_rates.len() - k,
        {
            rates.push((self.category_rates[k].0.clone(), self.category_rates[k].1));
            assert(self.category_rates@.take(k + 1) == self.category_rates@.take(k as int).push(
                self.category_rates@[k as int],
            ));
            k += 1;
        }
        assert(self.category_rates@.take(self.category_rates.len() as int)
            == self.category_rates@);
        SamplingConfig {
            rate: self.rate,
            always_sample: always,
            category_rates: rates,
            adaptive: self.adaptive,
            adaptive_threshold: self.adaptive_threshold,
            adaptive_min_rate: self.adaptive_min_rate,
        }
    }
}

/// Brings a rate into the range from 0 to `RATE_SCALE`.
pub fn clamp_rate(rate: i64) -> (r: u32)
    ensures
        r == clamped_rate(rate as int),
        r <= RATE_SCALE,
{
    if rate < 0 {
        0
    } else if rate > 1_000_000 {
        RATE_SCALE
    } else {
        rate as u32
    }
}

/// The values of the sampler's counters.
pub struct SamplerCounts {
    /// Records that passed.
    pub sampled: nat,
    /// Records that did not pass.
    pub dropped: nat,
    /// Records that were put to the sampler.
    pub total: nat,
}

impl SamplerCounts {
    pub open spec fn zero() -> SamplerCounts {
        SamplerCounts { sampled: 0, dropped: 0, total: 0 }
    }

    /// The counts after one more record that passed.
    pub open spec fn with_sampled(self) -> SamplerCounts {
        SamplerCounts {
            sampled: next_count(self.sampled),
            dropped: self.dropped,
            total: next_count(self.total),
        }
    }

    /// The counts after one more record that did not pass.
    pub open spec fn with_dropped(self) -> SamplerCounts {
        SamplerCounts {
            sampled: self.sampled,
            dropped: next_count(self.dropped),
            total: next_count(self.total),
        }
    }

    /// The counts after one more record, passed or not.
    pub open spec fn after(self, passed: bool) -> SamplerCounts {
        if passed {
            self.with_sampled()
        } else {
            self.with_dropped()
        }
    }

    /// The share of records that passed, in millionths; `RATE_SCALE` before
    /// any record came. The share is held to the largest 64-bit number, which
    /// it can only reach after a counter has started again from zero.
    pub open spec fn effective_rate(self) -> nat {
        if self.total == 0 {
            RATE_SCALE as nat
        } else if millionths(self.sampled, self.total) > u64::MAX {
            u64::MAX as nat
        } else {
            millionths(self.sampled, self.total)
        }
    }
}

/// Counters of what the sampler did.
#[derive(Debug, Clone, Copy, PartialEq, Eq, Structural)]
pub struct SamplerMetrics {
    sampled_count: u64,
    dropped_count: u64,
    total_count: u64,
}

impl View for SamplerMetrics {
    type V = SamplerCounts;

    closed spec fn view(&self) -> SamplerCounts {
        SamplerCounts {
            sampled: self.sampled_count as nat,
            dropped: self.dropped_count as nat,
            total: self.total_count as nat,
        }
    }
}

impl SamplerMetrics {
    /// New counters, all at zero.
    pub fn new() -> (r: SamplerMetrics)
        ensures
            r@ == SamplerCounts::zero(),
    {
        SamplerMetrics { sampled_count: 0, dropped_count: 0, total_count: 0 }
    }

    pub fn sampled_count(&self) -> (r: u64)
        ensures
            r == self@.sampled,
    {
        self.sampled_count
    }

    pub fn dropped_count(&self) -> (r: u64)
        ensures
            r == self@.dropped,
    {
        self.dropped_count
    }

    pub fn total_count(&self) -> (r: u64)
        ensures
            r == self@.total,
    {
        self.total_count
    }

    /// Counts a record that passed.
    pub fn record_sampled(&mut self)
        ensures
            final(self)@ == old(self)@.with_sampled(),
    {
        self.sampled_count = self.sampled_count.wrapping_add(1);
        self.total_count = self.total_count.wrapping_add(1);
    }

    /// Counts a record that did not pass.
    pub fn record_dropped(&mut self)
        ensures
            final(self)@ == old(self)@.with_dropped(),
    {
        self.dropped_count = self.dropped_count.wrapping_add(1);
        self.total_count = self.total_count.wrapping_add(1);
    }

    /// The share of records that passed, in millionths, rounded down;
    /// `RATE_SCALE` before any record came.
    pub fn effective_sample_rate(&self) -> (r: u64)
        ensures
            r == self@.effective_rate(),
    {
        if self.total_count == 0 {
            RATE_SCALE as u64
        } else {
            let sampled: u128 = self.sampled_count as u128;
            let total: u128 = self.total_count as u128;
            let share: u128 = sampled * 1_000_000 / total;
            proof {
                let s = sampled as int;
                let t = total as int;
                assert((s * 1_000_000) / t <= s * 1_000_000) by (nonlinear_arith)
                    requires
                        s >= 0,
                        t >= 1,
                ;
            }
            if share > u64::MAX as u128 {
                u64::MAX
            } else {
                share as u64
            }
        }
    }

    /// Sets every counter back to zero.
    pub fn reset(&mut self)
        ensures
            final(self)@ == SamplerCounts::zero(),
    {
        self.sampled_count = 0;
        self.dropped_count = 0;
        self.total_count = 0;
    }
}

impl Default for SamplerMetrics {
    fn default() -> (r: SamplerMetrics)
        ensures
            r@ == SamplerCounts::zero(),
    {
        SamplerMetrics::new()
    }
}

#[verifier::external_type_specification]
#[verifier::external_body]
pub struct ExInstant(Instant);

/// `Instant::now`: the reading of the monotonic clock.
#[verifier::external_body]
fn instant_now() -> Instant {
    Instant::now()
}

/// `Instant::elapsed`: the time since the reading was taken.
#[verifier::external_body]
fn elapsed_since(start: &Instant) -> Duration {
    start.elapsed()
}

/// `Duration::as_nanos`: the whole duration in nanoseconds.
#[verifier::external_body]
fn duration_nanos(d: &Duration) -> u128 {
    d.as_nanos()
}

/// `Rng::gen_range` on `rand::thread_rng()`: a random number that is at least
/// 0 and below `bound`. An empty range makes `gen_range` panic, so `bound` is
/// not 0.
#[verifier::external_body]
fn random_below(bound: u32) -> (r: u32)
    requires
        bound > 0,
    ensures
        r < bound,
{
    rand::Rng::gen_range(&mut rand::thread_rng(), 0..bound)
}

/// Records per second, rounded down, when `count` records came in
/// `elapsed_nanos` nanoseconds.
pub fn messages_per_second(count: usize, elapsed_nanos: u128) -> (r: u64)
    ensures
        r == per_second(count as nat, elapsed_nanos as nat),
{
    if elapsed_nanos == 0 {
        0
    } else {
        assert((count as u128) * (NANOS_PER_SECOND as u128) <= 0xFFFF_FFFF_FFFF_FFFF
            * 1_000_000_000) by (nonlinear_arith)
            requires
                count <= 0xFFFF_FFFF_FFFF_FFFF,
                NANOS_PER_SECOND == 1_000_000_000,
        ;
        let scaled: u128 = (count as u128) * (NANOS_PER_SECOND as u128);
        let rate: u128 = scaled / elapsed_nanos;
        if rate > u64::MAX as u128 {
            u64::MAX
        } else {
            rate as u64
        }
    }
}

/// The rate under load: `rate * threshold / throughput`, rounded down, but not
/// below `min_rate`.
pub fn scale_rate(rate: u32, threshold: usize, throughput: u64, min_rate: u32) -> (r: u32)
    requires
        throughput > threshold,
    ensures
        r == scaled_rate(rate as nat, threshold as nat, throughput as nat, min_rate as nat),
{
    assert((rate as u128) * (threshold as u128) <= 0xFFFF_FFFF * 0xFFFF_FFFF_FFFF_FFFF)
        by (nonlinear_arith)
        requires
            rate <= 0xFFFF_FFFF,
            threshold <= 0xFFFF_FFFF_FFFF_FFFF,
    ;
    let product: u128 = (rate as u128) * (threshold as u128);
    let scaled: u128 = product / (throughput as u128);
    proof {
        let p = rate as int;
        let t = threshold as int;
        let u = throughput as int;
        assert(p * t <= p * u) by (nonlinear_arith)
            requires
                0 <= p,
                0 <= t < u,
        ;
        assert((p * t) / u <= p) by (nonlinear_arith)
            requires
                0 <= p * t <= p * u,
                u > 0,
        ;
    }
    if scaled < min_rate as u128 {
        min_rate
    } else {
        scaled as u32
    }
}

/// Decides whether a record passes at the given rate when the random number
/// is `draw`.
pub fn accept_at(rate: u32, draw: u32) -> (r: bool)
    ensures
        r == passes(rate as nat, draw as nat),
{
    if rate >= RATE_SCALE {
        true
    } else if rate == 0 {
        false
    } else {
        draw < rate
    }
}

/// Measures how many records come per second, counted since the tracker was
/// made.
#[derive(Debug)]
pub struct RateTracker {
    window_start: Instant,
    window_count: usize,
    last_rate: u64,
}

impl RateTracker {
    /// The records counted so far.
    pub closed spec fn count(self) -> nat {
        self.window_count as nat
    }

    /// The rate that was measured last.
    pub closed spec fn last(self) -> nat {
        self.last_rate as nat
    }

    /// A tracker that starts to measure now.
    pub fn new() -> (r: RateTracker)
        ensures
            r.count() == 0,
            r.last() == 0,
    {
        RateTracker { window_start: instant_now(), window_count: 0, last_rate: 0 }
    }

    /// Counts one record and measures the rate: the records counted so far
    /// over the time since the tracker was made, as `per_second` gives it for
    /// the time that the clock shows. When no time has passed, the rate is 0
    /// and the rate measured last stays.
    pub fn record_and_get_rate(&mut self) -> (r: u64)
        ensures
            final(self).count() == (if old(self).count() >= usize::MAX {
                0
            } else {
                old(self).count() + 1
            }),
            exists|elapsed_nanos: nat| r == #[trigger] per_second(final(self).count(), elapsed_nanos),
            r == 0 || r == final(self).last(),
            r == 0 ==> final(self).last() == old(self).last() || final(self).last() == 0,
    {
        self.window_count = self.window_count.wrapping_add(1);
        let elapsed = elapsed_since(&self.window_start);
        let nanos = duration_nanos(&elapsed);
        if nanos > 0 {
            let rate = messages_per_second(self.window_count, nanos);
            self.last_rate = rate;
            assert(rate == per_second(self.window_count as nat, nanos as nat));
            rate
        } else {
            assert(0 == per_second(self.window_count as nat, 0));
            0
        }
    }

    /// The rate that was measured last.
    pub fn current_rate(&self) -> (r: u64)
        ensures
            r == self.last(),
    {
        self.last_rate
    }
}

/// Whether a record of the given severity and category can be held back
/// under a configuration: its severity is not on the always-sample list, and
/// its rate is below `RATE_SCALE` or depends on the load.
pub open spec fn can_hold_back(
    config: SamplingConfig,
    level: LogLevel,
    category: Option<Seq<char>>,
) -> bool {
    &&& !config.always_sample@.contains(level)
    &&& config.load_matters(category) || config.fixed_rate(category) < RATE_SCALE
}

/// Whether a record of the given severity and category is held back for
/// certain: its severity is not on the always-sample list, and its rate is 0
/// whatever the load.
pub open spec fn must_hold_back(
    config: SamplingConfig,
    level: LogLevel,
    category: Option<Seq<char>>,
) -> bool {
    &&& !config.always_sample@.contains(level)
    &&& !config.load_matters(category)
    &&& config.fixed_rate(category) == 0
}

/// A record whose severity is on the always-sample list is never held back,
/// whatever the rate and the load; with the list that a new configuration
/// has, no record of severity `Error` or `Fatal` is.
pub proof fn lemma_always_sampled_passes(
    config: SamplingConfig,
    level: LogLevel,
    category: Option<Seq<char>>,
)
    ensures
        config.always_sample@.contains(level) ==> !can_hold_back(config, level, category),
        config.always_sample@ == seq![LogLevel::Error, LogLevel::Fatal] && (level
            == LogLevel::Error || level == LogLevel::Fatal) ==> !can_hold_back(
            config,
            level,
            category,
        ),
{
    let list = seq![LogLevel::Error, LogLevel::Fatal];
    assert(list[0] == LogLevel::Error);
    assert(list[1] == LogLevel::Fatal);
}

/// What a sampler changes as it works: its counters and its measure of the
/// load.
#[derive(Debug)]
pub struct SamplerState {
    metrics: SamplerMetrics,
    rate_tracker: RateTracker,
}

impl SamplerState {
    /// The counters.
    pub closed spec fn counts(self) -> SamplerCounts {
        self.metrics@
    }

    /// The rate that the load tracker measured last.
    pub closed spec fn measured(self) -> nat {
        self.rate_tracker.last()
    }

    /// A state with all counters at zero, which measures the load from now.
    pub fn new() -> (r: SamplerState)
        ensures
            r.counts() == SamplerCounts::zero(),
    {
        SamplerState { metrics: SamplerMetrics::new(), rate_tracker: RateTracker::new() }
    }

    /// The rate for a record of the given category right now. Where the load
    /// matters the record is counted by the load tracker, and the rate is the
    /// one under some measured throughput.
    fn get_effective_rate(&mut self, config: &SamplingConfig, category: Option<&str>) -> (r: u32)
        ensures
            final(self).counts() == old(self).counts(),
            !config.load_matters(opt_view(category)) ==> r == config.fixed_rate(
                opt_view(category),
            ),
            exists|throughput: nat| r == #[trigger] config.rate_under(opt_view(category), throughput),
    {
        match category {
            Some(cat) => {
                match config.category_rate(cat) {
                    Some(rate) => {
                        assert(rate == config.rate_under(opt_view(category), 0));
                        return rate;
                    },
                    None => {},
                }
            },
            None => {},
        }
        if config.adaptive {
            let throughput = self.rate_tracker.record_and_get_rate();
            if throughput as u128 > config.adaptive_threshold as u128 {
                let rate = scale_rate(
                    config.rate,
                    config.adaptive_threshold,
                    throughput,
                    config.adaptive_min_rate,
                );
                assert(rate == config.rate_under(opt_view(category), throughput as nat));
                return rate;
            }
        }
        assert(config.rate == config.rate_under(opt_view(category), 0));
        config.rate
    }

    /// Decides under the given configuration whether a record of the given
    /// severity and category is forwarded, and counts the decision.
    ///
    /// A severity on the always-sample list passes. Otherwise the rate
    /// decides: at `RATE_SCALE` and above the record passes, at 0 it does not,
    /// and in between a random number decides, so that the result is the one
    /// that `passes` gives for some rate that the load allows and some number
    /// below `RATE_SCALE`.
    pub fn sample(&mut self, config: &SamplingConfig, level: LogLevel, category: Option<&str>) -> (r:
        bool)
        ensures
            final(self).counts() == old(self).counts().after(r),
            config.always_sample@.contains(level) ==> r,
            !config.always_sample@.contains(level) ==> exists|throughput: nat, draw: nat|
                draw < RATE_SCALE && r == #[trigger] passes(
                    config.rate_under(opt_view(category), throughput),
                    draw,
                ),
            !r ==> can_hold_back(*config, level, opt_view(category)),
            must_hold_back(*config, level, opt_view(category)) ==> !r,
    {
        if config.always_samples(level) {
            self.metrics.record_sampled();
            return true;
        }
        let rate = self.get_effective_rate(config, category);
        let ghost throughput = choose|t: nat|
            rate == #[trigger] config.rate_under(opt_view(category), t);
        if rate >= RATE_SCALE {
            self.metrics.record_sampled();
            assert(passes(config.rate_under(opt_view(category), throughput), 0));
            return true;
        }
        if rate == 0 {
            self.metrics.record_dropped();
            assert(!passes(config.rate_under(opt_view(category), throughput), 0));
            return false;
        }
        let draw = random_below(RATE_SCALE);
        let sample = accept_at(rate, draw);
        assert(sample == passes(
            config.rate_under(opt_view(category), throughput),
            draw as nat,
        ));
        if sample {
            self.metrics.record_sampled();
        } else {
            self.metrics.record_dropped();
        }
        sample
    }

    /// The counters.
    pub fn metrics(&self) -> (r: &SamplerMetrics)
        ensures
            r@ == self.counts(),
    {
        &self.metrics
    }

    /// The records per second that were measured last. It is only measured
    /// where adaptive sampling is on.
    pub fn current_message_rate(&self) -> (r: u64)
        ensures
            r == self.measured(),
    {
        self.rate_tracker.current_rate()
    }
}

/// Decides record by record whether it is forwarded.
#[derive(Debug)]
pub struct LogSampler {
    config: SamplingConfig,
    state: SamplerState,
}

impl LogSampler {
    /// The configuration of the sampler.
    pub closed spec fn settings(self) -> SamplingConfig {
        self.config
    }

    /// The counters of the sampler.
    pub closed spec fn counts(self) -> SamplerCounts {
        self.state.counts()
    }

    /// The rate that the load tracker measured last.
    pub closed spec fn measured(self) -> nat {
        self.state.measured()
    }

    /// A sampler with the given configuration and all counters at zero.
    pub fn new(config: SamplingConfig) -> (r: LogSampler)
        ensures
            r.settings() == config,
            r.counts() == SamplerCounts::zero(),
    {
        LogSampler { config, state: SamplerState::new() }
    }

    /// Decides whether a record of the given severity and category is
    /// forwarded, and counts the decision.
    ///
    /// A severity on the always-sample list passes. Otherwise the rate
    /// decides: at `RATE_SCALE` and above the record passes, at 0 it does not,
    /// and in between a random number decides, so that the result is the one
    /// that `passes` gives for some rate that the load allows and some number
    /// below `RATE_SCALE`.
    pub fn should_sample(&mut self, level: LogLevel, category: Option<&str>) -> (r: bool)
        ensures
            final(self).settings() == old(self).settings(),
            final(self).counts() == old(self).counts().after(r),
            old(self).settings().always_sample@.contains(level) ==> r,
            !old(self).settings().always_sample@.contains(level) ==> exists|
                throughput: nat,
                draw: nat,
            |
                draw < RATE_SCALE && r == #[trigger] passes(
                    old(self).settings().rate_under(opt_view(category), throughput),
                    draw,
                ),
            !r ==> can_hold_back(old(self).settings(), level, opt_view(category)),
            must_hold_back(old(self).settings(), level, opt_view(category)) ==> !r,
    {
        self.state.sample(&self.config, level, category)
    }

    /// The counters of the sampler.
    pub fn metrics(&self) -> (r: &SamplerMetrics)
        ensures
            r@ == self.counts(),
    {
        self.state.metrics()
    }

    /// The share of records that passed so far, in millionths.
    pub fn effective_sample_rate(&self) -> (r: u64)
        ensures
            r == self.counts().effective_rate(),
    {
        self.state.metrics().effective_sample_rate()
    }

    /// The records per second that were measured last. It is only measured
    /// where adaptive sampling is on.
    pub fn current_message_rate(&self) -> (r: u64)
        ensures
            r == self.measured(),
    {
        self.state.current_message_rate()
    }

    /// The configuration of the sampler.
    pub fn config(&self) -> (r: &SamplingConfig)
        ensures
            *r == self.settings(),
    {
        &self.config
    }
}

/// The characters of a text that may be absent.
pub open spec fn opt_view(text: Option<&str>) -> Option<Seq<char>> {
    match text {
        Some(t) => Some(t@),
        None => None,
    }
}

} // verus!
