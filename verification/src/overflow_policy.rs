//! What happens to a record that a full queue refuses.
//!
//! A record's priority follows from its severity. A critical record is written
//! to the sinks on the caller's thread instead of being dropped; any other
//! record is handled as the configured policy says.

use vstd::prelude::*;
use std::time::Duration;
use crate::log_level::LogLevel;
use crate::text::{bool_chars, bool_text, decimal_digits, push_decimal};

verus! {

/// The number of drops between two alerts.
pub const ALERT_INTERVAL: u64 = 1000;

/// How a full queue treats a new record.
#[derive(Debug, Clone, PartialEq, Eq)]
pub enum OverflowPolicy {
    /// The new record is discarded and counted.
    DropNewest,
    /// Asks for the oldest queued record to give way. The queue cannot evict,
    /// so the new record is discarded as under `AlertAndDrop`, and the caller
    /// is told that eviction was asked for.
    DropOldest,
    /// The caller waits until the queue has room.
    Block,
    /// The caller waits for at most the given time, then the record is
    /// discarded as under `AlertAndDrop`.
    BlockWithTimeout(Duration),
    /// The new record is discarded, and an alert is raised on the first drop
    /// and on every thousandth.
    AlertAndDrop,
}

impl Default for OverflowPolicy {
    fn default() -> (r: OverflowPolicy)
        ensures
            r == OverflowPolicy::AlertAndDrop,
    {
        OverflowPolicy::AlertAndDrop
    }
}

/// `Duration::clone`: a duration is a plain value, and its clone is the same
/// value.
pub assume_specification[ <Duration as Clone>::clone ](d: &Duration) -> (r: Duration)
    ensures
        r == *d,
;

/// The text that the debug format gives a duration, such as `100ms`.
pub uninterp spec fn duration_debug_text(d: Duration) -> Seq<char>;

/// `Duration`'s `Debug` format. The standard library picks the unit and the
/// digits; the contract only gives the text a name.
#[verifier::external_body]
fn debug_duration(d: &Duration) -> (r: String)
    ensures
        r@ == duration_debug_text(*d),
{
    format!("{:?}", d)
}

impl OverflowPolicy {
    /// The name of the policy, with its timeout where it has one.
    pub open spec fn text(self) -> Seq<char> {
        match self {
            OverflowPolicy::DropNewest => "DropNewest"@,
            OverflowPolicy::DropOldest => "DropOldest"@,
            OverflowPolicy::Block => "Block"@,
            OverflowPolicy::BlockWithTimeout(d) => "BlockWithTimeout("@ + duration_debug_text(d)
                + ")"@,
            OverflowPolicy::AlertAndDrop => "AlertAndDrop"@,
        }
    }

    pub fn to_string(&self) -> (r: String)
        ensures
            r@ == self.text(),
    {
        match self {
            OverflowPolicy::DropNewest => "DropNewest".to_owned(),
            OverflowPolicy::DropOldest => "DropOldest".to_owned(),
            OverflowPolicy::Block => "Block".to_owned(),
            OverflowPolicy::BlockWithTimeout(d) => {
                let mut out = "BlockWithTimeout(".to_owned();
                let inner = debug_duration(d);
                out.append(inner.as_str());
                out.append(")");
                out
            },
            OverflowPolicy::AlertAndDrop => "AlertAndDrop".to_owned(),
        }
    }
}

/// The class by which an overflowing queue treats a record.
#[derive(Debug, Clone, Copy, PartialEq, Eq, Structural, PartialOrd, Ord, Hash)]
pub enum LogPriority {
    /// `Trace`, `Debug` and `Info`.
    Normal,
    /// `Warn`.
    High,
    /// `Error` and `Fatal`.
    Critical,
}

impl Default for LogPriority {
    fn default() -> (r: LogPriority)
        ensures
            r == LogPriority::Normal,
    {
        LogPriority::Normal
    }
}

impl LogPriority {
    /// The priority of a severity.
    pub open spec fn of(level: LogLevel) -> LogPriority {
        match level {
            LogLevel::Trace | LogLevel::Debug | LogLevel::Info => LogPriority::Normal,
            LogLevel::Warn => LogPriority::High,
            LogLevel::Error | LogLevel::Fatal => LogPriority::Critical,
        }
    }

    /// The position of the priority in the order `Normal < High < Critical`.
    pub open spec fn rank(self) -> nat {
        match self {
            LogPriority::Normal => 0,
            LogPriority::High => 1,
            LogPriority::Critical => 2,
        }
    }

    pub open spec fn text(self) -> Seq<char> {
        match self {
            LogPriority::Normal => "Normal"@,
            LogPriority::High => "High"@,
            LogPriority::Critical => "Critical"@,
        }
    }

    /// The priority of a severity.
    pub fn from_level(level: LogLevel) -> (r: LogPriority)
        ensures
            r == LogPriority::of(level),
    {
        match level {
            LogLevel::Trace | LogLevel::Debug | LogLevel::Info => LogPriority::Normal,
            LogLevel::Warn => LogPriority::High,
            LogLevel::Error | LogLevel::Fatal => LogPriority::Critical,
        }
    }

    pub fn to_string(&self) -> (r: String)
        ensures
            r@ == self.text(),
    {
        match self {
            LogPriority::Normal => "Normal".to_owned(),
            LogPriority::High => "High".to_owned(),
            LogPriority::Critical => "Critical".to_owned(),
        }
    }
}

/// How the priorities are honoured when the queue is full.
#[derive(Debug, Clone, Copy, PartialEq, Eq, Structural)]
pub struct PriorityConfig {
    /// A critical record is written to the sinks on the caller's thread
    /// instead of being handled by the policy.
    pub preserve_critical: bool,
    /// A high-priority record is offered to the queue again before the policy
    /// applies.
    pub preserve_high: bool,
    /// The caller of a critical record waits for the sinks when another thread
    /// holds them. Without it a critical record that finds the sinks taken is
    /// handled by the policy.
    pub block_on_critical: bool,
    /// How often a high-priority record is offered again.
    pub high_priority_retry_count: u32,
}

impl Default for PriorityConfig {
    fn default() -> (r: PriorityConfig)
        ensures
            r == PriorityConfig::standard(),
    {
        PriorityConfig {
            preserve_critical: true,
            preserve_high: true,
            block_on_critical: true,
            high_priority_retry_count: 3,
        }
    }
}

impl PriorityConfig {
    /// The configuration that `default` gives: critical and high-priority
    /// records are preserved, the caller of a critical record waits for the
    /// sinks, and a high-priority record is offered three more times.
    pub open spec fn standard() -> PriorityConfig {
        PriorityConfig {
            preserve_critical: true,
            preserve_high: true,
            block_on_critical: true,
            high_priority_retry_count: 3,
        }
    }

    pub open spec fn text(self) -> Seq<char> {
        "PriorityConfig { preserve_critical: "@ + bool_chars(self.preserve_critical)
            + ", preserve_high: "@ + bool_chars(self.preserve_high) + ", block_on_critical: "@
            + bool_chars(self.block_on_critical) + ", high_priority_retry_count: "@
            + decimal_digits(self.high_priority_retry_count as nat) + " }"@
    }

    pub fn to_string(&self) -> (r: String)
        ensures
            r@ == self.text(),
    {
        let mut out = "PriorityConfig { preserve_critical: ".to_owned();
        out.append(bool_text(self.preserve_critical));
        out.append(", preserve_high: ");
        out.append(bool_text(self.preserve_high));
        out.append(", block_on_critical: ");
        out.append(bool_text(self.block_on_critical));
        out.append(", high_priority_retry_count: ");
        push_decimal(&mut out, self.high_priority_retry_count as u64);
        out.append(" }");
        out
    }

    /// How often a record of the given priority is offered to a full queue
    /// again before the policy applies.
    pub open spec fn retries(self, priority: LogPriority) -> nat {
        if priority == LogPriority::High && self.preserve_high {
            self.high_priority_retry_count as nat
        } else {
            0
        }
    }

    /// How often a record of the given priority is offered to a full queue
    /// again before the policy applies.
    pub fn retries_for(&self, priority: LogPriority) -> (r: u32)
        ensures
            r == self.retries(priority),
    {
        match priority {
            LogPriority::High => if self.preserve_high {
                self.high_priority_retry_count
            } else {
                0
            },
            _ => 0,
        }
    }
}

/// What is done with a record that the full queue refused.
#[derive(Debug, Clone, PartialEq, Eq)]
pub enum OverflowAction {
    /// Write it to every sink on the caller's thread, past the queue.
    WriteThrough,
    /// Discard it and count the drop.
    Drop,
    /// Discard it, count the drop, and raise an alert if the count calls for
    /// one. `eviction_requested` tells that the policy asked for the oldest
    /// record to be evicted instead.
    DropWithAlert { eviction_requested: bool },
    /// Wait until the queue takes it.
    Block,
    /// Wait for the queue to take it, at most for the given time.
    BlockWithTimeout(Duration),
}

/// What the policy alone does with a refused record.
pub open spec fn policy_action(policy: OverflowPolicy) -> OverflowAction {
    match policy {
        OverflowPolicy::DropNewest => OverflowAction::Drop,
        OverflowPolicy::DropOldest => OverflowAction::DropWithAlert { eviction_requested: true },
        OverflowPolicy::Block => OverflowAction::Block,
        OverflowPolicy::BlockWithTimeout(d) => OverflowAction::BlockWithTimeout(d),
        OverflowPolicy::AlertAndDrop => OverflowAction::DropWithAlert { eviction_requested: false },
    }
}

/// What is done with a refused record of the given priority: a critical record
/// is written through where the configuration preserves critical records, and
/// every other record is left to the policy.
pub open spec fn overflow_action(
    policy: OverflowPolicy,
    config: PriorityConfig,
    priority: LogPriority,
) -> OverflowAction {
    if priority == LogPriority::Critical && config.preserve_critical {
        OverflowAction::WriteThrough
    } else {
        policy_action(policy)
    }
}

/// Whether the drop that brought the count to `drop_count` raises an alert:
/// the first drop does, and every thousandth.
pub open spec fn alert_due(drop_count: nat) -> bool {
    drop_count == 1 || (drop_count > 0 && drop_count % (ALERT_INTERVAL as nat) == 0)
}

/// What the policy alone does with a refused record.
pub fn apply_policy(policy: &OverflowPolicy) -> (r: OverflowAction)
    ensures
        r == policy_action(*policy),
{
    match policy {
        OverflowPolicy::DropNewest => OverflowAction::Drop,
        OverflowPolicy::DropOldest => OverflowAction::DropWithAlert { eviction_requested: true },
        OverflowPolicy::Block => OverflowAction::Block,
        OverflowPolicy::BlockWithTimeout(d) => OverflowAction::BlockWithTimeout(*d),
        OverflowPolicy::AlertAndDrop => OverflowAction::DropWithAlert { eviction_requested: false },
    }
}

/// Decides what is done with a record that the full queue refused.
pub fn decide_overflow(
    policy: &OverflowPolicy,
    config: &PriorityConfig,
    priority: LogPriority,
) -> (r: OverflowAction)
    ensures
        r == overflow_action(*policy, *config, priority),
{
    match priority {
        LogPriority::Critical => if config.preserve_critical {
            OverflowAction::WriteThrough
        } else {
            apply_policy(policy)
        },
        _ => apply_policy(policy),
    }
}

/// Whether the drop that brought the count to `drop_count` raises an alert.
pub fn should_alert(drop_count: u64) -> (r: bool)
    ensures
        r == alert_due(drop_count as nat),
{
    drop_count == 1 || (drop_count > 0 && drop_count % ALERT_INTERVAL == 0)
}

/// A critical record is written through under every policy, as long as the
/// configuration preserves critical records.
pub proof fn lemma_critical_never_left_to_policy(
    policy: OverflowPolicy,
    config: PriorityConfig,
    level: LogLevel,
)
    requires
        config.preserve_critical,
        level == LogLevel::Error || level == LogLevel::Fatal,
    ensures
        overflow_action(policy, config, LogPriority::of(level)) == OverflowAction::WriteThrough,
{
}

/// Only a critical record is ever written through.
pub proof fn lemma_write_through_only_critical(
    policy: OverflowPolicy,
    config: PriorityConfig,
    priority: LogPriority,
)
    ensures
        overflow_action(policy, config, priority) == OverflowAction::WriteThrough ==> priority
            == LogPriority::Critical && config.preserve_critical,
{
}

} // verus!
