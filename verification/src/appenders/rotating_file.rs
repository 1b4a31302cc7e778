//! When a log file is rotated, and what a rotation does to the backups.

use vstd::prelude::*;
use vstd::string::StringExecFns;
use crate::error::LoggerError;
use crate::text::{decimal_digits, push_decimal};

verus! {

/// The size from which a file is rotated unless another is set: 10 MiB.
pub const DEFAULT_MAX_FILE_SIZE: u64 = 10_485_760;

/// How many failed deletions of the oldest backup in a row stop a rotation.
pub const MAX_DELETION_FAILURES: usize = 5;

/// When a file is rotated and how many backups are kept.
#[derive(Debug, Clone, Copy, PartialEq, Eq, Structural)]
pub struct RotationPolicy {
    /// The size in bytes from which the file is rotated.
    pub max_file_size: u64,
    /// How many rotated files are kept.
    pub max_backup_files: usize,
    /// Whether rotated files are compressed.
    pub compress: bool,
}

impl RotationPolicy {
    /// The policy that `new` gives: 10 MiB, five backups, no compression.
    pub open spec fn standard() -> RotationPolicy {
        RotationPolicy {
            max_file_size: DEFAULT_MAX_FILE_SIZE,
            max_backup_files: 5,
            compress: false,
        }
    }

    pub fn new() -> (r: RotationPolicy)
        ensures
            r == RotationPolicy::standard(),
    {
        RotationPolicy { max_file_size: DEFAULT_MAX_FILE_SIZE, max_backup_files: 5, compress: false }
    }

    pub fn with_max_size(self, size: u64) -> (r: RotationPolicy)
        ensures
            r == (RotationPolicy { max_file_size: size, ..self }),
    {
        RotationPolicy { max_file_size: size, ..self }
    }

    pub fn with_max_backups(self, count: usize) -> (r: RotationPolicy)
        ensures
            r == (RotationPolicy { max_backup_files: count, ..self }),
    {
        RotationPolicy { max_backup_files: count, ..self }
    }

    pub fn with_compression(self, enabled: bool) -> (r: RotationPolicy)
        ensures
            r == (RotationPolicy { compress: enabled, ..self }),
    {
        RotationPolicy { compress: enabled, ..self }
    }

    /// Whether a file of `current_size` bytes is due for rotation.
    pub fn should_rotate(&self, current_size: u64) -> (r: bool)
        ensures
            r == (current_size >= self.max_file_size),
    {
        current_size >= self.max_file_size
    }
}

impl Default for RotationPolicy {
    fn default() -> (r: RotationPolicy)
        ensures
            r == RotationPolicy::standard(),
    {
        RotationPolicy::new()
    }
}

/// The name of the backup with the given number: the file's name, a dot, and
/// the number.
pub open spec fn backup_name_text(file_name: Seq<char>, index: nat) -> Seq<char> {
    file_name + "."@ + decimal_digits(index)
}

/// The name of the backup with the given number.
pub fn backup_name(file_name: &str, index: usize) -> (r: String)
    ensures
        r@ == backup_name_text(file_name@, index as nat),
{
    let mut out = file_name.to_owned();
    out.append(".");
    push_decimal(&mut out, index as u64);
    out
}

/// One renaming of a rotation: the backup `from` becomes the backup `to`.
#[derive(Debug, Clone, Copy, PartialEq, Eq, Structural)]
pub struct BackupShift {
    pub from: usize,
    pub to: usize,
}

/// The renamings of a rotation that keeps `max_backups` backups, in the order
/// in which they are made: the oldest first, so that no backup is overwritten
/// before it has moved. Backup `i` becomes backup `i + 1`, for `i` from
/// `max_backups - 1` down to 1.
pub open spec fn shift_plan(max_backups: nat) -> Seq<BackupShift> {
    if max_backups <= 1 {
        Seq::empty()
    } else {
        Seq::new(
            (max_backups - 1) as nat,
            |k: int|
                BackupShift {
                    from: (max_backups - 1 - k) as usize,
                    to: (max_backups - k) as usize,
                },
        )
    }
}

/// The renamings of a rotation, oldest backup first.
pub fn plan_shifts(max_backups: usize) -> (r: Vec<BackupShift>)
    ensures
        r@ == shift_plan(max_backups as nat),
{
    let mut plan: Vec<BackupShift> = Vec::new();
    if max_backups <= 1 {
        return plan;
    }
    let mut i: usize = max_backups - 1;
    while i >= 1
        invariant
            max_backups >= 2,
            0 <= i <= max_backups - 1,
            plan@.len() == max_backups - 1 - i,
            forall|k: int|
                0 <= k < plan@.len() ==> plan@[k] == (BackupShift {
                    from: (max_backups - 1 - k) as usize,
                    to: (max_backups - k) as usize,
                }),
        decreases i,
    {
        plan.push(BackupShift { from: i, to: i + 1 });
        i -= 1;
    }
    assert(plan@ =~= shift_plan(max_backups as nat));
    plan
}

/// One step of a rotation. The sink that owns the file carries the steps out
/// in order.
#[derive(Debug, Clone, Copy, PartialEq, Eq, Structural)]
pub enum RotationStep {
    /// Flush the file and close it.
    CloseCurrent,
    /// Delete the backup with this number, compressed or not, if it is there.
    DeleteBackup(usize),
    /// Give the backup `from` the number `to`.
    ShiftBackup(BackupShift),
    /// Make the file backup 1, and compress it if `compress` is set.
    ArchiveCurrent { compress: bool },
    /// Open a new, empty file.
    OpenNew,
}

/// The steps of a rotation under a policy: close the file, delete the backup
/// that would be one too many, move every backup up by one, oldest first,
/// make the file backup 1, and open a new file.
pub open spec fn rotation_steps(policy: RotationPolicy) -> Seq<RotationStep> {
    seq![RotationStep::CloseCurrent, RotationStep::DeleteBackup(policy.max_backup_files)]
        + shift_plan(policy.max_backup_files as nat).map_values(
        |shift: BackupShift| RotationStep::ShiftBackup(shift),
    ) + seq![RotationStep::ArchiveCurrent { compress: policy.compress }, RotationStep::OpenNew]
}

/// The steps of a rotation under a policy, in the order in which they are
/// carried out.
pub fn plan_rotation(policy: &RotationPolicy) -> (r: Vec<RotationStep>)
    ensures
        r@ == rotation_steps(*policy),
{
    let shifts = plan_shifts(policy.max_backup_files);
    let mut steps: Vec<RotationStep> = Vec::new();
    steps.push(RotationStep::CloseCurrent);
    steps.push(RotationStep::DeleteBackup(policy.max_backup_files));
    let ghost head = steps@;
    let mut i: usize = 0;
    while i < shifts.len()
        invariant
            i <= shifts.len(),
            steps@ == head + shifts@.take(i as int).map_values(
                |shift: BackupShift| RotationStep::ShiftBackup(shift),
            ),
        decreases shifts.len() - i,
    {
        steps.push(RotationStep::ShiftBackup(shifts[i]));
        assert(shifts@.take(i + 1) == shifts@.take(i as int).push(shifts@[i as int]));
        assert(steps@ =~= head + shifts@.take(i + 1).map_values(
            |shift: BackupShift| RotationStep::ShiftBackup(shift),
        ));
        i += 1;
    }
    assert(shifts@.take(shifts.len() as int) == shifts@);
    steps.push(RotationStep::ArchiveCurrent { compress: policy.compress });
    steps.push(RotationStep::OpenNew);
    assert(steps@ =~= rotation_steps(*policy));
    steps
}

/// What a rotation does after it tried to delete the oldest backup.
#[derive(Debug, Clone, Copy, PartialEq, Eq, Structural)]
pub enum DeletionOutcome {
    /// The rotation goes on, with the given count of failures in a row.
    Proceed { failures: usize },
    /// Too many deletions failed in a row: the rotation is given up, with the
    /// given count of failures.
    Abort { failures: usize },
}

/// What a rotation does after it tried to delete the oldest backup: a
/// deletion that went well sets the count of failures back to zero, one that
/// failed raises it, and the fifth failure in a row stops the rotation.
pub open spec fn deletion_outcome(failures_before: nat, deletion_failed: bool) -> DeletionOutcome {
    if !deletion_failed {
        DeletionOutcome::Proceed { failures: 0 }
    } else if failures_before + 1 >= MAX_DELETION_FAILURES {
        DeletionOutcome::Abort {
            failures: if failures_before >= usize::MAX {
                usize::MAX
            } else {
                (failures_before + 1) as usize
            },
        }
    } else {
        DeletionOutcome::Proceed { failures: (failures_before + 1) as usize }
    }
}

/// Decides what a rotation does after it tried to delete the oldest backup.
pub fn after_deletion(failures_before: usize, deletion_failed: bool) -> (r: DeletionOutcome)
    ensures
        r == deletion_outcome(failures_before as nat, deletion_failed),
{
    if !deletion_failed {
        DeletionOutcome::Proceed { failures: 0 }
    } else {
        let failures = if failures_before == usize::MAX {
            usize::MAX
        } else {
            failures_before + 1
        };
        if failures >= MAX_DELETION_FAILURES {
            DeletionOutcome::Abort { failures }
        } else {
            DeletionOutcome::Proceed { failures }
        }
    }
}

/// The size of the file after `written` more bytes, held to the largest
/// 64-bit number.
pub fn grown_size(current_size: u64, written: u64) -> (r: u64)
    ensures
        r == (if current_size + written > u64::MAX {
            u64::MAX as int
        } else {
            current_size + written
        }),
{
    current_size.saturating_add(written)
}

/// What the sink does after a rotation failed.
#[derive(Debug, Clone, Copy, PartialEq, Eq, Structural)]
pub enum RotationRecovery {
    /// The file is still open: go on writing to it.
    KeepWriting,
    /// The file was closed by the failed rotation: open it again.
    Reopen,
}

/// What the sink does after a rotation failed: it goes on with the file that
/// is open, or opens the file again if the rotation had closed it. The size
/// is counted from zero afterwards, so that the next record does not start
/// another rotation at once.
pub fn after_failed_rotation(writer_open: bool) -> (r: RotationRecovery)
    ensures
        r == (if writer_open {
            RotationRecovery::KeepWriting
        } else {
            RotationRecovery::Reopen
        }),
{
    if writer_open {
        RotationRecovery::KeepWriting
    } else {
        RotationRecovery::Reopen
    }
}

/// The message of a rotation that was given up after `failures` failed
/// deletions in a row.
pub open spec fn abort_text(failures: nat) -> Seq<char> {
    "Rotation aborted: failed to delete old backup files "@ + decimal_digits(failures)
        + " consecutive times. This may indicate insufficient disk space or permission issues."@
}

/// What a rotating sink keeps track of: how large the file is, and how often
/// in a row the oldest backup could not be deleted.
#[derive(Debug, Clone, Copy, PartialEq, Eq, Structural)]
pub struct RotationState {
    policy: RotationPolicy,
    current_size: u64,
    deletion_failure_count: usize,
}

impl RotationState {
    /// The policy of the sink.
    pub closed spec fn rules(self) -> RotationPolicy {
        self.policy
    }

    /// The size of the file in bytes, as far as the sink has counted it.
    pub closed spec fn size(self) -> nat {
        self.current_size as nat
    }

    /// How often in a row the oldest backup could not be deleted.
    pub closed spec fn failures(self) -> nat {
        self.deletion_failure_count as nat
    }

    /// The state of a sink that has just opened a file of `current_size`
    /// bytes.
    pub fn new(policy: RotationPolicy, current_size: u64) -> (r: RotationState)
        ensures
            r.rules() == policy,
            r.size() == current_size,
            r.failures() == 0,
    {
        RotationState { policy, current_size, deletion_failure_count: 0 }
    }

    /// The size of the file in bytes.
    pub fn current_size(&self) -> (r: u64)
        ensures
            r == self.size(),
    {
        self.current_size
    }

    /// The policy of the sink.
    pub fn policy(&self) -> (r: &RotationPolicy)
        ensures
            *r == self.rules(),
    {
        &self.policy
    }

    /// Whether the file is due for rotation before the next record.
    pub fn should_rotate(&self) -> (r: bool)
        ensures
            r == (self.size() >= self.rules().max_file_size),
    {
        self.policy.should_rotate(self.current_size)
    }

    /// The steps of the next rotation.
    pub fn plan(&self) -> (r: Vec<RotationStep>)
        ensures
            r@ == rotation_steps(self.rules()),
    {
        plan_rotation(&self.policy)
    }

    /// Notes how the deletion of the oldest backup went. The rotation goes on
    /// (`Ok`) unless this was the fifth failure in a row; then it is given up
    /// with an error that names the file at `path`.
    pub fn deletion_done(&mut self, deletion_failed: bool, path: &str) -> (r: Result<
        (),
        LoggerError,
    >)
        ensures
            final(self).rules() == old(self).rules(),
            final(self).size() == old(self).size(),
            match deletion_outcome(old(self).failures(), deletion_failed) {
                DeletionOutcome::Proceed { failures } => r is Ok && final(self).failures()
                    == failures,
                DeletionOutcome::Abort { failures } => {
                    &&& final(self).failures() == failures
                    &&& r matches Err(LoggerError::FileRotationError { path: p, message: m })
                    &&& p@ == path@
                    &&& m@ == abort_text(failures as nat)
                },
            },
    {
        match after_deletion(self.deletion_failure_count, deletion_failed) {
            DeletionOutcome::Proceed { failures } => {
                self.deletion_failure_count = failures;
                Ok(())
            },
            DeletionOutcome::Abort { failures } => {
                self.deletion_failure_count = failures;
                let mut message = "Rotation aborted: failed to delete old backup files ".to_owned();
                push_decimal(&mut message, failures as u64);
                message.append(
                    " consecutive times. This may indicate insufficient disk space or permission issues.",
                );
                Err(LoggerError::FileRotationError { path: path.to_owned(), message })
            },
        }
    }

    /// Notes that a new, empty file was opened.
    pub fn opened_new(&mut self)
        ensures
            final(self).size() == 0,
            final(self).rules() == old(self).rules(),
            final(self).failures() == old(self).failures(),
    {
        self.current_size = 0;
    }

    /// Notes that a rotation failed and the sink goes on with the file that it
    /// has. The size is counted from zero, so that the next record does not
    /// start another rotation at once.
    pub fn rotation_failed(&mut self)
        ensures
            final(self).size() == 0,
            final(self).rules() == old(self).rules(),
            final(self).failures() == old(self).failures(),
    {
        self.current_size = 0;
    }

    /// Notes that `bytes` more bytes were written to the file. The size is
    /// held to the largest 64-bit number.
    pub fn wrote(&mut self, bytes: u64)
        ensures
            final(self).size() == (if old(self).size() + bytes > u64::MAX {
                u64::MAX as int
            } else {
                old(self).size() + bytes
            }),
            final(self).rules() == old(self).rules(),
            final(self).failures() == old(self).failures(),
    {
        self.current_size = grown_size(self.current_size, bytes);
    }
}

} // verus!
