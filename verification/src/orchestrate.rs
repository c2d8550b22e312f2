//! Verification orchestrator: one sweep over all exercises in manifest order.
//! The driver observes each exercise (file read, marker detection, checker
//! run) and hands the per-exercise statuses in; the sweep aggregates them
//! into the final summary. A failure on one exercise never aborts the rest of
//! the sweep: every status is one row of the tally.

use vstd::prelude::*;

verus! {

/// What the sweep observed for one exercise, in manifest order.
#[derive(Debug, Clone, Copy, PartialEq, Eq, Structural)]
pub enum ExerciseStatus {
    /// The exercise's file could not be read: counted as not completed, and
    /// the checker is never invoked.
    ReadError,
    /// The marker is present in the file: not yet done, and the checker is
    /// never invoked.
    NotDone,
    /// Done, but the external checker could not be started at all: counted as
    /// completed and not passed.
    LaunchError,
    /// Done; the checker ran and reported failure: completed, not passed.
    CheckFailed,
    /// Done; the checker ran and reported success: completed and passed.
    CheckPassed,
}

/// The exercise counts as completed: its file was readable and lacked the
/// marker, whatever the checker then did.
pub open spec fn counts_completed(s: ExerciseStatus) -> bool {
    s is LaunchError || s is CheckFailed || s is CheckPassed
}

/// The exercise counts as passed: completed, and the checker reported success.
pub open spec fn counts_passed(s: ExerciseStatus) -> bool {
    s is CheckPassed
}

/// How many of the statuses count as completed.
pub open spec fn completed_of(s: Seq<ExerciseStatus>) -> nat
    decreases s.len(),
{
    if s.len() == 0 {
        0
    } else {
        completed_of(s.drop_last()) + (if counts_completed(s.last()) {
            1nat
        } else {
            0
        })
    }
}

/// How many of the statuses count as passed.
pub open spec fn passed_of(s: Seq<ExerciseStatus>) -> nat
    decreases s.len(),
{
    if s.len() == 0 {
        0
    } else {
        passed_of(s.drop_last()) + (if counts_passed(s.last()) {
            1nat
        } else {
            0
        })
    }
}

/// Aggregate counters of one verification sweep.
#[derive(Debug, Clone, Copy, PartialEq, Eq, Structural)]
pub struct RunSummary {
    pub completed_count: usize,
    pub passed_count: usize,
    pub total_count: usize,
}

impl RunSummary {
    /// The summary's invariant: passed exercises are a subset of the
    /// completed ones, which are a subset of all exercises.
    pub open spec fn wf(self) -> bool {
        self.passed_count <= self.completed_count <= self.total_count
    }
}

/// Counting law: for every combination of per-exercise statuses, the passed
/// count never exceeds the completed count, which never exceeds the number of
/// exercises. Every status that counts as passed also counts as completed.
pub proof fn lemma_counts_bounded(s: Seq<ExerciseStatus>)
    ensures
        passed_of(s) <= completed_of(s) <= s.len(),
    decreases s.len(),
{
    if s.len() > 0 {
        lemma_counts_bounded(s.drop_last());
    }
}

/// Idempotence law: the summary is a pure function of the observed statuses.
/// Running verification again without modifying any exercise file or checker
/// behaviour repeats the same statuses and therefore yields an identical
/// summary.
pub proof fn lemma_sweep_idempotent(first: Seq<ExerciseStatus>, second: Seq<ExerciseStatus>)
    requires
        first == second,
    ensures
        completed_of(first) == completed_of(second),
        passed_of(first) == passed_of(second),
        first.len() == second.len(),
{
}

/// Aggregates one sweep: the total equals the number of exercises, and the
/// completed and passed counters equal the counts over the statuses.
pub fn run_verification(statuses: &Vec<ExerciseStatus>) -> (s: RunSummary)
    ensures
        s.total_count == statuses@.len(),
        s.completed_count == completed_of(statuses@),
        s.passed_count == passed_of(statuses@),
        s.wf(),
{
    let total = statuses.len();
    let mut completed: usize = 0;
    let mut passed: usize = 0;
    let mut i: usize = 0;
    while i < total
        invariant
            total == statuses@.len(),
            i <= total,
            completed == completed_of(statuses@.subrange(0, i as int)),
            passed == passed_of(statuses@.subrange(0, i as int)),
            passed <= completed <= i,
        decreases total - i,
    {
        proof {
            let pre = statuses@.subrange(0, i + 1);
            assert(pre.drop_last() =~= statuses@.subrange(0, i as int));
            assert(pre.last() == statuses@[i as int]);
        }
        match statuses[i] {
            ExerciseStatus::ReadError => {},
            ExerciseStatus::NotDone => {},
            ExerciseStatus::LaunchError => {
                completed += 1;
            },
            ExerciseStatus::CheckFailed => {
                completed += 1;
            },
            ExerciseStatus::CheckPassed => {
                completed += 1;
                passed += 1;
            },
        }
        i += 1;
    }
    proof {
        assert(statuses@.subrange(0, total as int) =~= statuses@);
    }
    RunSummary { completed_count: completed, passed_count: passed, total_count: total }
}

} // verus!
