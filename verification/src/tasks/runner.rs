//! The loop that pulls due tasks: what it decides after each step.

use vstd::prelude::*;

verus! {

/// Consecutive failed rounds after which the worker pauses.
pub const MAX_ERRORS_UNTIL_TIMED_OUT: usize = 2;

/// Pause between two rounds, in milliseconds.
pub const DEFAULT_INTERVAL_MILLIS: u64 = 100;

/// Pause after too many failed rounds, in milliseconds.
pub const TIMED_OUT_INTERVAL_MILLIS: u64 = 30000;

/// What the loop does after a round.
#[derive(Clone, Copy, Debug, PartialEq, Eq)]
pub enum RunnerAction {
    /// Go on after the usual pause.
    Continue,
    /// Go on after a long pause.
    TimedOut,
    /// Stop.
    Close,
}

/// How setting up the worker went.
#[derive(Clone, Copy, Debug, PartialEq, Eq)]
pub enum SetupOutcome {
    Done,
    /// The database could not be reached.
    PoolError,
    /// Any other failure.
    OtherError,
}

/// How a round of pulling and running due tasks went.
#[derive(Clone, Copy, Debug, PartialEq, Eq)]
pub enum RoundOutcome {
    Done,
    Failed,
    /// The worker was closed meanwhile.
    Closed,
}

/// The state the loop keeps between rounds.
#[derive(Clone, Copy, Debug, PartialEq, Eq)]
pub struct QueueWorkerRunner {
    /// Failed rounds (or failed setups) in a row.
    pub errors: usize,
    /// Whether the worker still has to be set up, its database having
    /// been unreachable when it started.
    pub should_setup_worker: bool,
    /// Whether queued tasks may be pulled, no batch of them being underway.
    pub pull_queue_block: bool,
}

/// The state after a setup attempt, and whether the round is skipped.
pub open spec fn spec_after_setup(r: QueueWorkerRunner, o: SetupOutcome) -> (QueueWorkerRunner, bool) {
    match o {
        SetupOutcome::PoolError => (
            QueueWorkerRunner {
                errors: if r.errors < usize::MAX { (r.errors + 1) as usize } else { 0 },
                ..r
            },
            true,
        ),
        _ => (QueueWorkerRunner { errors: 0, should_setup_worker: false, ..r }, false),
    }
}

/// The state after a round, and what the loop does next.
pub open spec fn spec_after_round(r: QueueWorkerRunner, o: RoundOutcome) -> (QueueWorkerRunner, RunnerAction) {
    match o {
        RoundOutcome::Done => (r, RunnerAction::Continue),
        RoundOutcome::Closed => (r, RunnerAction::Close),
        RoundOutcome::Failed => (
            QueueWorkerRunner {
                errors: if r.errors < usize::MAX { (r.errors + 1) as usize } else { 0 },
                ..r
            },
            if r.errors >= MAX_ERRORS_UNTIL_TIMED_OUT { RunnerAction::TimedOut } else { RunnerAction::Continue },
        ),
    }
}

/// The pause after a round that asked for `a`, or `None` to stop.
pub open spec fn spec_pause_after(a: RunnerAction) -> Option<u64> {
    match a {
        RunnerAction::Continue => Some(DEFAULT_INTERVAL_MILLIS),
        RunnerAction::TimedOut => Some(TIMED_OUT_INTERVAL_MILLIS),
        RunnerAction::Close => None,
    }
}

impl QueueWorkerRunner {
    /// A loop for a worker; `setup_later` when its database could not be
    /// reached at start.
    pub fn new(setup_later: bool) -> (r: QueueWorkerRunner)
        ensures
            r.errors == 0,
            r.should_setup_worker == setup_later,
            r.pull_queue_block,
    {
        QueueWorkerRunner { errors: 0, should_setup_worker: setup_later, pull_queue_block: true }
    }

    /// Records a setup attempt: an unreachable database counts one more
    /// error (back to 0 past the largest count) and skips the round; any
    /// other outcome clears the errors and the need to set up.
    pub fn after_setup(&mut self, o: SetupOutcome) -> (skip: bool)
        ensures
            (*final(self), skip) == spec_after_setup(*old(self), o),
    {
        match o {
            SetupOutcome::PoolError => {
                self.errors = match self.errors.checked_add(1) {
                    Some(n) => n,
                    None => 0,
                };
                true
            },
            _ => {
                self.errors = 0;
                self.should_setup_worker = false;
                false
            },
        }
    }

    /// Records a round: a failed round counts one more error, and pauses
    /// long once errors had already reached the limit; a closed worker stops.
    pub fn after_round(&mut self, o: RoundOutcome) -> (a: RunnerAction)
        ensures
            (*final(self), a) == spec_after_round(*old(self), o),
    {
        match o {
            RoundOutcome::Done => RunnerAction::Continue,
            RoundOutcome::Closed => RunnerAction::Close,
            RoundOutcome::Failed => {
                let before: usize = self.errors;
                self.errors = self.errors.wrapping_add(1);
                if before >= MAX_ERRORS_UNTIL_TIMED_OUT {
                    RunnerAction::TimedOut
                } else {
                    RunnerAction::Continue
                }
            },
        }
    }

    /// How long to pause after a round that asked for `a`; `None` to stop.
    pub fn pause_after(a: RunnerAction) -> (r: Option<u64>)
        ensures
            r == spec_pause_after(a),
    {
        match a {
            RunnerAction::Continue => Some(DEFAULT_INTERVAL_MILLIS),
            RunnerAction::TimedOut => Some(TIMED_OUT_INTERVAL_MILLIS),
            RunnerAction::Close => None,
        }
    }
}

/// Three failed rounds in a row make the loop pause long.
pub proof fn law_third_failure_times_out(r: QueueWorkerRunner)
    requires
        r.errors == 0,
    ensures
        ({
            let (r1, a1) = spec_after_round(r, RoundOutcome::Failed);
            let (r2, a2) = spec_after_round(r1, RoundOutcome::Failed);
            let (r3, a3) = spec_after_round(r2, RoundOutcome::Failed);
            a1 == RunnerAction::Continue && a2 == RunnerAction::Continue && a3 == RunnerAction::TimedOut
        }),
{
}

/// A round that went well keeps the count of errors as it was.
pub proof fn law_done_round_continues(r: QueueWorkerRunner)
    ensures
        spec_after_round(r, RoundOutcome::Done) == (r, RunnerAction::Continue),
{
}

/// The loop keeps its older variant's state: failed rounds in a row and
/// whether queued tasks may be pulled.
#[derive(Clone, Copy, Debug, PartialEq, Eq)]
pub struct WorkerRunner {
    pub errors: usize,
    pub pull_queue_block: bool,
}

/// Failed rounds in a row that the older loop counts up to.
pub const WORKER_MAX_ERRORS: usize = 3;

impl WorkerRunner {
    /// A loop with no errors, allowed to pull queued tasks.
    pub fn new() -> (r: WorkerRunner)
        ensures
            r.errors == 0,
            r.pull_queue_block,
    {
        WorkerRunner { errors: 0, pull_queue_block: true }
    }

    /// Records a round of the older loop: a failed round counts one more
    /// error; it never pauses long. A fourth failure in a row clamps with
    /// a lower bound above the upper one, on which it panics; `requires`
    /// leaves that out.
    pub fn after_round(&mut self, o: RoundOutcome) -> (a: RunnerAction)
        requires
            o == RoundOutcome::Failed ==> old(self).errors < WORKER_MAX_ERRORS,
        ensures
            o == RoundOutcome::Failed ==> final(self).errors == old(self).errors + 1 && a == RunnerAction::Continue,
            o == RoundOutcome::Done ==> *final(self) == *old(self) && a == RunnerAction::Continue,
            o == RoundOutcome::Closed ==> *final(self) == *old(self) && a == RunnerAction::Close,
            final(self).pull_queue_block == old(self).pull_queue_block,
    {
        match o {
            RoundOutcome::Done => RunnerAction::Continue,
            RoundOutcome::Closed => RunnerAction::Close,
            RoundOutcome::Failed => {
                self.errors = self.errors + 1;
                if self.errors > WORKER_MAX_ERRORS {
                    RunnerAction::TimedOut
                } else {
                    RunnerAction::Continue
                }
            },
        }
    }
}

/// A setup attempt that could not reach the database counts one more
/// error and skips the round, leaving the need to set up; any other
/// outcome clears the errors and the need to set up and lets the round
/// run. Neither touches whether queued tasks may be pulled.
pub proof fn law_setup_attempts(r: QueueWorkerRunner, o: SetupOutcome)
    requires
        r.errors < usize::MAX,
    ensures
        o == SetupOutcome::PoolError ==> spec_after_setup(r, o) == (QueueWorkerRunner {
            errors: (r.errors + 1) as usize,
            should_setup_worker: r.should_setup_worker,
            pull_queue_block: r.pull_queue_block,
        }, true),
        o != SetupOutcome::PoolError ==> spec_after_setup(r, o) == (QueueWorkerRunner {
            errors: 0,
            should_setup_worker: false,
            pull_queue_block: r.pull_queue_block,
        }, false),
{
}

/// A failed round counts one more error; the loop pauses long exactly when
/// two or more failures came right before it. A closed worker stops, and a
/// round that went well goes on; neither changes the state. The pauses
/// are 100 milliseconds, or 30 seconds after too many failures.
pub proof fn law_round_outcomes(r: QueueWorkerRunner)
    requires
        r.errors < usize::MAX,
    ensures
        spec_after_round(r, RoundOutcome::Failed).0 == (QueueWorkerRunner { errors: (r.errors + 1) as usize, ..r }),
        spec_after_round(r, RoundOutcome::Failed).1 == RunnerAction::TimedOut <==> r.errors >= 2,
        spec_after_round(r, RoundOutcome::Failed).1 != RunnerAction::Close,
        spec_after_round(r, RoundOutcome::Closed) == (r, RunnerAction::Close),
        spec_pause_after(RunnerAction::Continue) == Some(100u64),
        spec_pause_after(RunnerAction::TimedOut) == Some(30000u64),
        spec_pause_after(RunnerAction::Close) is None,
{
}

} // verus!
