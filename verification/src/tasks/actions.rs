//! What the worker does with a task once it has run.

use vstd::prelude::*;
use crate::tasks::time::TimeDelta;
use crate::tasks_schema::task::{TaskStatus, UpdateTaskForm};

verus! {

/// What running a task asks for next.
#[derive(Clone, Copy, Debug, PartialEq, Eq)]
pub enum PerformTaskAction {
    /// It completed.
    Completed,
    /// It is to be dropped and not tried again.
    Delete,
    /// It is to be tried again after this span of time.
    RetryIn(TimeDelta),
    /// It failed and is to be tried again.
    RetryOnError,
    /// It ran out of time and is to be tried again.
    RetryOnTimedOut,
}

/// How a task's run ended.
#[derive(Clone, Copy, Debug, PartialEq, Eq)]
pub enum TaskOutcome {
    /// The task reported that it completed.
    Completed,
    /// The task asked to run again after this span of time.
    RetryIn(TimeDelta),
    /// The task refused to run again.
    Rejected,
    /// The task returned an error, which may carry the action to take.
    Failed(Option<PerformTaskAction>),
    /// The task did not finish within its timeout.
    TimedOut,
    /// The task panicked.
    Panicked,
}

/// The action that the outcome of a run asks for.
pub open spec fn spec_action_for(o: TaskOutcome) -> PerformTaskAction {
    match o {
        TaskOutcome::Completed => PerformTaskAction::Completed,
        TaskOutcome::RetryIn(d) => PerformTaskAction::RetryIn(d),
        TaskOutcome::Rejected => PerformTaskAction::Delete,
        TaskOutcome::Failed(Some(a)) => a,
        TaskOutcome::Failed(None) => PerformTaskAction::RetryOnError,
        TaskOutcome::TimedOut => PerformTaskAction::RetryOnTimedOut,
        TaskOutcome::Panicked => PerformTaskAction::RetryOnError,
    }
}

/// The action that the outcome of a run asks for: what the task said,
/// `Delete` when it refused, the action carried by its error or else
/// `RetryOnError`, and `RetryOnTimedOut` when it ran out of time.
pub fn action_for(o: TaskOutcome) -> (a: PerformTaskAction)
    ensures
        a == spec_action_for(o),
{
    match o {
        TaskOutcome::Completed => PerformTaskAction::Completed,
        TaskOutcome::RetryIn(d) => PerformTaskAction::RetryIn(d),
        TaskOutcome::Rejected => PerformTaskAction::Delete,
        TaskOutcome::Failed(Some(a)) => a,
        TaskOutcome::Failed(None) => PerformTaskAction::RetryOnError,
        TaskOutcome::TimedOut => PerformTaskAction::RetryOnTimedOut,
        TaskOutcome::Panicked => PerformTaskAction::RetryOnError,
    }
}

/// The task's timeout in whole milliseconds, as a run is bounded by; a
/// negative timeout has none, and the task is then dropped.
pub fn run_timeout_millis(timeout: TimeDelta) -> (r: Option<u64>)
    ensures
        r is Some <==> timeout.spec_millis() >= 0,
        r matches Some(ms) ==> ms == timeout.spec_millis(),
{
    let ms: i64 = timeout.num_milliseconds();
    if ms < 0 {
        None
    } else {
        Some(ms as u64)
    }
}

/// How long to wait before a task runs again.
#[derive(Clone, Copy, Debug, PartialEq, Eq)]
pub enum RetryDelay {
    /// This span of time.
    In(TimeDelta),
    /// What the task's `backoff` gives for this many retries.
    Backoff(u16),
}

/// What to do with a task once it has run.
#[derive(Clone, Copy, Debug, PartialEq, Eq)]
pub enum PostTaskStep {
    /// A recurring task completed: it stops running and its deadline moves on.
    RecurringCompleted,
    /// Nothing further.
    Nothing,
    /// A queued task completed: it is marked `Success`.
    MarkSucceeded,
    /// A queued task is deleted.
    DeleteQueued,
    /// A queued task has run too many times: it is marked `Failed`.
    FailQueued,
    /// A queued task goes back into the queue after `delay`; the update
    /// counts `attempts` plus one.
    Requeue { delay: RetryDelay, attempts: u16 },
    /// A recurring task is queued to run once after `delay`, which blocks
    /// it from running on its own meanwhile.
    QueueRecurring { delay: RetryDelay },
}

/// The number of attempts of a task as a `u16`: its count when that fits,
/// `u16::MAX - 1` otherwise.
pub open spec fn clamp_attempts(attempts: i32) -> u16 {
    if 0 <= attempts <= u16::MAX {
        attempts as u16
    } else {
        (u16::MAX - 1) as u16
    }
}

/// What to do once a task has run and its run asked for `action`.
///
/// A recurring task: when it completed, its deadline moves on; when it
/// is to be dropped, nothing happens; otherwise it is queued again, after
/// the span it asked for or after its backoff for no retries, whatever
/// the limit of attempts.
///
/// A queued task: it is marked succeeded or deleted; otherwise, when one
/// more attempt than it has made exceeds `max_attempts`, it fails; else
/// it is requeued, after the span it asked for or after its backoff for
/// one more retry than it has made.
pub open spec fn spec_post_task_step(
    is_recurring: bool,
    action: PerformTaskAction,
    attempts: i32,
    max_attempts: u16,
) -> PostTaskStep {
    if is_recurring {
        match action {
            PerformTaskAction::Completed => PostTaskStep::RecurringCompleted,
            PerformTaskAction::Delete => PostTaskStep::Nothing,
            PerformTaskAction::RetryIn(d) => PostTaskStep::QueueRecurring { delay: RetryDelay::In(d) },
            _ => PostTaskStep::QueueRecurring { delay: RetryDelay::Backoff(0) },
        }
    } else {
        let a = clamp_attempts(attempts);
        match action {
            PerformTaskAction::Completed => PostTaskStep::MarkSucceeded,
            PerformTaskAction::Delete => PostTaskStep::DeleteQueued,
            _ => {
                if a + 1 > max_attempts {
                    PostTaskStep::FailQueued
                } else {
                    let delay = match action {
                        PerformTaskAction::RetryIn(d) => RetryDelay::In(d),
                        _ => RetryDelay::Backoff((a + 1) as u16),
                    };
                    PostTaskStep::Requeue { delay, attempts: a }
                }
            },
        }
    }
}

/// Decides what to do with a task once it has run.
///
/// A queued task that has made `u16::MAX` attempts is left out: counting
/// one more overflows.
pub fn post_task_step(is_recurring: bool, action: PerformTaskAction, attempts: i32, max_attempts: u16) -> (s: PostTaskStep)
    requires
        !is_recurring && !(action is Completed) && !(action is Delete) ==> attempts != u16::MAX,
    ensures
        s == spec_post_task_step(is_recurring, action, attempts, max_attempts),
{
    if is_recurring {
        match action {
            PerformTaskAction::Completed => PostTaskStep::RecurringCompleted,
            PerformTaskAction::Delete => PostTaskStep::Nothing,
            PerformTaskAction::RetryIn(d) => PostTaskStep::QueueRecurring { delay: RetryDelay::In(d) },
            PerformTaskAction::RetryOnError | PerformTaskAction::RetryOnTimedOut => {
                PostTaskStep::QueueRecurring { delay: RetryDelay::Backoff(0) }
            },
        }
    } else {
        let a: u16 = if 0 <= attempts && attempts <= 65535 {
            attempts as u16
        } else {
            u16::MAX - 1
        };
        match action {
            PerformTaskAction::Completed => PostTaskStep::MarkSucceeded,
            PerformTaskAction::Delete => PostTaskStep::DeleteQueued,
            PerformTaskAction::RetryIn(d) => {
                if a + 1 > max_attempts {
                    PostTaskStep::FailQueued
                } else {
                    PostTaskStep::Requeue { delay: RetryDelay::In(d), attempts: a }
                }
            },
            PerformTaskAction::RetryOnError | PerformTaskAction::RetryOnTimedOut => {
                if a + 1 > max_attempts {
                    PostTaskStep::FailQueued
                } else {
                    PostTaskStep::Requeue { delay: RetryDelay::Backoff(a + 1), attempts: a }
                }
            },
        }
    }
}

/// The update that puts a task back into the queue: one more attempt than
/// `attempts`, the new deadline, and status `Queued`.
pub fn requeue_form(attempts: u16, deadline: i64) -> (f: UpdateTaskForm)
    ensures
        f.attempts == Some((attempts + 1) as i32),
        f.deadline == Some(deadline),
        f.status == Some(TaskStatus::Queued),
        f.data is None && f.last_retry is None && f.priority is None,
{
    let attempts: i32 = attempts as i32;
    let mut f = UpdateTaskForm::empty();
    f.attempts = Some(attempts + 1);
    f.deadline = Some(deadline);
    f.status = Some(TaskStatus::Queued);
    f
}

/// The update that marks a task done.
pub fn success_form() -> (f: UpdateTaskForm)
    ensures
        f.status == Some(TaskStatus::Success),
        f.attempts is None && f.data is None && f.deadline is None,
        f.last_retry is None && f.priority is None,
{
    let mut f = UpdateTaskForm::empty();
    f.status = Some(TaskStatus::Success);
    f
}

/// Whether a recurring task that was blocked is let run again on its own:
/// only when it is blocked and its run completed.
pub fn should_unblock(is_blocked: bool, action: PerformTaskAction) -> (r: bool)
    ensures
        r == (is_blocked && action == PerformTaskAction::Completed),
{
    is_blocked && matches!(action, PerformTaskAction::Completed)
}

/// A queued task is put back only while it stays within the limit of
/// attempts: the attempts the update counts never exceed `max_attempts`.
pub proof fn law_requeue_within_max_attempts(action: PerformTaskAction, attempts: i32, max_attempts: u16)
    ensures
        spec_post_task_step(false, action, attempts, max_attempts) matches PostTaskStep::Requeue { attempts: a, .. }
            ==> a + 1 <= max_attempts,
{
}

/// A run that completed or asked to be dropped is never tried again.
pub proof fn law_done_is_not_retried(is_recurring: bool, action: PerformTaskAction, attempts: i32, max_attempts: u16)
    requires
        action is Completed || action is Delete,
    ensures
        !(spec_post_task_step(is_recurring, action, attempts, max_attempts) is Requeue),
        !(spec_post_task_step(is_recurring, action, attempts, max_attempts) is QueueRecurring),
{
}

/// A recurring task is never marked failed: whatever its run asks for,
/// it keeps recurring.
pub proof fn law_recurring_never_fails(action: PerformTaskAction, attempts: i32, max_attempts: u16)
    ensures
        !(spec_post_task_step(true, action, attempts, max_attempts) is FailQueued),
        !(spec_post_task_step(true, action, attempts, max_attempts) is DeleteQueued),
{
}

/// The action taken after a run follows what the run reported: a
/// completed run is done, a run that asked for a delay is retried after
/// exactly that delay, a refused run is deleted, a failure that carries an
/// action gets that very action, a failure without one and a panic are
/// retried on error, and a run out of time is retried as timed out.
pub proof fn law_action_follows_the_outcome(d: TimeDelta, a: PerformTaskAction)
    ensures
        spec_action_for(TaskOutcome::Completed) == PerformTaskAction::Completed,
        spec_action_for(TaskOutcome::RetryIn(d)) == PerformTaskAction::RetryIn(d),
        spec_action_for(TaskOutcome::Rejected) == PerformTaskAction::Delete,
        spec_action_for(TaskOutcome::Failed(Some(a))) == a,
        spec_action_for(TaskOutcome::Failed(None)) == PerformTaskAction::RetryOnError,
        spec_action_for(TaskOutcome::TimedOut) == PerformTaskAction::RetryOnTimedOut,
        spec_action_for(TaskOutcome::Panicked) == PerformTaskAction::RetryOnError,
{
}

/// A queued task whose run failed or timed out, and which may still make
/// one more attempt, goes back into the queue after its backoff for one
/// more retry than it has made, keeping its count of attempts.
pub proof fn law_queued_failure_is_retried_with_backoff(action: PerformTaskAction, attempts: i32, max_attempts: u16)
    requires
        action is RetryOnError || action is RetryOnTimedOut,
        0 <= attempts,
        attempts + 1 <= max_attempts,
    ensures
        spec_post_task_step(false, action, attempts, max_attempts) == (PostTaskStep::Requeue {
            delay: RetryDelay::Backoff((attempts + 1) as u16),
            attempts: attempts as u16,
        }),
{
}

/// A queued task that asked to run again after `d`, and which may still
/// make one more attempt, goes back into the queue after exactly `d`.
pub proof fn law_queued_retry_in_waits_what_it_asked(d: TimeDelta, attempts: i32, max_attempts: u16)
    requires
        0 <= attempts,
        attempts + 1 <= max_attempts,
    ensures
        spec_post_task_step(false, PerformTaskAction::RetryIn(d), attempts, max_attempts) == (PostTaskStep::Requeue {
            delay: RetryDelay::In(d),
            attempts: attempts as u16,
        }),
{
}

/// A queued task fails exactly when its run asked to be retried and one
/// more attempt than it has made would exceed `max_attempts`; a count of
/// attempts outside what a `u16` holds counts as `u16::MAX - 1`.
pub proof fn law_queued_fails_only_past_the_limit(action: PerformTaskAction, attempts: i32, max_attempts: u16)
    ensures
        spec_post_task_step(false, action, attempts, max_attempts) is FailQueued <==> {
            &&& !(action is Completed) && !(action is Delete)
            &&& if 0 <= attempts <= 65535 { attempts + 1 > max_attempts } else { 65535 > max_attempts }
        },
        spec_post_task_step(false, PerformTaskAction::Completed, attempts, max_attempts) == PostTaskStep::MarkSucceeded,
        spec_post_task_step(false, PerformTaskAction::Delete, attempts, max_attempts) == PostTaskStep::DeleteQueued,
{
}

/// A recurring task: when its run completed its deadline moves on; when
/// the run asked to be dropped nothing happens; when it asked for a delay
/// it is queued once after exactly that delay; when it failed or timed
/// out it is queued once after its backoff for no retries.
pub proof fn law_recurring_steps(d: TimeDelta, action: PerformTaskAction, attempts: i32, max_attempts: u16)
    ensures
        spec_post_task_step(true, PerformTaskAction::Completed, attempts, max_attempts) == PostTaskStep::RecurringCompleted,
        spec_post_task_step(true, PerformTaskAction::Delete, attempts, max_attempts) == PostTaskStep::Nothing,
        spec_post_task_step(true, PerformTaskAction::RetryIn(d), attempts, max_attempts)
            == (PostTaskStep::QueueRecurring { delay: RetryDelay::In(d) }),
        action is RetryOnError || action is RetryOnTimedOut ==> spec_post_task_step(true, action, attempts, max_attempts)
            == (PostTaskStep::QueueRecurring { delay: RetryDelay::Backoff(0) }),
{
}

} // verus!
