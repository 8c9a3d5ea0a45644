use eden::tasks::actions::{
    action_for, post_task_step, requeue_form, run_timeout_millis, should_unblock, success_form, PerformTaskAction,
    PostTaskStep, RetryDelay, TaskOutcome,
};
use eden::tasks::errors::{ClearAllWithStatusTag, ScheduleTaskTag};
use eden::tasks::order::sort_pending;
use eden::tasks::pending::{PendingTask, TaskRunContext};
use eden::tasks::runner::{QueueWorkerRunner, RoundOutcome, RunnerAction, SetupOutcome, WorkerRunner};
use eden::tasks::task_manager::{shutdown_needed, start_decision, StartDecision, TaskCounters};
use eden::tasks::time::TimeDelta;
use eden::tasks_schema::task::{Task, TaskPriority, TaskRawData, TaskStatus};
use eden::tasks_schema::worker_id::WorkerId;
use std::cmp::Ordering;

fn recurring(kind: &str, deadline: i64, priority: TaskPriority) -> PendingTask {
    PendingTask::Recurring { deadline, kind: kind.to_string(), priority }
}

fn queued(kind: &str, deadline: i64, attempts: i32, priority: TaskPriority) -> Task {
    Task {
        id: uuid::Uuid::new_v4(),
        created_at: 10,
        updated_at: None,
        deadline,
        attempts,
        last_retry: Some(7),
        periodic: false,
        priority,
        status: TaskStatus::Queued,
        data: TaskRawData { kind: kind.to_string(), inner: serde_json::Value::Null },
    }
}

#[test]
fn outcomes_become_actions() {
    let five = TimeDelta::seconds(5);
    assert_eq!(action_for(TaskOutcome::Completed), PerformTaskAction::Completed);
    assert_eq!(action_for(TaskOutcome::RetryIn(five)), PerformTaskAction::RetryIn(five));
    assert_eq!(action_for(TaskOutcome::Rejected), PerformTaskAction::Delete);
    assert_eq!(action_for(TaskOutcome::Failed(Some(PerformTaskAction::Delete))), PerformTaskAction::Delete);
    assert_eq!(action_for(TaskOutcome::Failed(None)), PerformTaskAction::RetryOnError);
    assert_eq!(action_for(TaskOutcome::TimedOut), PerformTaskAction::RetryOnTimedOut);
    assert_eq!(action_for(TaskOutcome::Panicked), PerformTaskAction::RetryOnError);
}

#[test]
fn timeouts_in_milliseconds() {
    assert_eq!(run_timeout_millis(TimeDelta::minutes(10)), Some(600_000));
    assert_eq!(run_timeout_millis(TimeDelta::milliseconds(0)), Some(0));
    assert_eq!(run_timeout_millis(TimeDelta::milliseconds(-1)), None);
}

#[test]
fn recurring_tasks_after_a_run() {
    let d = TimeDelta::seconds(3);
    assert_eq!(post_task_step(true, PerformTaskAction::Completed, 0, 5), PostTaskStep::RecurringCompleted);
    assert_eq!(post_task_step(true, PerformTaskAction::Delete, 0, 5), PostTaskStep::Nothing);
    assert_eq!(
        post_task_step(true, PerformTaskAction::RetryIn(d), 0, 5),
        PostTaskStep::QueueRecurring { delay: RetryDelay::In(d) }
    );
    assert_eq!(
        post_task_step(true, PerformTaskAction::RetryOnError, 0, 0),
        PostTaskStep::QueueRecurring { delay: RetryDelay::Backoff(0) }
    );
    assert_eq!(
        post_task_step(true, PerformTaskAction::RetryOnTimedOut, 9, 1),
        PostTaskStep::QueueRecurring { delay: RetryDelay::Backoff(0) }
    );
}

#[test]
fn queued_tasks_after_a_run() {
    let d = TimeDelta::seconds(3);
    assert_eq!(post_task_step(false, PerformTaskAction::Completed, 2, 3), PostTaskStep::MarkSucceeded);
    assert_eq!(post_task_step(false, PerformTaskAction::Delete, 2, 3), PostTaskStep::DeleteQueued);
    assert_eq!(
        post_task_step(false, PerformTaskAction::RetryOnError, 0, 3),
        PostTaskStep::Requeue { delay: RetryDelay::Backoff(1), attempts: 0 }
    );
    assert_eq!(
        post_task_step(false, PerformTaskAction::RetryIn(d), 2, 3),
        PostTaskStep::Requeue { delay: RetryDelay::In(d), attempts: 2 }
    );
    assert_eq!(post_task_step(false, PerformTaskAction::RetryOnTimedOut, 3, 3), PostTaskStep::FailQueued);
    // A count that does not fit in a u16 is read as u16::MAX - 1.
    assert_eq!(post_task_step(false, PerformTaskAction::RetryOnError, -4, 3), PostTaskStep::FailQueued);
    assert_eq!(
        post_task_step(false, PerformTaskAction::RetryOnError, 70_000, u16::MAX),
        PostTaskStep::Requeue { delay: RetryDelay::Backoff(u16::MAX), attempts: u16::MAX - 1 }
    );
}

#[test]
fn update_forms() {
    let f = requeue_form(2, 99);
    assert_eq!(f.attempts, Some(3));
    assert_eq!(f.deadline, Some(99));
    assert_eq!(f.status, Some(TaskStatus::Queued));
    assert!(f.data.is_none() && f.last_retry.is_none() && f.priority.is_none());

    let f = success_form();
    assert_eq!(f.status, Some(TaskStatus::Success));
    assert!(f.attempts.is_none() && f.deadline.is_none());

    assert!(should_unblock(true, PerformTaskAction::Completed));
    assert!(!should_unblock(false, PerformTaskAction::Completed));
    assert!(!should_unblock(true, PerformTaskAction::RetryOnError));
}

#[test]
fn queue_runner_counts_failures() {
    let mut r = QueueWorkerRunner::new(false);
    assert_eq!(r.after_round(RoundOutcome::Failed), RunnerAction::Continue);
    assert_eq!(r.after_round(RoundOutcome::Failed), RunnerAction::Continue);
    assert_eq!(r.after_round(RoundOutcome::Failed), RunnerAction::TimedOut);
    assert_eq!(r.errors, 3);
    assert_eq!(r.after_round(RoundOutcome::Done), RunnerAction::Continue);
    assert_eq!(r.errors, 3);
    assert_eq!(r.after_round(RoundOutcome::Closed), RunnerAction::Close);
    assert_eq!(QueueWorkerRunner::pause_after(RunnerAction::Continue), Some(100));
    assert_eq!(QueueWorkerRunner::pause_after(RunnerAction::TimedOut), Some(30_000));
    assert_eq!(QueueWorkerRunner::pause_after(RunnerAction::Close), None);
}

#[test]
fn queue_runner_setup() {
    let mut r = QueueWorkerRunner::new(true);
    assert!(r.should_setup_worker);
    assert!(r.after_setup(SetupOutcome::PoolError));
    assert!(r.after_setup(SetupOutcome::PoolError));
    assert_eq!(r.errors, 2);
    assert!(r.should_setup_worker);
    assert!(!r.after_setup(SetupOutcome::OtherError));
    assert_eq!(r.errors, 0);
    assert!(!r.should_setup_worker);

    let mut r = QueueWorkerRunner { errors: usize::MAX, should_setup_worker: true, pull_queue_block: true };
    assert!(r.after_setup(SetupOutcome::PoolError));
    assert_eq!(r.errors, 0);
}

#[test]
fn older_runner() {
    let mut r = WorkerRunner::new();
    assert_eq!(r.after_round(RoundOutcome::Failed), RunnerAction::Continue);
    assert_eq!(r.after_round(RoundOutcome::Failed), RunnerAction::Continue);
    assert_eq!(r.after_round(RoundOutcome::Failed), RunnerAction::Continue);
    assert_eq!(r.errors, 3);
    assert_eq!(r.after_round(RoundOutcome::Closed), RunnerAction::Close);
}

#[test]
fn permits() {
    let mut c = TaskCounters::new(1);
    assert!(c.all_finished());
    c.ask();
    assert!(c.grant());
    assert_eq!((c.pending, c.running), (1, 1));
    assert!(!c.all_finished());
    c.ask();
    assert!(!c.grant());
    assert_eq!((c.pending, c.running), (2, 1));
    assert!(!c.withdraw());
    c.release();
    assert_eq!((c.pending, c.running), (1, 0));
    assert!(c.grant());
    c.release();
    assert_eq!(c, TaskCounters::new(1));
    c.abort();
    c.ask();
    assert!(c.withdraw());
    assert_eq!((c.pending, c.running), (0, 0));
    assert!(!c.withdraw());
    c.close();
    assert!(c.closed && c.aborted);

    assert!(shutdown_needed(true, &TaskCounters::new(4)));
    assert!(!shutdown_needed(false, &TaskCounters::new(4)));
    assert!(!shutdown_needed(true, &c));
}

#[test]
fn no_permit_without_capacity() {
    let mut c = TaskCounters::new(0);
    c.ask();
    assert!(!c.grant());
    assert_eq!((c.pending, c.running), (1, 0));
}

#[test]
fn starting_a_worker() {
    assert_eq!(start_decision(true, SetupOutcome::Done), StartDecision::AlreadyStarted);
    assert_eq!(start_decision(false, SetupOutcome::PoolError), StartDecision::Start { setup_later: true });
    assert_eq!(start_decision(false, SetupOutcome::OtherError), StartDecision::SetupFailed);
    assert_eq!(start_decision(false, SetupOutcome::Done), StartDecision::Start { setup_later: false });
}

#[test]
fn run_contexts() {
    let w = WorkerId::new(1, 2);
    let r = recurring("r", 50, TaskPriority::Medium);
    let c = r.run_context(w, 77);
    assert_eq!((c.created_at, c.deadline, c.attempts, c.last_retry, c.is_retrying), (77, 50, 0, None, false));
    assert_eq!(c.worker_id, w);

    let t = queued("q", 40, 2, TaskPriority::Low);
    let id = t.id;
    let q = PendingTask::Queued(t);
    let c = q.run_context(w, 77);
    assert_eq!(c.id, id);
    assert_eq!((c.created_at, c.deadline, c.attempts, c.last_retry, c.is_retrying), (10, 40, 2, Some(7), true));

    let first = queued("q", 40, 0, TaskPriority::Low);
    let c = TaskRunContext::from_task_schema(w, &first);
    assert!(!c.is_retrying);
}

#[test]
fn order_of_due_tasks() {
    let a = recurring("a", 10, TaskPriority::Medium);
    let b = recurring("b", 20, TaskPriority::Medium);
    // One priority: the later deadline goes first.
    assert_eq!(a.order(&b), Ordering::Greater);
    assert_eq!(b.order(&a), Ordering::Less);
    let low = recurring("low", 10, TaskPriority::Low);
    let high = recurring("high", 10, TaskPriority::High);
    // One deadline: the higher priority goes first.
    assert_eq!(high.order(&low), Ordering::Less);
    assert_eq!(low.order(&high), Ordering::Greater);
    // Higher priority and earlier deadline compare equal.
    let x = recurring("x", 5, TaskPriority::High);
    assert_eq!(x.order(&b), Ordering::Equal);
}

#[test]
fn sorting_due_tasks() {
    let tasks = vec![
        recurring("a", 10, TaskPriority::Medium),
        PendingTask::Queued(queued("b", 30, 0, TaskPriority::Medium)),
        recurring("c", 20, TaskPriority::Medium),
        recurring("d", 30, TaskPriority::Medium),
    ];
    let sorted = sort_pending(tasks);
    let kinds: Vec<&str> = sorted.iter().map(|t| t.kind()).collect();
    // Latest deadline first; equal ones keep their order.
    assert_eq!(kinds, vec!["b", "d", "c", "a"]);

    let tasks = vec![
        recurring("high", 10, TaskPriority::High),
        recurring("low", 10, TaskPriority::Low),
        recurring("medium", 10, TaskPriority::Medium),
    ];
    let kinds: Vec<String> = sort_pending(tasks).iter().map(|t| t.kind().to_string()).collect();
    assert_eq!(kinds, vec!["high", "medium", "low"]);

    let tasks = vec![
        recurring("high", 5, TaskPriority::High),
        recurring("low", 5, TaskPriority::Low),
    ];
    let kinds: Vec<String> = sort_pending(tasks).iter().map(|t| t.kind().to_string()).collect();
    assert_eq!(kinds, vec!["high", "low"]);

    assert!(sort_pending(Vec::new()).is_empty());
}

#[test]
fn error_tags() {
    let tag = ScheduleTaskTag::new("kind", "Data { x: 1 }".to_string());
    assert_eq!(tag.kind(), "kind");
    assert_eq!(tag.data(), "Data { x: 1 }");

    let t = ClearAllWithStatusTag::none();
    assert!(t.status.is_none() && t.task.is_none());
    let t = ClearAllWithStatusTag::task("kind", "Kind");
    assert_eq!(t.task, Some(("kind", "Kind")));
    let t = ClearAllWithStatusTag::status(TaskStatus::Failed);
    assert_eq!(t.status, Some(TaskStatus::Failed));
}
