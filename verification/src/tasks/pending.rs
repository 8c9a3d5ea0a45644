//! Tasks that are due, and the context a task runs with.

use vstd::prelude::*;
use crate::foreign::new_uuid;
use crate::tasks::time::{TimeDelta, checked_add_millis, spec_add_millis};
use crate::tasks_schema::task::{Task, TaskPriority};
use crate::tasks_schema::worker_id::WorkerId;

verus! {

/// What a task knows while it runs. Points in time are microseconds since
/// the epoch.
#[derive(Debug)]
pub struct TaskRunContext {
    pub id: uuid::Uuid,
    pub worker_id: WorkerId,
    pub created_at: i64,
    pub deadline: i64,
    pub attempts: i32,
    pub last_retry: Option<i64>,
    pub is_retrying: bool,
}

impl TaskRunContext {
    /// The context of a recurring task due at `deadline`, run at `now`,
    /// under a fresh random identifier.
    pub fn from_recurring(worker_id: WorkerId, deadline: i64, now: i64) -> (c: TaskRunContext)
        ensures
            c.worker_id == worker_id,
            c.created_at == now,
            c.deadline == deadline,
            c.attempts == 0,
            c.last_retry is None,
            !c.is_retrying,
    {
        TaskRunContext {
            id: new_uuid(),
            worker_id,
            created_at: now,
            deadline,
            attempts: 0,
            last_retry: None,
            is_retrying: false,
        }
    }

    /// The context of a queued task: its own identifier, times and
    /// attempts; it is retrying when it was attempted before.
    pub fn from_task_schema(worker_id: WorkerId, data: &Task) -> (c: TaskRunContext)
        ensures
            c.id == data.id,
            c.worker_id == worker_id,
            c.created_at == data.created_at,
            c.deadline == data.deadline,
            c.attempts == data.attempts,
            c.last_retry == data.last_retry,
            c.is_retrying == (data.attempts > 0),
    {
        TaskRunContext {
            id: data.id,
            worker_id,
            created_at: data.created_at,
            deadline: data.deadline,
            attempts: data.attempts,
            last_retry: data.last_retry,
            is_retrying: data.attempts > 0,
        }
    }
}

/// A task that is due: a recurring task whose deadline came, or a task
/// pulled from the queue.
#[derive(Debug)]
pub enum PendingTask {
    Recurring { deadline: i64, kind: String, priority: TaskPriority },
    Queued(Task),
}

/// The type of a pending task.
pub open spec fn pending_kind(t: PendingTask) -> Seq<char> {
    match t {
        PendingTask::Recurring { kind, .. } => kind@,
        PendingTask::Queued(task) => task.data.kind@,
    }
}

/// When a pending task was due.
pub open spec fn pending_deadline(t: PendingTask) -> i64 {
    match t {
        PendingTask::Recurring { deadline, .. } => deadline,
        PendingTask::Queued(task) => task.deadline,
    }
}

/// The priority of a pending task.
pub open spec fn pending_priority(t: PendingTask) -> TaskPriority {
    match t {
        PendingTask::Recurring { priority, .. } => priority,
        PendingTask::Queued(task) => task.priority,
    }
}

impl PendingTask {
    /// The task's type.
    pub fn kind(&self) -> (r: &str)
        ensures
            r@ == pending_kind(*self),
    {
        match self {
            PendingTask::Recurring { kind, .. } => kind.as_str(),
            PendingTask::Queued(task) => task.data.kind.as_str(),
        }
    }

    /// When the task was due.
    pub fn deadline(&self) -> (r: i64)
        ensures
            r == pending_deadline(*self),
    {
        match self {
            PendingTask::Recurring { deadline, .. } => *deadline,
            PendingTask::Queued(task) => task.deadline,
        }
    }

    /// Whether the task is a recurring one.
    pub fn is_recurring(&self) -> (r: bool)
        ensures
            r == (*self is Recurring),
    {
        match self {
            PendingTask::Recurring { .. } => true,
            PendingTask::Queued(_) => false,
        }
    }

    /// The task's priority.
    pub fn priority(&self) -> (r: TaskPriority)
        ensures
            r == pending_priority(*self),
    {
        match self {
            PendingTask::Recurring { priority, .. } => *priority,
            PendingTask::Queued(task) => task.priority,
        }
    }

    /// The context the task runs with on worker `worker_id` at `now`.
    pub fn run_context(&self, worker_id: WorkerId, now: i64) -> (c: TaskRunContext)
        ensures
            c.worker_id == worker_id,
            match *self {
                PendingTask::Queued(data) => {
                    &&& c.id == data.id
                    &&& c.created_at == data.created_at
                    &&& c.deadline == data.deadline
                    &&& c.attempts == data.attempts
                    &&& c.last_retry == data.last_retry
                    &&& c.is_retrying == (data.attempts > 0)
                },
                PendingTask::Recurring { deadline, .. } => {
                    &&& c.created_at == now
                    &&& c.deadline == deadline
                    &&& c.attempts == 0
                    &&& c.last_retry is None
                    &&& !c.is_retrying
                },
            },
    {
        match self {
            PendingTask::Queued(data) => TaskRunContext::from_task_schema(worker_id, data),
            PendingTask::Recurring { deadline, .. } => TaskRunContext::from_recurring(worker_id, *deadline, now),
        }
    }

}

/// When a task is scheduled to run.
#[derive(Clone, Copy, Debug, PartialEq, Eq)]
pub enum Scheduled {
    /// After this span of time from now.
    In(TimeDelta),
    /// At this point in time.
    At(i64),
}

/// The point in time that `s` stands for, counted from `now`.
pub open spec fn scheduled_time(s: Scheduled, now: i64) -> Option<i64> {
    match s {
        Scheduled::In(d) => spec_add_millis(now, d.spec_millis()),
        Scheduled::At(t) => Some(t),
    }
}

impl Scheduled {
    /// The point in time it stands for, counted from `now`; `None` when
    /// that lies outside the range of dates.
    pub fn timestamp_at(&self, now: i64) -> (r: Option<i64>)
        ensures
            r == scheduled_time(*self, now),
    {
        match self {
            Scheduled::In(d) => checked_add_millis(now, d.num_milliseconds()),
            Scheduled::At(t) => Some(*t),
        }
    }
}

} // verus!
