//! A task as the queue stores it.

use vstd::prelude::*;
use crate::tasks_schema::worker_id::WorkerId;

verus! {

/// Where a queued task stands.
#[derive(Clone, Copy, Debug, PartialEq, Eq, Hash)]
pub enum TaskStatus {
    /// Waiting for its deadline.
    Queued,
    /// Taken by a worker.
    Running,
    /// Done.
    Success,
    /// Given up.
    Failed,
}

impl Default for TaskStatus {
    fn default() -> (s: TaskStatus)
        ensures
            s == TaskStatus::Queued,
    {
        TaskStatus::Queued
    }
}

/// How urgent a task is, in three levels: `Low`, `Medium` and `High`.
/// Among tasks due at the same time, `High` goes first, then `Medium`,
/// then `Low` (see `tasks::order`).
#[derive(Clone, Copy, Debug, PartialEq, Eq, Hash)]
pub enum TaskPriority {
    Low,
    Medium,
    High,
}

impl Default for TaskPriority {
    fn default() -> (p: TaskPriority)
        ensures
            p == TaskPriority::Medium,
    {
        TaskPriority::Medium
    }
}

/// The rank of a priority: `Low` 0, `Medium` 1, `High` 2.
pub open spec fn priority_level(p: TaskPriority) -> u8 {
    match p {
        TaskPriority::Low => 0,
        TaskPriority::Medium => 1,
        TaskPriority::High => 2,
    }
}

impl TaskPriority {
    /// The rank of the priority: `Low` 0, `Medium` 1, `High` 2.
    pub fn level(&self) -> (r: u8)
        ensures
            r == priority_level(*self),
    {
        match self {
            TaskPriority::Low => 0,
            TaskPriority::Medium => 1,
            TaskPriority::High => 2,
        }
    }
}

/// The type of a task and its data, as JSON.
#[derive(Clone, Debug, PartialEq)]
pub struct TaskRawData {
    /// The task's type, which the registry knows it by.
    pub kind: String,
    /// The task's own data.
    pub inner: serde_json::Value,
}

/// A task in the queue. Points in time are microseconds since the epoch.
#[derive(Clone, Debug, PartialEq)]
pub struct Task {
    pub id: uuid::Uuid,
    pub created_at: i64,
    pub updated_at: Option<i64>,
    pub deadline: i64,
    pub attempts: i32,
    pub last_retry: Option<i64>,
    pub periodic: bool,
    pub priority: TaskPriority,
    pub status: TaskStatus,
    pub data: TaskRawData,
}

/// What a new task is stored with.
#[derive(Clone, Debug)]
pub struct InsertTaskForm {
    /// Its identifier, or `None` to let the database make one.
    pub id: Option<uuid::Uuid>,
    pub data: TaskRawData,
    pub deadline: i64,
    pub attempts: i32,
    pub periodic: bool,
    pub priority: TaskPriority,
    pub status: TaskStatus,
}

/// What an update changes of a task; `None` leaves a column as it is.
#[derive(Clone, Debug)]
pub struct UpdateTaskForm {
    pub attempts: Option<i32>,
    pub data: Option<TaskRawData>,
    pub deadline: Option<i64>,
    pub last_retry: Option<i64>,
    pub priority: Option<TaskPriority>,
    pub status: Option<TaskStatus>,
}

impl UpdateTaskForm {
    /// An update that changes nothing.
    pub fn empty() -> (f: UpdateTaskForm)
        ensures
            f.attempts is None && f.data is None && f.deadline is None,
            f.last_retry is None && f.priority is None && f.status is None,
    {
        UpdateTaskForm { attempts: None, data: None, deadline: None, last_retry: None, priority: None, status: None }
    }
}

} // verus!
