//! Errors of the task queue, and the tags attached to them.

use vstd::prelude::*;
use crate::tasks_schema::task::TaskStatus;

verus! {

/// The queue worker could not start.
#[derive(Clone, Copy, Debug, PartialEq, Eq)]
pub struct WorkerStartError;

impl WorkerStartError {
    /// What went wrong, in words.
    pub fn message(&self) -> (r: &'static str)
        ensures
            r@ == "could not start queue worker"@,
    {
        "could not start queue worker"
    }
}

/// A task failed.
#[derive(Clone, Copy, Debug, PartialEq, Eq)]
pub struct TaskError;

impl TaskError {
    /// What went wrong, in words.
    pub fn message(&self) -> (r: &'static str)
        ensures
            r@ == "task failed"@,
    {
        "task failed"
    }
}

/// A task could not be scheduled.
#[derive(Clone, Copy, Debug, PartialEq, Eq)]
pub struct ScheduleTaskError;

impl ScheduleTaskError {
    /// What went wrong, in words.
    pub fn message(&self) -> (r: &'static str)
        ensures
            r@ == "could not schedule task"@,
    {
        "could not schedule task"
    }
}

/// Why a task could not be queued.
#[derive(Clone, Copy, Debug, PartialEq, Eq)]
pub enum QueueRefusal {
    /// Recurring tasks are not scheduled by hand.
    RecurringNotAllowed,
    /// No task of this type is registered.
    NotRegistered,
}

impl QueueRefusal {
    /// The explanation attached to the error.
    pub fn message(&self) -> (r: &'static str)
        ensures
            r@ == (match *self {
                QueueRefusal::RecurringNotAllowed => "recurring tasks are not allowed to be scheduled"@,
                QueueRefusal::NotRegistered => "task is not registered in the registry"@,
            }),
    {
        match self {
            QueueRefusal::RecurringNotAllowed => "recurring tasks are not allowed to be scheduled",
            QueueRefusal::NotRegistered => "task is not registered in the registry",
        }
    }
}

/// The task a scheduling error is about: its type and its data as
/// debugging text.
#[derive(Clone, Debug)]
pub struct ScheduleTaskTag {
    kind: String,
    data: String,
}

impl ScheduleTaskTag {
    /// The tag for a task of type `kind` whose data reads `data`.
    pub fn new(kind: &str, data: String) -> (t: ScheduleTaskTag)
        ensures
            t.spec_kind() == kind@,
            t.spec_data() == data@,
    {
        ScheduleTaskTag { kind: kind.to_owned(), data }
    }

    /// The task's type.
    pub closed spec fn spec_kind(&self) -> Seq<char> {
        self.kind@
    }

    /// The task's data.
    pub closed spec fn spec_data(&self) -> Seq<char> {
        self.data@
    }

    /// The task's type.
    pub fn kind(&self) -> (r: &str)
        ensures
            r@ == self.spec_kind(),
    {
        self.kind.as_str()
    }

    /// The task's data.
    pub fn data(&self) -> (r: &str)
        ensures
            r@ == self.spec_data(),
    {
        self.data.as_str()
    }
}

/// The task a failed deletion was about.
#[derive(Clone, Copy, Debug)]
pub struct DeleteTaskTag {
    pub id: uuid::Uuid,
}

/// Which tasks a failed clearing was about: a status, or a task type with
/// the name of its Rust type, or all tasks.
#[derive(Clone, Copy, Debug, PartialEq, Eq)]
pub struct ClearAllWithStatusTag {
    pub status: Option<TaskStatus>,
    pub task: Option<(&'static str, &'static str)>,
}

impl ClearAllWithStatusTag {
    /// All tasks.
    pub fn none() -> (t: ClearAllWithStatusTag)
        ensures
            t.status is None && t.task is None,
    {
        ClearAllWithStatusTag { status: None, task: None }
    }

    /// The tasks of type `kind`, implemented by `rust_name`.
    pub fn task(kind: &'static str, rust_name: &'static str) -> (t: ClearAllWithStatusTag)
        ensures
            t.status is None && t.task == Some((kind, rust_name)),
    {
        ClearAllWithStatusTag { status: None, task: Some((kind, rust_name)) }
    }

    /// The tasks with `status`.
    pub fn status(status: TaskStatus) -> (t: ClearAllWithStatusTag)
        ensures
            t.status == Some(status) && t.task is None,
    {
        ClearAllWithStatusTag { status: Some(status), task: None }
    }
}

} // verus!
