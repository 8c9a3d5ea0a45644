//! The queue worker's settings.

use vstd::prelude::*;
use crate::nonzero::{NonZeroU64, NonZeroUsize};
use crate::tasks::time::TimeDelta;
use crate::tasks_schema::worker_id::WorkerId;

verus! {

/// Which worker this is, how much it runs at once, how often a task is
/// retried and when a running task counts as stalled.
#[derive(Clone, Copy, Debug)]
pub struct Settings {
    id: WorkerId,
    max_running_tasks: NonZeroUsize,
    max_task_retries: u16,
    queued_tasks_per_batch: NonZeroU64,
    stalled_tasks_threshold: TimeDelta,
}

impl Settings {
    pub closed spec fn spec_id(&self) -> WorkerId {
        self.id
    }

    pub closed spec fn spec_max_running_tasks(&self) -> usize {
        self.max_running_tasks.value()
    }

    pub closed spec fn spec_max_task_retries(&self) -> u16 {
        self.max_task_retries
    }

    pub closed spec fn spec_queued_tasks_per_batch(&self) -> u64 {
        self.queued_tasks_per_batch.value()
    }

    pub closed spec fn spec_stalled_tasks_threshold(&self) -> TimeDelta {
        self.stalled_tasks_threshold
    }

    /// Settings with the given values.
    pub fn new(
        id: WorkerId,
        max_running_tasks: NonZeroUsize,
        max_task_retries: u16,
        queued_tasks_per_batch: NonZeroU64,
        stalled_tasks_threshold: TimeDelta,
    ) -> (s: Settings)
        ensures
            s.spec_id() == id,
            s.spec_max_running_tasks() == max_running_tasks.value(),
            s.spec_max_task_retries() == max_task_retries,
            s.spec_queued_tasks_per_batch() == queued_tasks_per_batch.value(),
            s.spec_stalled_tasks_threshold() == stalled_tasks_threshold,
    {
        Settings { id, max_running_tasks, max_task_retries, queued_tasks_per_batch, stalled_tasks_threshold }
    }

    /// Which worker this is.
    pub fn id(self) -> (r: WorkerId)
        ensures
            r == self.spec_id(),
    {
        self.id
    }

    /// How many tasks run at once at most; at least one.
    pub fn max_running_tasks(&self) -> (r: usize)
        ensures
            r == self.spec_max_running_tasks(),
            r >= 1,
    {
        self.max_running_tasks.get()
    }

    /// How often a failed task is retried.
    pub fn max_task_retries(&self) -> (r: u16)
        ensures
            r == self.spec_max_task_retries(),
    {
        self.max_task_retries
    }

    /// How many queued tasks one pull takes; at least one.
    pub fn queued_tasks_per_batch(&self) -> (r: u64)
        ensures
            r == self.spec_queued_tasks_per_batch(),
            r >= 1,
    {
        self.queued_tasks_per_batch.get()
    }

    /// How long a task may run before it counts as stalled.
    pub fn stalled_tasks_threshold(&self) -> (r: TimeDelta)
        ensures
            r == self.spec_stalled_tasks_threshold(),
    {
        self.stalled_tasks_threshold
    }
}

impl Default for Settings {
    /// Worker 1 of 1, ten tasks at once, three retries, fifty tasks a pull,
    /// stalled after thirty minutes.
    fn default() -> (s: Settings)
        ensures
            s.spec_id().spec_assigned() == 1,
            s.spec_id().spec_total() == 1,
            s.spec_max_running_tasks() == 10,
            s.spec_max_task_retries() == 3,
            s.spec_queued_tasks_per_batch() == 50,
            s.spec_stalled_tasks_threshold().spec_millis() == 30 * 60000,
    {
        Settings {
            id: WorkerId::one(),
            max_running_tasks: NonZeroUsize::new(10).unwrap(),
            max_task_retries: 3,
            queued_tasks_per_batch: NonZeroU64::new(50).unwrap(),
            stalled_tasks_threshold: TimeDelta::minutes(30),
        }
    }
}

} // verus!
