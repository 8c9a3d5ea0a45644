//! What a task type has unless it says otherwise.

use vstd::prelude::*;
use crate::tasks::time::TimeDelta;
use crate::tasks::trigger::TaskTrigger;
use crate::tasks_schema::task::TaskPriority;

verus! {

/// Retries before a task is marked failed, unless its type says otherwise.
pub const DEFAULT_MAX_RETRIES: u16 = 5u16;

/// How long a run may take, unless the task's type says otherwise: ten minutes.
pub fn default_timeout() -> (d: TimeDelta)
    ensures
        d.spec_millis() == 10 * 60000,
{
    TimeDelta::minutes(10)
}

/// What makes a task run, unless its type says otherwise: nothing but
/// being scheduled.
pub fn default_trigger() -> (t: TaskTrigger)
    ensures
        t == TaskTrigger::OnDemand,
{
    TaskTrigger::OnDemand
}

/// A task type's priority, unless it says otherwise: `Medium`.
pub fn default_priority() -> (p: TaskPriority)
    ensures
        p == TaskPriority::Medium,
{
    TaskPriority::Medium
}

/// Whether the tasks of a type are dropped at start, unless it says otherwise: no.
pub fn default_is_temporary() -> (r: bool)
    ensures
        !r,
{
    false
}

} // verus!
