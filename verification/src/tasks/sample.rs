//! A recurring task that does nothing, for trying the queue out.

use vstd::prelude::*;
use crate::tasks::time::TimeDelta;
use crate::tasks::trigger::TaskTrigger;

verus! {

/// A task that runs every five seconds and always completes.
#[derive(Clone, Copy, Debug)]
pub struct SampleRecurringTask;

impl SampleRecurringTask {
    /// The name the task is registered and stored under.
    pub fn kind() -> (r: &'static str)
        ensures
            r@ == "eden_tasks::registry::SampleTask"@,
    {
        "eden_tasks::registry::SampleTask"
    }

    /// The task runs every five seconds.
    pub fn trigger() -> (t: TaskTrigger)
        ensures
            t matches TaskTrigger::Interval(d) && d.spec_millis() == 5000,
    {
        TaskTrigger::interval(TimeDelta::seconds(5))
    }
}

} // verus!
