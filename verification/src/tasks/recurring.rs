//! The state of a task that runs again by itself.

use vstd::prelude::*;
use crate::tasks::trigger::{TaskTrigger, spec_upcoming};
use crate::tasks_schema::task::TaskPriority;

verus! {

/// A recurring task: its configuration, and whether it is blocked, when it
/// is due next and whether it runs now.
///
/// A blocked task does not run on its own: it failed, and was queued to
/// run once at a later time instead.
#[derive(Debug)]
pub struct RecurringTask {
    blocked: bool,
    deadline: Option<i64>,
    running: bool,
    kind: String,
    rust_name: String,
    priority: TaskPriority,
    trigger: TaskTrigger,
}

impl RecurringTask {
    /// The task's type.
    pub closed spec fn spec_kind(&self) -> Seq<char> {
        self.kind@
    }

    /// The name of the Rust type that implements the task.
    pub closed spec fn spec_rust_name(&self) -> Seq<char> {
        self.rust_name@
    }

    /// Whether the task is blocked.
    pub closed spec fn spec_blocked(&self) -> bool {
        self.blocked
    }

    /// When the task is due next, if it is.
    pub closed spec fn spec_deadline(&self) -> Option<i64> {
        self.deadline
    }

    /// Whether the task runs now.
    pub closed spec fn spec_running(&self) -> bool {
        self.running
    }

    /// The task's priority.
    pub closed spec fn spec_priority(&self) -> TaskPriority {
        self.priority
    }

    /// What makes the task run.
    pub closed spec fn spec_trigger(&self) -> TaskTrigger {
        self.trigger
    }

    /// A recurring task that is neither blocked, due nor running.
    pub fn new(kind: String, rust_name: String, priority: TaskPriority, trigger: TaskTrigger) -> (t: RecurringTask)
        ensures
            !t.spec_blocked(),
            t.spec_deadline() is None,
            !t.spec_running(),
            t.spec_kind() == kind@,
            t.spec_rust_name() == rust_name@,
            t.spec_priority() == priority,
            t.spec_trigger() == trigger,
    {
        RecurringTask { blocked: false, deadline: None, running: false, kind, rust_name, priority, trigger }
    }

    /// The task's type.
    pub fn kind(&self) -> (r: &str)
        ensures
            r@ == self.spec_kind(),
    {
        self.kind.as_str()
    }

    /// The name of the Rust type that implements the task.
    pub fn rust_name(&self) -> (r: &str)
        ensures
            r@ == self.spec_rust_name(),
    {
        self.rust_name.as_str()
    }

    /// Whether the task is blocked.
    pub fn is_blocked(&self) -> (r: bool)
        ensures
            r == self.spec_blocked(),
    {
        self.blocked
    }

    /// Blocks or unblocks the task; nothing else changes.
    pub fn set_blocked(&mut self, value: bool)
        ensures
            final(self).spec_blocked() == value,
            final(self).spec_deadline() == old(self).spec_deadline(),
            final(self).spec_running() == old(self).spec_running(),
            final(self).spec_priority() == old(self).spec_priority(),
            final(self).spec_trigger() == old(self).spec_trigger(),
            final(self).spec_kind() == old(self).spec_kind(),
            final(self).spec_rust_name() == old(self).spec_rust_name(),
    {
        self.blocked = value;
    }

    /// Whether the task runs now.
    pub fn is_running(&self) -> (r: bool)
        ensures
            r == self.spec_running(),
    {
        self.running
    }

    /// Marks the task running or not; nothing else changes.
    pub fn set_running(&mut self, value: bool)
        ensures
            final(self).spec_running() == value,
            final(self).spec_blocked() == old(self).spec_blocked(),
            final(self).spec_deadline() == old(self).spec_deadline(),
            final(self).spec_priority() == old(self).spec_priority(),
            final(self).spec_trigger() == old(self).spec_trigger(),
            final(self).spec_kind() == old(self).spec_kind(),
            final(self).spec_rust_name() == old(self).spec_rust_name(),
    {
        self.running = value;
    }

    /// The task as it is, but marked running or not.
    pub closed spec fn with_running_flag(self, value: bool) -> RecurringTask {
        RecurringTask { running: value, ..self }
    }

    /// Runs `f` on the task marked running, and marks it not running once
    /// `f` returns, whatever the flag was before; nothing else changes.
    pub fn running_guard<R, F: FnOnce(&RecurringTask) -> R>(&mut self, f: F) -> (r: R)
        requires
            f.requires((&old(self).with_running_flag(true),)),
        ensures
            f.ensures((&old(self).with_running_flag(true),), r),
            *final(self) == old(self).with_running_flag(false),
            !final(self).spec_running(),
    {
        self.running = true;
        let r = f(&*self);
        self.running = false;
        r
    }

    /// While a running guard holds, the task reads as running; once it
    /// ends, as not running; neither changes anything else of the task.
    pub proof fn law_running_guard_scope(self)
        ensures
            self.with_running_flag(true).spec_running(),
            !self.with_running_flag(false).spec_running(),
            forall|v: bool| {
                let t = #[trigger] self.with_running_flag(v);
                &&& t.spec_blocked() == self.spec_blocked()
                &&& t.spec_deadline() == self.spec_deadline()
                &&& t.spec_priority() == self.spec_priority()
                &&& t.spec_trigger() == self.spec_trigger()
                &&& t.spec_kind() == self.spec_kind()
                &&& t.spec_rust_name() == self.spec_rust_name()
            },
    {
    }

    /// When the task is due next, if it is.
    pub fn deadline(&self) -> (r: Option<i64>)
        ensures
            r == self.spec_deadline(),
    {
        self.deadline
    }

    /// The task's priority.
    pub fn priority(&self) -> (r: TaskPriority)
        ensures
            r == self.spec_priority(),
    {
        self.priority
    }

    /// What makes the task run.
    pub fn trigger(&self) -> (r: &TaskTrigger)
        ensures
            *r == self.spec_trigger(),
    {
        &self.trigger
    }

    /// Moves the deadline to when the trigger next fires after `now`; a
    /// blocked task keeps its deadline.
    pub fn update_deadline(&mut self, now: i64)
        ensures
            final(self).spec_deadline() == (if old(self).spec_blocked() {
                old(self).spec_deadline()
            } else {
                spec_upcoming(old(self).spec_trigger(), now)
            }),
            final(self).spec_blocked() == old(self).spec_blocked(),
            final(self).spec_running() == old(self).spec_running(),
            final(self).spec_priority() == old(self).spec_priority(),
            final(self).spec_trigger() == old(self).spec_trigger(),
            final(self).spec_kind() == old(self).spec_kind(),
            final(self).spec_rust_name() == old(self).spec_rust_name(),
    {
        if self.blocked {
            return;
        }
        self.deadline = self.trigger.upcoming_at(now);
    }
}

} // verus!
