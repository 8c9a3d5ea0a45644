//! What a worker decides when a task is scheduled or queued.

use vstd::prelude::*;
use crate::tasks::errors::QueueRefusal;
use crate::tasks::pending::{Scheduled, scheduled_time};
use crate::tasks::registry::{TaskRegistry, blocked_kind, same_but_blocked};
use crate::tasks::recurring::RecurringTask;
use crate::tasks::trigger::{TaskTrigger, spec_is_recurring};
use crate::tasks_schema::task::{InsertTaskForm, TaskRawData, TaskStatus};

verus! {

/// Whether a task with this trigger may be scheduled by hand: only one
/// that does not recur.
pub fn schedule_allowed(trigger: &TaskTrigger) -> (r: Result<(), QueueRefusal>)
    ensures
        r is Ok <==> !spec_is_recurring(*trigger),
        r matches Err(e) ==> e == QueueRefusal::RecurringNotAllowed,
{
    if trigger.is_recurring() {
        Err(QueueRefusal::RecurringNotAllowed)
    } else {
        Ok(())
    }
}

impl TaskRegistry {
    /// Prepares to queue a task of the type `data.kind`, scheduled as
    /// `scheduled` counted from `now`, with `attempts` attempts made.
    ///
    /// A type that is not registered is refused. A recurring type is
    /// blocked from running on its own meanwhile. The task is stored with
    /// its type's priority, as periodic when the type is recurring, and as
    /// `Queued`.
    pub fn prepare_queue(
        &mut self,
        id: Option<uuid::Uuid>,
        data: TaskRawData,
        scheduled: Scheduled,
        now: i64,
        attempts: u16,
    ) -> (r: Result<InsertTaskForm, QueueRefusal>)
        requires
            old(self).well_formed(),
            scheduled_time(scheduled, now) is Some,
        ensures
            final(self).well_formed(),
            final(self).spec_items() == old(self).spec_items(),
            r is Err <==> !old(self).spec_items().contains_key(data.kind@),
            r matches Err(e) ==> e == QueueRefusal::NotRegistered && final(self).spec_recurring() == old(self).spec_recurring(),
            r matches Ok(f) ==> {
                let item = old(self).spec_items()[data.kind@];
                &&& f.id == id
                &&& f.data == data
                &&& f.deadline == scheduled_time(scheduled, now)->0
                &&& f.attempts == attempts as i32
                &&& f.periodic == item.is_recurring
                &&& f.priority == item.priority
                &&& f.status == TaskStatus::Queued
                &&& item.is_recurring ==> blocked_kind(old(self).spec_recurring(), final(self).spec_recurring(), data.kind@, true)
                &&& !item.is_recurring ==> final(self).spec_recurring() == old(self).spec_recurring()
            },
    {
        let item = match self.find_item(data.kind.as_str()) {
            Some(item) => item,
            None => return Err(QueueRefusal::NotRegistered),
        };
        let deadline: i64 = match scheduled.timestamp_at(now) {
            Some(t) => t,
            None => {
                assert(false);
                now
            },
        };
        if item.is_recurring {
            self.block_for_recurring_task(item.kind.as_str());
        }
        let attempts: i32 = attempts as i32;
        Ok(InsertTaskForm {
            id,
            data,
            deadline,
            attempts,
            periodic: item.is_recurring,
            priority: item.priority,
            status: TaskStatus::Queued,
        })
    }
}

/// `kind` is one of `kinds`.
pub open spec fn listed(kinds: Seq<String>, kind: Seq<char>) -> bool {
    exists|k: int| 0 <= k < kinds.len() && #[trigger] kinds[k]@ == kind
}

/// The recurring tasks of `after` are those of `before`, blocked exactly
/// when their type is one of `kinds`.
pub open spec fn blocked_exactly(before: Seq<RecurringTask>, after: Seq<RecurringTask>, kinds: Seq<String>) -> bool {
    &&& after.len() == before.len()
    &&& forall|j: int| 0 <= j < before.len() ==> {
        &&& same_but_blocked(before[j], #[trigger] after[j])
        &&& after[j].spec_blocked() == listed(kinds, before[j].spec_kind())
    }
}

impl TaskRegistry {
    /// Blocks exactly the recurring tasks of the types in `queued_kinds`,
    /// the types of the periodic tasks waiting in the queue: a recurring
    /// task that was queued to run later must not also run on its own.
    pub fn update_blacklist(&mut self, queued_kinds: &Vec<String>)
        requires
            old(self).well_formed(),
        ensures
            final(self).well_formed(),
            final(self).spec_items() == old(self).spec_items(),
            blocked_exactly(old(self).spec_recurring(), final(self).spec_recurring(), queued_kinds@),
    {
        let ghost before = self.spec_recurring();
        self.unblock_all_recurring_tasks();
        let mut i: usize = 0;
        while i < queued_kinds.len()
            invariant
                self.well_formed(),
                self.spec_items() == old(self).spec_items(),
                before == old(self).spec_recurring(),
                i <= queued_kinds@.len(),
                self.spec_recurring().len() == before.len(),
                forall|j: int| 0 <= j < before.len() ==> {
                    &&& same_but_blocked(before[j], #[trigger] self.spec_recurring()[j])
                    &&& self.spec_recurring()[j].spec_blocked() == listed(queued_kinds@.take(i as int), before[j].spec_kind())
                },
            decreases queued_kinds.len() - i,
        {
            let ghost mid = self.spec_recurring();
            self.block_for_recurring_task(queued_kinds[i].as_str());
            proof {
                let kinds = queued_kinds@;
                assert forall|j: int| 0 <= j < before.len() implies {
                    &&& same_but_blocked(before[j], #[trigger] self.spec_recurring()[j])
                    &&& self.spec_recurring()[j].spec_blocked() == listed(kinds.take(i + 1), before[j].spec_kind())
                } by {
                    assert(same_but_blocked(mid[j], self.spec_recurring()[j]));
                    let kind = before[j].spec_kind();
                    if listed(kinds.take(i as int), kind) {
                        let k = choose|k: int| 0 <= k < kinds.take(i as int).len() && #[trigger] kinds.take(i as int)[k]@ == kind;
                        assert(kinds.take(i + 1)[k]@ == kind);
                    }
                    if kinds[i as int]@ == kind {
                        assert(kinds.take(i + 1)[i as int]@ == kind);
                    }
                    if listed(kinds.take(i + 1), kind) {
                        let k = choose|k: int| 0 <= k < kinds.take(i + 1).len() && #[trigger] kinds.take(i + 1)[k]@ == kind;
                        if k < i {
                            assert(kinds.take(i as int)[k]@ == kind);
                        }
                    }
                }
            }
            i = i + 1;
        }
        proof {
            assert(queued_kinds@.take(i as int) =~= queued_kinds@);
        }
    }
}

} // verus!
