//! The registry of task types a worker knows.

use vstd::prelude::*;
use crate::tasks::actions::{PerformTaskAction, should_unblock};
use crate::tasks::pending::PendingTask;
use crate::tasks::recurring::RecurringTask;
use crate::tasks::time::now_micros;
use crate::text::text_eq;
use crate::tasks::trigger::{TaskTrigger, spec_is_recurring, spec_upcoming};
use crate::tasks_schema::task::TaskPriority;

verus! {

/// `dashmap::DashMap`, the concurrent map that holds the registry's entries.
#[verifier::external_type_specification]
#[verifier::external_body]
#[verifier::reject_recursive_types(K)]
#[verifier::reject_recursive_types(V)]
#[verifier::reject_recursive_types(S)]
pub struct ExDashMap<K, V, S>(dashmap::DashMap<K, V, S>);

/// What the registry knows of a task type.
#[derive(Clone, Debug)]
pub struct RegistryEntry {
    pub kind: String,
    pub is_recurring: bool,
    pub is_temporary: bool,
    pub priority: TaskPriority,
    pub rust_name: String,
}

/// A registry entry as plain values.
pub struct RegistryEntryView {
    pub kind: Seq<char>,
    pub is_recurring: bool,
    pub is_temporary: bool,
    pub priority: TaskPriority,
    pub rust_name: Seq<char>,
}

impl View for RegistryEntry {
    type V = RegistryEntryView;

    open spec fn view(&self) -> RegistryEntryView {
        RegistryEntryView {
            kind: self.kind@,
            is_recurring: self.is_recurring,
            is_temporary: self.is_temporary,
            priority: self.priority,
            rust_name: self.rust_name@,
        }
    }
}

/// The map from task types to registry entries.
pub type EntryMap = dashmap::DashMap<String, RegistryEntry>;

/// The entries of a registry map, by task type.
pub uninterp spec fn entries_of(m: EntryMap) -> Map<Seq<char>, RegistryEntryView>;

/// An empty map.
///
/// Trusted: calls `DashMap::new`, which makes a map with no entries.
#[verifier::external_body]
fn entries_new() -> (m: EntryMap)
    ensures
        entries_of(m).dom() == Set::<Seq<char>>::empty(),
{
    dashmap::DashMap::new()
}

/// Puts `value` under `key`.
///
/// Trusted: calls `DashMap::insert`, which replaces the value under `key`
/// or adds it; the previous value it returns is dropped.
#[verifier::external_body]
fn entries_insert(m: &mut EntryMap, key: String, value: RegistryEntry)
    ensures
        entries_of(*final(m)) == entries_of(*old(m)).insert(key@, value@),
{
    m.insert(key, value);
}

/// The entry under `key`, copied.
///
/// Trusted: calls `DashMap::get` and clones the entry the guard points to;
/// the clone, derived, copies every field.
#[verifier::external_body]
fn entries_get(m: &EntryMap, key: &str) -> (r: Option<RegistryEntry>)
    ensures
        r is Some <==> entries_of(*m).contains_key(key@),
        r matches Some(e) ==> e@ == entries_of(*m)[key@],
{
    m.get(key).map(|e| e.value().clone())
}

/// Whether an entry lies under `key`.
///
/// Trusted: calls `DashMap::contains_key`.
#[verifier::external_body]
fn entries_contains(m: &EntryMap, key: &str) -> (r: bool)
    ensures
        r == entries_of(*m).contains_key(key@),
{
    m.contains_key(key)
}

/// `pair` is a key of `entries` with its entry.
pub open spec fn listed_in(entries: Map<Seq<char>, RegistryEntryView>, pair: (String, RegistryEntry)) -> bool {
    entries.contains_key(pair.0@) && entries[pair.0@] == pair.1@
}

/// Every entry with its key, in the order the map walks them.
///
/// Trusted: calls `DashMap::iter` and copies each key and entry. The order
/// depends on how the keys hash, so only what holds of every order is
/// claimed: each key appears once, with its entry, and every key appears.
#[verifier::external_body]
fn entries_all(m: &EntryMap) -> (r: Vec<(String, RegistryEntry)>)
    ensures
        forall|i: int| 0 <= i < r@.len() ==> listed_in(entries_of(*m), #[trigger] r@[i]),
        forall|i: int, j: int| 0 <= i < j < r@.len() ==> r@[i].0@ != r@[j].0@,
        forall|k: Seq<char>| #[trigger] entries_of(*m).contains_key(k) ==> exists|i: int| 0 <= i < r@.len() && r@[i].0@ == k,
{
    m.iter().map(|e| (e.key().clone(), e.value().clone())).collect()
}

/// The task types a worker knows, and the state of its recurring tasks.
pub struct TaskRegistry {
    items: EntryMap,
    recurring_tasks: Vec<RecurringTask>,
}

impl TaskRegistry {
    /// The known task types, by type.
    pub closed spec fn spec_items(&self) -> Map<Seq<char>, RegistryEntryView> {
        entries_of(self.items)
    }

    /// The recurring tasks, in the order they were registered.
    pub closed spec fn spec_recurring(&self) -> Seq<RecurringTask> {
        self.recurring_tasks@
    }

    /// Each entry lies under its own type; recurring tasks are registered
    /// recurring types, each once.
    pub open spec fn well_formed(&self) -> bool {
        &&& forall|k: Seq<char>| #[trigger] self.spec_items().contains_key(k) ==> self.spec_items()[k].kind == k
        &&& forall|i: int| 0 <= i < self.spec_recurring().len() ==> {
            &&& #[trigger] self.spec_items().contains_key(self.spec_recurring()[i].spec_kind())
            &&& self.spec_items()[self.spec_recurring()[i].spec_kind()].is_recurring
        }
        &&& forall|i: int, j: int| 0 <= i < j < self.spec_recurring().len()
            ==> self.spec_recurring()[i].spec_kind() != self.spec_recurring()[j].spec_kind()
    }

    /// A registry that knows no task type.
    pub fn new() -> (r: TaskRegistry)
        ensures
            r.well_formed(),
            r.spec_items() == Map::<Seq<char>, RegistryEntryView>::empty(),
            r.spec_recurring().len() == 0,
    {
        TaskRegistry { items: entries_new(), recurring_tasks: Vec::new() }
    }

    /// Whether the task type `kind` is registered.
    pub fn is_task_registered(&self, kind: &str) -> (r: bool)
        ensures
            r == self.spec_items().contains_key(kind@),
    {
        entries_contains(&self.items, kind)
    }

    /// What the registry knows of the task type `kind`.
    pub fn find_item(&self, kind: &str) -> (r: Option<RegistryEntry>)
        ensures
            r is Some <==> self.spec_items().contains_key(kind@),
            r matches Some(e) ==> e@ == self.spec_items()[kind@],
    {
        entries_get(&self.items, kind)
    }

    /// Registers the task type `kind`, implemented by the Rust type
    /// `rust_name`. A type whose trigger is recurring also gets a recurring
    /// task, neither blocked nor due. Registering a type twice panics;
    /// `requires` leaves that out.
    pub fn register_task(
        &mut self,
        kind: &str,
        rust_name: &str,
        priority: TaskPriority,
        trigger: TaskTrigger,
        is_temporary: bool,
    )
        requires
            old(self).well_formed(),
            !old(self).spec_items().contains_key(kind@),
        ensures
            final(self).well_formed(),
            final(self).spec_items().contains_key(kind@),
            final(self).spec_items() == old(self).spec_items().insert(kind@, RegistryEntryView {
                kind: kind@,
                is_recurring: spec_is_recurring(trigger),
                is_temporary,
                priority,
                rust_name: rust_name@,
            }),
            spec_is_recurring(trigger) ==> {
                &&& final(self).spec_recurring().len() == old(self).spec_recurring().len() + 1
                &&& final(self).spec_recurring().drop_last() == old(self).spec_recurring()
                &&& final(self).spec_recurring().last().spec_kind() == kind@
                &&& final(self).spec_recurring().last().spec_rust_name() == rust_name@
                &&& final(self).spec_recurring().last().spec_priority() == priority
                &&& final(self).spec_recurring().last().spec_trigger() == trigger
                &&& !final(self).spec_recurring().last().spec_blocked()
                &&& !final(self).spec_recurring().last().spec_running()
                &&& final(self).spec_recurring().last().spec_deadline() is None
            },
            !spec_is_recurring(trigger) ==> final(self).spec_recurring() == old(self).spec_recurring(),
    {
        let is_recurring: bool = trigger.is_recurring();
        let entry = RegistryEntry {
            kind: kind.to_owned(),
            is_recurring,
            is_temporary,
            priority,
            rust_name: rust_name.to_owned(),
        };
        let ghost old_recurring = self.recurring_tasks@;
        entries_insert(&mut self.items, kind.to_owned(), entry);
        assert forall|i: int| 0 <= i < old_recurring.len() implies old_recurring[i].spec_kind() != kind@ by {
            assert(old(self).spec_items().contains_key(old_recurring[i].spec_kind()));
        }
        if is_recurring {
            let task = RecurringTask::new(kind.to_owned(), rust_name.to_owned(), priority, trigger);
            let ghost before = self.recurring_tasks@;
            self.recurring_tasks.push(task);
            assert(self.recurring_tasks@.drop_last() =~= before);
        }
        assert(forall|k: Seq<char>| #[trigger] self.spec_items().contains_key(k) ==> self.spec_items()[k].kind == k);
        assert(forall|i: int| 0 <= i < self.spec_recurring().len() ==> {
            &&& #[trigger] self.spec_items().contains_key(self.spec_recurring()[i].spec_kind())
            &&& self.spec_items()[self.spec_recurring()[i].spec_kind()].is_recurring
        });
        assert(forall|i: int, j: int| 0 <= i < j < self.spec_recurring().len()
            ==> self.spec_recurring()[i].spec_kind() != self.spec_recurring()[j].spec_kind());
    }

    /// The recurring tasks, in the order they were registered.
    pub fn recurring_tasks(&self) -> (r: &Vec<RecurringTask>)
        ensures
            r@ == self.spec_recurring(),
    {
        &self.recurring_tasks
    }

    /// The position of the first recurring task of type `kind`.
    fn position_of(&self, kind: &str) -> (r: Option<usize>)
        ensures
            r matches Some(i) ==> i < self.spec_recurring().len()
                && self.spec_recurring()[i as int].spec_kind() == kind@
                && forall|j: int| 0 <= j < i ==> self.spec_recurring()[j].spec_kind() != kind@,
            r is None ==> forall|j: int| 0 <= j < self.spec_recurring().len()
                ==> self.spec_recurring()[j].spec_kind() != kind@,
    {
        let mut i: usize = 0;
        while i < self.recurring_tasks.len()
            invariant
                i <= self.recurring_tasks@.len(),
                forall|j: int| 0 <= j < i ==> self.recurring_tasks@[j].spec_kind() != kind@,
            decreases self.recurring_tasks.len() - i,
        {
            if text_eq(self.recurring_tasks[i].kind(), kind) {
                return Some(i);
            }
            i = i + 1;
        }
        None
    }
}

/// A registered task type is found with what it was registered with, and
/// every other type is found, or not, as before.
pub proof fn law_registered_type_is_found(before: TaskRegistry, after: TaskRegistry, kind: Seq<char>, entry: RegistryEntryView)
    requires
        after.spec_items() == before.spec_items().insert(kind, entry),
    ensures
        after.spec_items().contains_key(kind),
        after.spec_items()[kind] == entry,
        forall|k: Seq<char>| k != kind ==> {
            &&& (#[trigger] after.spec_items().contains_key(k)) == before.spec_items().contains_key(k)
            &&& after.spec_items().contains_key(k) ==> after.spec_items()[k] == before.spec_items()[k]
        },
{
}

/// `b` is `a` with perhaps another blocked flag.
pub open spec fn same_but_blocked(a: RecurringTask, b: RecurringTask) -> bool {
    &&& a.spec_kind() == b.spec_kind()
    &&& a.spec_rust_name() == b.spec_rust_name()
    &&& a.spec_deadline() == b.spec_deadline()
    &&& a.spec_running() == b.spec_running()
    &&& a.spec_priority() == b.spec_priority()
    &&& a.spec_trigger() == b.spec_trigger()
}

/// `b` is `a` with perhaps another deadline.
pub open spec fn same_but_deadline(a: RecurringTask, b: RecurringTask) -> bool {
    &&& a.spec_kind() == b.spec_kind()
    &&& a.spec_rust_name() == b.spec_rust_name()
    &&& a.spec_blocked() == b.spec_blocked()
    &&& a.spec_running() == b.spec_running()
    &&& a.spec_priority() == b.spec_priority()
    &&& a.spec_trigger() == b.spec_trigger()
}

/// The recurring tasks of `after` are those of `before`, the task of type
/// `kind` (if any) blocked or not as `value` says.
pub open spec fn blocked_kind(before: Seq<RecurringTask>, after: Seq<RecurringTask>, kind: Seq<char>, value: bool) -> bool {
    &&& after.len() == before.len()
    &&& forall|j: int| 0 <= j < before.len() ==> {
        &&& same_but_blocked(before[j], #[trigger] after[j])
        &&& after[j].spec_blocked() == (if before[j].spec_kind() == kind { value } else { before[j].spec_blocked() })
    }
}

/// The recurring tasks of `after` are those of `before`, each that is not
/// blocked due when its trigger next fires after `t`.
pub open spec fn deadlines_moved(before: Seq<RecurringTask>, after: Seq<RecurringTask>, t: i64) -> bool {
    &&& after.len() == before.len()
    &&& forall|j: int| 0 <= j < before.len() ==> {
        &&& same_but_deadline(before[j], #[trigger] after[j])
        &&& after[j].spec_deadline() == (if before[j].spec_blocked() {
            before[j].spec_deadline()
        } else {
            spec_upcoming(before[j].spec_trigger(), t)
        })
    }
}

/// The recurring task of type `kind` is due: not blocked, not running,
/// with a deadline that `now` reached.
pub open spec fn is_due(t: RecurringTask, now: i64) -> bool {
    &&& !t.spec_blocked()
    &&& !t.spec_running()
    &&& t.spec_deadline() matches Some(d) && now >= d
}

/// The pending tasks for the due recurring tasks of `ts`, in order.
pub open spec fn due_tasks(ts: Seq<RecurringTask>, now: i64) -> Seq<(Seq<char>, i64, TaskPriority)>
    decreases ts.len(),
{
    if ts.len() == 0 {
        Seq::empty()
    } else {
        let rest = due_tasks(ts.drop_last(), now);
        let t = ts.last();
        if is_due(t, now) {
            rest.push((t.spec_kind(), t.spec_deadline()->0, t.spec_priority()))
        } else {
            rest
        }
    }
}

/// The triple that stands for the recurring task `t` once it is due.
pub open spec fn due_triple(t: RecurringTask) -> (Seq<char>, i64, TaskPriority) {
    (t.spec_kind(), t.spec_deadline()->0, t.spec_priority())
}

/// Exactly the recurring tasks that are due become pending: each pending
/// one is a task that is not blocked, not running and past its deadline,
/// and each such task is pending.
pub proof fn law_due_tasks_are_exactly_the_due(ts: Seq<RecurringTask>, now: i64)
    ensures
        forall|i: int| 0 <= i < due_tasks(ts, now).len() ==> exists|j: int|
            0 <= j < ts.len() && is_due(ts[j], now) && #[trigger] due_tasks(ts, now)[i] == due_triple(ts[j]),
        forall|j: int| 0 <= j < ts.len() && is_due(#[trigger] ts[j], now) ==> exists|i: int|
            0 <= i < due_tasks(ts, now).len() && due_tasks(ts, now)[i] == due_triple(ts[j]),
    decreases ts.len(),
{
    if ts.len() > 0 {
        let prefix = ts.drop_last();
        law_due_tasks_are_exactly_the_due(prefix, now);
        let rest = due_tasks(prefix, now);
        let all = due_tasks(ts, now);
        assert forall|i: int| 0 <= i < all.len() implies exists|j: int|
            0 <= j < ts.len() && is_due(ts[j], now) && #[trigger] all[i] == due_triple(ts[j]) by {
            if i < rest.len() {
                assert(all[i] == rest[i]);
                let j = choose|j: int| 0 <= j < prefix.len() && is_due(prefix[j], now) && rest[i] == due_triple(prefix[j]);
                assert(ts[j] == prefix[j]);
            } else {
                assert(ts[ts.len() - 1] == ts.last());
            }
        }
        assert forall|j: int| 0 <= j < ts.len() && is_due(#[trigger] ts[j], now) implies exists|i: int|
            0 <= i < all.len() && all[i] == due_triple(ts[j]) by {
            if j < ts.len() - 1 {
                assert(prefix[j] == ts[j]);
                let i = choose|i: int| 0 <= i < rest.len() && rest[i] == due_triple(prefix[j]);
                assert(all[i] == rest[i]);
            } else {
                assert(all[all.len() - 1] == due_triple(ts.last()));
            }
        }
    }
}

/// A pending task as the triple `(type, deadline, priority)`.
pub open spec fn pending_triple(p: PendingTask) -> (Seq<char>, i64, TaskPriority) {
    match p {
        PendingTask::Recurring { deadline, kind, priority } => (kind@, deadline, priority),
        PendingTask::Queued(t) => (t.data.kind@, t.deadline, t.priority),
    }
}

impl TaskRegistry {
    fn set_blocked_at(&mut self, i: usize, value: bool)
        requires
            old(self).well_formed(),
            i < old(self).spec_recurring().len(),
        ensures
            final(self).well_formed(),
            final(self).spec_items() == old(self).spec_items(),
            final(self).spec_recurring().len() == old(self).spec_recurring().len(),
            same_but_blocked(old(self).spec_recurring()[i as int], final(self).spec_recurring()[i as int]),
            final(self).spec_recurring()[i as int].spec_blocked() == value,
            forall|j: int| 0 <= j < old(self).spec_recurring().len() && j != i
                ==> #[trigger] final(self).spec_recurring()[j] == old(self).spec_recurring()[j],
    {
        self.recurring_tasks[i].set_blocked(value);
        assert(forall|k: Seq<char>| #[trigger] self.spec_items().contains_key(k) ==> self.spec_items()[k].kind == k);
        assert(forall|j: int| 0 <= j < self.spec_recurring().len() ==> {
            &&& #[trigger] self.spec_items().contains_key(self.spec_recurring()[j].spec_kind())
            &&& self.spec_items()[self.spec_recurring()[j].spec_kind()].is_recurring
        });
        assert(forall|a: int, b: int| 0 <= a < b < self.spec_recurring().len()
            ==> self.spec_recurring()[a].spec_kind() != self.spec_recurring()[b].spec_kind());
    }

    /// Lets every recurring task run on its own again.
    pub fn unblock_all_recurring_tasks(&mut self)
        requires
            old(self).well_formed(),
        ensures
            final(self).well_formed(),
            final(self).spec_items() == old(self).spec_items(),
            final(self).spec_recurring().len() == old(self).spec_recurring().len(),
            forall|j: int| 0 <= j < old(self).spec_recurring().len() ==> {
                &&& same_but_blocked(old(self).spec_recurring()[j], #[trigger] final(self).spec_recurring()[j])
                &&& !final(self).spec_recurring()[j].spec_blocked()
            },
    {
        let ghost before = self.recurring_tasks@;
        let mut i: usize = 0;
        while i < self.recurring_tasks.len()
            invariant
                self.well_formed(),
                self.spec_items() == old(self).spec_items(),
                before == old(self).spec_recurring(),
                self.recurring_tasks@.len() == before.len(),
                i <= before.len(),
                forall|j: int| 0 <= j < before.len() ==> same_but_blocked(before[j], #[trigger] self.recurring_tasks@[j]),
                forall|j: int| 0 <= j < i ==> !(#[trigger] self.recurring_tasks@[j]).spec_blocked(),
                forall|j: int| i <= j < before.len() ==> #[trigger] self.recurring_tasks@[j] == before[j],
            decreases self.recurring_tasks.len() - i,
        {
            self.set_blocked_at(i, false);
            i = i + 1;
        }
    }

    /// Blocks the recurring task of type `kind` from running on its own;
    /// without such a task, nothing changes.
    pub fn block_for_recurring_task(&mut self, kind: &str)
        requires
            old(self).well_formed(),
        ensures
            final(self).well_formed(),
            final(self).spec_items() == old(self).spec_items(),
            blocked_kind(old(self).spec_recurring(), final(self).spec_recurring(), kind@, true),
    {
        self.set_blocked_for(kind, true);
    }

    /// Meant to let the recurring task of type `kind` run on its own again,
    /// but it blocks it, as `block_for_recurring_task` does; without such a
    /// task, nothing changes.
    pub fn unblock_for_recurring_task(&mut self, kind: &str)
        requires
            old(self).well_formed(),
        ensures
            final(self).well_formed(),
            final(self).spec_items() == old(self).spec_items(),
            blocked_kind(old(self).spec_recurring(), final(self).spec_recurring(), kind@, true),
    {
        self.set_blocked_for(kind, true);
    }

    /// Blocks or unblocks the recurring task of type `kind`, if there is one.
    pub fn set_blocked_for(&mut self, kind: &str, value: bool)
        requires
            old(self).well_formed(),
        ensures
            final(self).well_formed(),
            final(self).spec_items() == old(self).spec_items(),
            blocked_kind(old(self).spec_recurring(), final(self).spec_recurring(), kind@, value),
    {
        match self.position_of(kind) {
            Some(i) => {
                let ghost before = self.recurring_tasks@;
                self.set_blocked_at(i, value);
                assert forall|j: int| 0 <= j < before.len() implies {
                    &&& same_but_blocked(before[j], #[trigger] self.spec_recurring()[j])
                    &&& self.spec_recurring()[j].spec_blocked() == (if before[j].spec_kind() == kind@ { value } else { before[j].spec_blocked() })
                } by {
                    if j != i {
                        assert(before[j].spec_kind() != before[i as int].spec_kind());
                    }
                }
            },
            None => {},
        }
    }

    /// After a run of a task of type `kind` that asked for `action`: a
    /// blocked recurring task of that type runs on its own again when the
    /// run completed; otherwise nothing changes.
    pub fn unblock_if_completed(&mut self, kind: &str, action: PerformTaskAction)
        requires
            old(self).well_formed(),
        ensures
            final(self).well_formed(),
            final(self).spec_items() == old(self).spec_items(),
            action == PerformTaskAction::Completed ==> blocked_kind(old(self).spec_recurring(), final(self).spec_recurring(), kind@, false),
            action != PerformTaskAction::Completed ==> final(self).spec_recurring() == old(self).spec_recurring(),
    {
        match self.position_of(kind) {
            Some(i) => {
                if should_unblock(self.recurring_tasks[i].is_blocked(), action) {
                    self.set_blocked_for(kind, false);
                } else {
                    proof {
                        if action == PerformTaskAction::Completed {
                            assert forall|j: int| 0 <= j < self.spec_recurring().len() implies
                                (if self.spec_recurring()[j].spec_kind() == kind@ { false } else { self.spec_recurring()[j].spec_blocked() })
                                == self.spec_recurring()[j].spec_blocked() by {
                                if j != i {
                                    assert(self.spec_recurring()[j].spec_kind() != self.spec_recurring()[i as int].spec_kind());
                                }
                            }
                        }
                    }
                }
            },
            None => {},
        }
    }

    /// A recurring task of type `kind` completed at `now`: it stops running
    /// and, unless blocked, is due when its trigger next fires.
    pub fn complete_recurring(&mut self, kind: &str, now: i64)
        requires
            old(self).well_formed(),
        ensures
            final(self).well_formed(),
            final(self).spec_items() == old(self).spec_items(),
            final(self).spec_recurring().len() == old(self).spec_recurring().len(),
            forall|j: int| 0 <= j < old(self).spec_recurring().len() ==> {
                let b = old(self).spec_recurring()[j];
                let a = #[trigger] final(self).spec_recurring()[j];
                if b.spec_kind() == kind@ {
                    &&& a.spec_kind() == b.spec_kind()
                    &&& a.spec_rust_name() == b.spec_rust_name()
                    &&& a.spec_blocked() == b.spec_blocked()
                    &&& a.spec_priority() == b.spec_priority()
                    &&& a.spec_trigger() == b.spec_trigger()
                    &&& !a.spec_running()
                    &&& a.spec_deadline() == (if b.spec_blocked() { b.spec_deadline() } else { spec_upcoming(b.spec_trigger(), now) })
                } else {
                    a == b
                }
            },
    {
        match self.position_of(kind) {
            Some(i) => {
                let ghost before = self.recurring_tasks@;
                self.recurring_tasks[i].set_running(false);
                let ghost middle = self.recurring_tasks@;
                assert(forall|j: int| 0 <= j < before.len() && j != i ==> middle[j] == before[j]);
                self.recurring_tasks[i].update_deadline(now);
                assert(forall|j: int| 0 <= j < before.len() && j != i ==> self.recurring_tasks@[j] == before[j]);
                assert(forall|j: int| 0 <= j < before.len() ==> #[trigger] self.recurring_tasks@[j].spec_kind() == before[j].spec_kind());
                assert forall|j: int| 0 <= j < before.len() && j != i implies before[j].spec_kind() != kind@ by {
                    assert(before[j].spec_kind() != before[i as int].spec_kind());
                }
                assert(forall|k: Seq<char>| #[trigger] self.spec_items().contains_key(k) ==> self.spec_items()[k].kind == k);
                assert(forall|j: int| 0 <= j < self.spec_recurring().len() ==> {
                    &&& #[trigger] self.spec_items().contains_key(self.spec_recurring()[j].spec_kind())
                    &&& self.spec_items()[self.spec_recurring()[j].spec_kind()].is_recurring
                });
                assert(forall|a: int, b: int| 0 <= a < b < self.spec_recurring().len()
                    ==> self.spec_recurring()[a].spec_kind() != self.spec_recurring()[b].spec_kind());
            },
            None => {},
        }
    }

    /// Marks the recurring task of type `kind` running or not, as a run of
    /// it begins or ends.
    pub fn set_running_for(&mut self, kind: &str, value: bool)
        requires
            old(self).well_formed(),
        ensures
            final(self).well_formed(),
            final(self).spec_items() == old(self).spec_items(),
            final(self).spec_recurring().len() == old(self).spec_recurring().len(),
            forall|j: int| 0 <= j < old(self).spec_recurring().len() ==> {
                let b = old(self).spec_recurring()[j];
                let a = #[trigger] final(self).spec_recurring()[j];
                &&& a.spec_kind() == b.spec_kind()
                &&& a.spec_rust_name() == b.spec_rust_name()
                &&& a.spec_blocked() == b.spec_blocked()
                &&& a.spec_deadline() == b.spec_deadline()
                &&& a.spec_priority() == b.spec_priority()
                &&& a.spec_trigger() == b.spec_trigger()
                &&& a.spec_running() == (if b.spec_kind() == kind@ { value } else { b.spec_running() })
            },
    {
        match self.position_of(kind) {
            Some(i) => {
                let ghost before = self.recurring_tasks@;
                self.recurring_tasks[i].set_running(value);
                assert(forall|j: int| 0 <= j < before.len() && j != i ==> self.recurring_tasks@[j] == before[j]);
                assert(forall|j: int| 0 <= j < before.len() ==> #[trigger] self.recurring_tasks@[j].spec_kind() == before[j].spec_kind());
                assert forall|j: int| 0 <= j < before.len() && j != i implies before[j].spec_kind() != kind@ by {
                    assert(before[j].spec_kind() != before[i as int].spec_kind());
                }
                assert(forall|k: Seq<char>| #[trigger] self.spec_items().contains_key(k) ==> self.spec_items()[k].kind == k);
                assert(forall|j: int| 0 <= j < self.spec_recurring().len() ==> {
                    &&& #[trigger] self.spec_items().contains_key(self.spec_recurring()[j].spec_kind())
                    &&& self.spec_items()[self.spec_recurring()[j].spec_kind()].is_recurring
                });
                assert(forall|a: int, b: int| 0 <= a < b < self.spec_recurring().len()
                    ==> self.spec_recurring()[a].spec_kind() != self.spec_recurring()[b].spec_kind());
            },
            None => {},
        }
    }

    /// The recurring task of type `kind`, if there is one.
    pub fn get_recurring_task(&self, kind: &str) -> (r: Option<&RecurringTask>)
        ensures
            r is None <==> forall|j: int| 0 <= j < self.spec_recurring().len()
                ==> self.spec_recurring()[j].spec_kind() != kind@,
            r matches Some(t) ==> exists|j: int| 0 <= j < self.spec_recurring().len()
                && self.spec_recurring()[j] == *t && t.spec_kind() == kind@,
    {
        match self.position_of(kind) {
            Some(i) => Some(&self.recurring_tasks[i]),
            None => None,
        }
    }

    /// The recurring task of type `kind`; asking for a type that has none
    /// panics, which `requires` leaves out.
    pub fn find_recurring_task(&self, kind: &str) -> (r: &RecurringTask)
        requires
            exists|j: int| 0 <= j < self.spec_recurring().len() && self.spec_recurring()[j].spec_kind() == kind@,
        ensures
            exists|j: int| 0 <= j < self.spec_recurring().len()
                && self.spec_recurring()[j] == *r && r.spec_kind() == kind@,
    {
        match self.position_of(kind) {
            Some(i) => &self.recurring_tasks[i],
            None => {
                assert(false);
                &self.recurring_tasks[0]
            },
        }
    }

    /// Moves the deadline of every recurring task that is not blocked to
    /// when its trigger next fires after `now`.
    pub fn update_recurring_tasks_deadline_at(&mut self, now: i64)
        requires
            old(self).well_formed(),
        ensures
            final(self).well_formed(),
            final(self).spec_items() == old(self).spec_items(),
            final(self).spec_recurring().len() == old(self).spec_recurring().len(),
            forall|j: int| 0 <= j < old(self).spec_recurring().len() ==> {
                &&& same_but_deadline(old(self).spec_recurring()[j], #[trigger] final(self).spec_recurring()[j])
                &&& final(self).spec_recurring()[j].spec_deadline() == (if old(self).spec_recurring()[j].spec_blocked() {
                    old(self).spec_recurring()[j].spec_deadline()
                } else {
                    spec_upcoming(old(self).spec_recurring()[j].spec_trigger(), now)
                })
            },
    {
        let ghost before = self.recurring_tasks@;
        let mut i: usize = 0;
        while i < self.recurring_tasks.len()
            invariant
                self.well_formed(),
                self.spec_items() == old(self).spec_items(),
                before == old(self).spec_recurring(),
                self.recurring_tasks@.len() == before.len(),
                i <= before.len(),
                forall|j: int| 0 <= j < before.len() ==> same_but_deadline(before[j], #[trigger] self.recurring_tasks@[j]),
                forall|j: int| 0 <= j < i ==> (#[trigger] self.recurring_tasks@[j]).spec_deadline() == (if before[j].spec_blocked() {
                    before[j].spec_deadline()
                } else {
                    spec_upcoming(before[j].spec_trigger(), now)
                }),
                forall|j: int| i <= j < before.len() ==> #[trigger] self.recurring_tasks@[j] == before[j],
            decreases self.recurring_tasks.len() - i,
        {
            self.recurring_tasks[i].update_deadline(now);
            assert(forall|k: Seq<char>| #[trigger] self.spec_items().contains_key(k) ==> self.spec_items()[k].kind == k);
            assert(forall|j: int| 0 <= j < self.spec_recurring().len() ==> {
                &&& #[trigger] self.spec_items().contains_key(self.spec_recurring()[j].spec_kind())
                &&& self.spec_items()[self.spec_recurring()[j].spec_kind()].is_recurring
            });
            assert(forall|a: int, b: int| 0 <= a < b < self.spec_recurring().len()
                ==> self.spec_recurring()[a].spec_kind() != self.spec_recurring()[b].spec_kind());
            i = i + 1;
        }
    }

    /// Moves the deadlines as `update_recurring_tasks_deadline_at` does,
    /// counted from `now`, or from the current time when it is `None`.
    pub fn update_recurring_tasks_deadline(&mut self, now: Option<i64>)
        requires
            old(self).well_formed(),
        ensures
            final(self).well_formed(),
            final(self).spec_items() == old(self).spec_items(),
            final(self).spec_recurring().len() == old(self).spec_recurring().len(),
            exists|t: i64| (now matches Some(n) ==> t == n)
                && #[trigger] deadlines_moved(old(self).spec_recurring(), final(self).spec_recurring(), t),
    {
        let t: i64 = match now {
            Some(n) => n,
            None => now_micros(),
        };
        self.update_recurring_tasks_deadline_at(t);
        assert(now matches Some(n) ==> t == n);
        assert(deadlines_moved(old(self).spec_recurring(), self.spec_recurring(), t));
    }

    /// The recurring tasks that are due at `now`, in the order they were
    /// registered: not blocked, not running, and past their deadline.
    pub fn due_recurring_tasks(&self, now: i64) -> (r: Vec<PendingTask>)
        ensures
            r@.map_values(|p: PendingTask| pending_triple(p)) == due_tasks(self.spec_recurring(), now),
            forall|i: int| 0 <= i < r@.len() ==> (#[trigger] r@[i]) is Recurring,
    {
        let mut r: Vec<PendingTask> = Vec::new();
        let mut i: usize = 0;
        while i < self.recurring_tasks.len()
            invariant
                i <= self.recurring_tasks@.len(),
                r@.map_values(|p: PendingTask| pending_triple(p)) == due_tasks(self.recurring_tasks@.take(i as int), now),
                forall|k: int| 0 <= k < r@.len() ==> (#[trigger] r@[k]) is Recurring,
            decreases self.recurring_tasks.len() - i,
        {
            let task = &self.recurring_tasks[i];
            assert(self.recurring_tasks@.take(i + 1).drop_last() =~= self.recurring_tasks@.take(i as int));
            assert(self.recurring_tasks@.take(i + 1).last() == *task);
            let should_not_run: bool = task.is_blocked() || task.is_running();
            if !should_not_run {
                match task.deadline() {
                    Some(deadline) => {
                        if now >= deadline {
                            let p = PendingTask::Recurring {
                                deadline,
                                kind: task.kind().to_owned(),
                                priority: task.priority(),
                            };
                            let ghost before = r@;
                            r.push(p);
                            assert(r@.map_values(|p: PendingTask| pending_triple(p)) =~= before.map_values(|p: PendingTask| pending_triple(p)).push(pending_triple(p)));
                        }
                    },
                    None => {},
                }
            }
            i = i + 1;
        }
        assert(self.recurring_tasks@.take(i as int) =~= self.recurring_tasks@);
        r
    }

    /// Every registered task type, each once. The order is the map's.
    pub fn items(&self) -> (r: Vec<RegistryEntry>)
        requires
            self.well_formed(),
        ensures
            forall|i: int| 0 <= i < r@.len() ==> {
                &&& self.spec_items().contains_key((#[trigger] r@[i]).kind@)
                &&& self.spec_items()[r@[i].kind@] == r@[i]@
            },
            forall|i: int, j: int| 0 <= i < j < r@.len() ==> r@[i].kind@ != r@[j].kind@,
            forall|k: Seq<char>| #[trigger] self.spec_items().contains_key(k)
                ==> exists|i: int| 0 <= i < r@.len() && r@[i].kind@ == k,
    {
        let all = entries_all(&self.items);
        let mut r: Vec<RegistryEntry> = Vec::new();
        let mut i: usize = 0;
        while i < all.len()
            invariant
                i <= all@.len(),
                r@.len() == i,
                self.well_formed(),
                forall|k: int| 0 <= k < all@.len() ==> listed_in(self.spec_items(), #[trigger] all@[k]),
                forall|a: int, b: int| 0 <= a < b < all@.len() ==> all@[a].0@ != all@[b].0@,
                forall|k: int| 0 <= k < i ==> (#[trigger] r@[k]).kind@ == all@[k].0@ && self.spec_items()[r@[k].kind@] == r@[k]@,
            decreases all.len() - i,
        {
            let (key, entry) = &all[i];
            let e = RegistryEntry {
                kind: key.clone(),
                is_recurring: entry.is_recurring,
                is_temporary: entry.is_temporary,
                priority: entry.priority,
                rust_name: entry.rust_name.clone(),
            };
            assert(listed_in(self.spec_items(), all@[i as int]));
            assert(self.spec_items()[key@].kind == key@);
            r.push(e);
            i = i + 1;
        }
        assert forall|k: Seq<char>| #[trigger] self.spec_items().contains_key(k)
            implies exists|i: int| 0 <= i < r@.len() && r@[i].kind@ == k by {
            let a = choose|a: int| 0 <= a < all@.len() && all@[a].0@ == k;
            assert(r@[a].kind@ == k);
        }
        assert forall|i: int| 0 <= i < r@.len() implies {
            &&& self.spec_items().contains_key((#[trigger] r@[i]).kind@)
            &&& self.spec_items()[r@[i].kind@] == r@[i]@
        } by {
            assert(listed_in(self.spec_items(), all@[i]));
        }
        r
    }

    /// The registered task types that are temporary: the queue drops their
    /// tasks when the worker starts. The order is the map's.
    pub fn temporary_items(&self) -> (r: Vec<RegistryEntry>)
        requires
            self.well_formed(),
        ensures
            forall|i: int| 0 <= i < r@.len() ==> {
                &&& self.spec_items().contains_key((#[trigger] r@[i]).kind@)
                &&& self.spec_items()[r@[i].kind@] == r@[i]@
                &&& r@[i].is_temporary
            },
            forall|i: int, j: int| 0 <= i < j < r@.len() ==> r@[i].kind@ != r@[j].kind@,
            forall|k: Seq<char>| #[trigger] self.spec_items().contains_key(k) && self.spec_items()[k].is_temporary
                ==> exists|i: int| 0 <= i < r@.len() && r@[i].kind@ == k,
    {
        let all = entries_all(&self.items);
        let mut r: Vec<RegistryEntry> = Vec::new();
        let mut i: usize = 0;
        while i < all.len()
            invariant
                i <= all@.len(),
                self.well_formed(),
                forall|k: int| 0 <= k < all@.len() ==> listed_in(self.spec_items(), #[trigger] all@[k]),
                forall|a: int, b: int| 0 <= a < b < all@.len() ==> all@[a].0@ != all@[b].0@,
                forall|k: int| 0 <= k < r@.len() ==> {
                    &&& self.spec_items().contains_key((#[trigger] r@[k]).kind@)
                    &&& self.spec_items()[r@[k].kind@] == r@[k]@
                    &&& r@[k].is_temporary
                    &&& exists|a: int| 0 <= a < i && all@[a].0@ == r@[k].kind@
                },
                forall|a: int, b: int| 0 <= a < b < r@.len() ==> r@[a].kind@ != r@[b].kind@,
                forall|a: int| 0 <= a < i && (#[trigger] all@[a]).1.is_temporary
                    ==> exists|k: int| 0 <= k < r@.len() && r@[k].kind@ == all@[a].0@,
            decreases all.len() - i,
        {
            let (key, entry) = &all[i];
            let ghost old_r = r@;
            if entry.is_temporary {
                let e = RegistryEntry {
                    kind: key.clone(),
                    is_recurring: entry.is_recurring,
                    is_temporary: entry.is_temporary,
                    priority: entry.priority,
                    rust_name: entry.rust_name.clone(),
                };
                assert(listed_in(self.spec_items(), all@[i as int]));
                assert(self.spec_items()[key@].kind == key@);
                r.push(e);
                assert(r@.last().kind@ == all@[i as int].0@);
            }
            assert forall|a: int| 0 <= a < i + 1 && (#[trigger] all@[a]).1.is_temporary
                implies exists|k: int| 0 <= k < r@.len() && r@[k].kind@ == all@[a].0@ by {
                if a < i {
                    let k = choose|k: int| 0 <= k < old_r.len() && old_r[k].kind@ == all@[a].0@;
                    assert(r@[k] == old_r[k]);
                } else {
                    assert(r@[r@.len() - 1].kind@ == all@[a].0@);
                }
            }
            i = i + 1;
        }
        r
    }
}

} // verus!
