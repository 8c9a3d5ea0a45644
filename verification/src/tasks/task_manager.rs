//! Counts of the tasks a worker is waiting on and running, and the
//! decisions of starting and stopping a worker.

use vstd::prelude::*;

verus! {

/// How many permits a worker hands out at once, how many tasks hold one
/// or wait for one, how many run, and whether the worker closed or aborted.
///
/// A task counts as pending from the moment it asks for a permit until it
/// finishes or withdraws; it counts as running from the moment the
/// semaphore grants it a permit until it gives the permit back.
#[derive(Clone, Copy, Debug, PartialEq, Eq)]
pub struct TaskCounters {
    pub capacity: usize,
    pub pending: usize,
    pub running: usize,
    pub closed: bool,
    pub aborted: bool,
}

/// What can happen to the counters of a worker.
#[derive(Clone, Copy, Debug, PartialEq, Eq)]
pub enum CounterEvent {
    /// A task asks for a permit.
    Ask,
    /// The semaphore hands a waiting task a permit.
    Grant,
    /// A waiting task gives up because the worker aborted.
    Withdraw,
    /// A task that ran gives its permit back.
    Release,
    /// The worker stops taking tasks.
    Close,
    /// The worker drops the tasks that wait.
    Abort,
}

impl TaskCounters {
    /// No more tasks run than there are permits, and every running task
    /// is one of the pending ones.
    pub open spec fn counts_valid(self) -> bool {
        &&& self.running <= self.capacity
        &&& self.running <= self.pending
    }
}

/// The counters after a task asked for a permit: it counts as pending.
/// The count wraps around, as the atomic that holds it does.
pub open spec fn spec_ask(c: TaskCounters) -> TaskCounters {
    TaskCounters { pending: if c.pending == usize::MAX { 0 } else { (c.pending + 1) as usize }, ..c }
}

/// The counters after the semaphore was asked for a permit: it grants one
/// while fewer tasks run than there are permits and some task waits; that
/// task then counts as running.
pub open spec fn spec_grant(c: TaskCounters) -> (TaskCounters, bool) {
    if c.running < c.capacity && c.running < c.pending {
        (TaskCounters { running: (c.running + 1) as usize, ..c }, true)
    } else {
        (c, false)
    }
}

/// The counters after a waiting task saw the worker abort: it no longer
/// counts as pending. Only an aborted worker with a waiting task does so.
pub open spec fn spec_withdraw(c: TaskCounters) -> (TaskCounters, bool) {
    if c.aborted && c.running < c.pending {
        (TaskCounters { pending: (c.pending - 1) as usize, ..c }, true)
    } else {
        (c, false)
    }
}

/// The counters after a running task finished and gave its permit back.
/// The counts wrap around, as the atomics that hold them do.
pub open spec fn spec_release(c: TaskCounters) -> TaskCounters {
    TaskCounters {
        pending: if c.pending == 0 { usize::MAX } else { (c.pending - 1) as usize },
        running: if c.running == 0 { usize::MAX } else { (c.running - 1) as usize },
        ..c
    }
}

/// The counters after `e`.
pub open spec fn spec_step(c: TaskCounters, e: CounterEvent) -> TaskCounters {
    match e {
        CounterEvent::Ask => spec_ask(c),
        CounterEvent::Grant => spec_grant(c).0,
        CounterEvent::Withdraw => spec_withdraw(c).0,
        CounterEvent::Release => spec_release(c),
        CounterEvent::Close => TaskCounters { closed: true, ..c },
        CounterEvent::Abort => TaskCounters { aborted: true, ..c },
    }
}

/// The counters after the events `es`, in order.
pub open spec fn spec_run(c: TaskCounters, es: Seq<CounterEvent>) -> TaskCounters
    decreases es.len(),
{
    if es.len() == 0 {
        c
    } else {
        spec_step(spec_run(c, es.drop_last()), es.last())
    }
}

/// `e` can happen to `c` as a worker runs: a task asks while the pending
/// count has room to grow, and only a task that holds a permit gives one
/// back.
pub open spec fn step_possible(c: TaskCounters, e: CounterEvent) -> bool {
    match e {
        CounterEvent::Ask => c.pending < usize::MAX,
        CounterEvent::Release => c.running > 0,
        _ => true,
    }
}

/// Every event of `es` can happen when it comes.
pub open spec fn run_possible(c: TaskCounters, es: Seq<CounterEvent>) -> bool
    decreases es.len(),
{
    if es.len() == 0 {
        true
    } else {
        run_possible(c, es.drop_last()) && step_possible(spec_run(c, es.drop_last()), es.last())
    }
}

impl TaskCounters {
    /// A worker with `capacity` permits; no task waits or runs; the worker
    /// is open.
    pub fn new(capacity: usize) -> (c: TaskCounters)
        ensures
            c == (TaskCounters { capacity, pending: 0, running: 0, closed: false, aborted: false }),
            c.counts_valid(),
    {
        TaskCounters { capacity, pending: 0, running: 0, closed: false, aborted: false }
    }

    /// A task asks for a permit to run.
    pub fn ask(&mut self)
        ensures
            *final(self) == spec_ask(*old(self)),
    {
        self.pending = self.pending.wrapping_add(1);
    }

    /// The semaphore hands a waiting task a permit; `false`, and nothing
    /// changes, when no permit is free or no task waits.
    pub fn grant(&mut self) -> (granted: bool)
        ensures
            (*final(self), granted) == spec_grant(*old(self)),
    {
        if self.running < self.capacity && self.running < self.pending {
            self.running = self.running + 1;
            true
        } else {
            false
        }
    }

    /// A waiting task gives up because the worker aborted; `false`, and
    /// nothing changes, when the worker did not abort or no task waits.
    pub fn withdraw(&mut self) -> (withdrawn: bool)
        ensures
            (*final(self), withdrawn) == spec_withdraw(*old(self)),
    {
        if self.aborted && self.running < self.pending {
            self.pending = self.pending - 1;
            true
        } else {
            false
        }
    }

    /// A task that ran gives its permit back.
    pub fn release(&mut self)
        ensures
            *final(self) == spec_release(*old(self)),
    {
        self.pending = self.pending.wrapping_sub(1);
        self.running = self.running.wrapping_sub(1);
    }

    /// The worker stops taking tasks.
    pub fn close(&mut self)
        ensures
            *final(self) == (TaskCounters { closed: true, ..*old(self) }),
    {
        self.closed = true;
    }

    /// The worker drops the tasks that wait for a permit.
    pub fn abort(&mut self)
        ensures
            *final(self) == (TaskCounters { aborted: true, ..*old(self) }),
    {
        self.aborted = true;
    }

    /// Whether every task has finished, so that shutting down may end.
    pub fn all_finished(&self) -> (r: bool)
        ensures
            r == (self.running == 0 && self.pending == 0),
    {
        self.running == 0 && self.pending == 0
    }
}

/// Every event that can happen keeps the counts valid: no more tasks run
/// than there are permits, and no more than are pending.
pub proof fn law_step_keeps_counts_valid(c: TaskCounters, e: CounterEvent)
    requires
        c.counts_valid(),
        step_possible(c, e),
    ensures
        spec_step(c, e).counts_valid(),
{
}

/// However the events of a worker interleave, the counts stay valid.
pub proof fn law_run_keeps_counts_valid(c: TaskCounters, es: Seq<CounterEvent>)
    requires
        c.counts_valid(),
        run_possible(c, es),
    ensures
        spec_run(c, es).counts_valid(),
    decreases es.len(),
{
    if es.len() > 0 {
        law_run_keeps_counts_valid(c, es.drop_last());
        law_step_keeps_counts_valid(spec_run(c, es.drop_last()), es.last());
    }
}

/// A task that asked, got a permit and gave it back leaves the counts as
/// they were; it gets the permit whenever one is free.
pub proof fn law_release_undoes_grant(c: TaskCounters)
    requires
        c.counts_valid(),
        c.pending < usize::MAX,
        c.running < c.capacity,
    ensures
        spec_grant(spec_ask(c)).1,
        spec_release(spec_grant(spec_ask(c)).0) == c,
{
}

/// A task that gives its permit back lowers both the pending and the
/// running count by one.
pub proof fn law_release_lowers_both(c: TaskCounters)
    requires
        c.counts_valid(),
        c.running > 0,
    ensures
        spec_release(c).pending == c.pending - 1,
        spec_release(c).running == c.running - 1,
        spec_release(c).counts_valid(),
{
}

/// A task that asked and then withdrew because the worker aborted gets no
/// permit and leaves the counts as they were.
pub proof fn law_withdraw_undoes_ask(c: TaskCounters)
    requires
        c.counts_valid(),
        c.aborted,
        c.pending < usize::MAX,
    ensures
        spec_withdraw(spec_ask(c)) == (c, true),
{
}

/// No permit is granted while every permit is held.
pub proof fn law_no_grant_when_full(c: TaskCounters)
    requires
        c.running >= c.capacity,
    ensures
        spec_grant(c) == (c, false),
{
}

/// What starting a worker does.
#[derive(Clone, Copy, Debug, PartialEq, Eq)]
pub enum StartDecision {
    /// It was started already: the start is refused.
    AlreadyStarted,
    /// Setting it up failed for a reason other than the database: the
    /// start fails with that error.
    SetupFailed,
    /// The loop starts; `setup_later` when the database was unreachable
    /// and the setup is to be tried again from the loop.
    Start { setup_later: bool },
}

/// What starting a worker does, given whether it runs already and how its
/// setup went.
pub open spec fn spec_start_decision(already_started: bool, setup: crate::tasks::runner::SetupOutcome) -> StartDecision {
    if already_started {
        StartDecision::AlreadyStarted
    } else {
        match setup {
            crate::tasks::runner::SetupOutcome::PoolError => StartDecision::Start { setup_later: true },
            crate::tasks::runner::SetupOutcome::OtherError => StartDecision::SetupFailed,
            crate::tasks::runner::SetupOutcome::Done => StartDecision::Start { setup_later: false },
        }
    }
}

/// Decides what starting a worker does.
pub fn start_decision(already_started: bool, setup: crate::tasks::runner::SetupOutcome) -> (d: StartDecision)
    ensures
        d == spec_start_decision(already_started, setup),
{
    if already_started {
        return StartDecision::AlreadyStarted;
    }
    match setup {
        crate::tasks::runner::SetupOutcome::PoolError => StartDecision::Start { setup_later: true },
        crate::tasks::runner::SetupOutcome::OtherError => StartDecision::SetupFailed,
        crate::tasks::runner::SetupOutcome::Done => StartDecision::Start { setup_later: false },
    }
}

/// Whether shutting a worker down has anything to do: only a running
/// worker that is not closed yet.
pub fn shutdown_needed(is_running: bool, counters: &TaskCounters) -> (r: bool)
    ensures
        r == (is_running && !counters.closed),
{
    is_running && !counters.closed
}

/// A worker that runs already refuses to start again, whatever its setup
/// gives. Otherwise it starts at once when its setup succeeded, starts and
/// sets up later when the database could not be reached, and fails to
/// start on any other setup error.
pub proof fn law_start_decisions(setup: crate::tasks::runner::SetupOutcome)
    ensures
        spec_start_decision(true, setup) == StartDecision::AlreadyStarted,
        spec_start_decision(false, crate::tasks::runner::SetupOutcome::Done) == (StartDecision::Start { setup_later: false }),
        spec_start_decision(false, crate::tasks::runner::SetupOutcome::PoolError) == (StartDecision::Start { setup_later: true }),
        spec_start_decision(false, crate::tasks::runner::SetupOutcome::OtherError) == StartDecision::SetupFailed,
{
}

} // verus!
