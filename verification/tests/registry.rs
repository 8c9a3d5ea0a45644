use eden::tasks::actions::PerformTaskAction;
use eden::tasks::errors::QueueRefusal;
use eden::tasks::pending::{PendingTask, Scheduled};
use eden::tasks::recurring::RecurringTask;
use eden::tasks::registry::TaskRegistry;
use eden::tasks::sample::SampleRecurringTask;
use eden::tasks::time::TimeDelta;
use eden::tasks::trigger::TaskTrigger;
use eden::tasks::worker::schedule_allowed;
use eden::tasks_schema::task::{TaskPriority, TaskRawData, TaskStatus};

fn sample_task() -> RecurringTask {
    RecurringTask::new(
        SampleRecurringTask::kind().to_string(),
        "SampleRecurringTask".to_string(),
        TaskPriority::default(),
        SampleRecurringTask::trigger(),
    )
}

const NOW: i64 = 1_704_067_200_000_000;

fn registry() -> TaskRegistry {
    let mut r = TaskRegistry::new();
    r.register_task(SampleRecurringTask::kind(), "SampleRecurringTask", TaskPriority::Medium, SampleRecurringTask::trigger(), false);
    r.register_task("once", "Once", TaskPriority::High, TaskTrigger::OnDemand, true);
    r.register_task("hourly", "Hourly", TaskPriority::Low, TaskTrigger::interval(TimeDelta::minutes(60)), false);
    r
}

#[test]
fn update_deadline() {
    let mut task = sample_task();
    task.set_blocked(true);

    let now = chrono::Utc::now().timestamp_micros();
    task.update_deadline(now);
    assert_eq!(task.deadline(), None);

    task.set_blocked(false);
    task.update_deadline(now);
    assert!(task.deadline().is_some());
}

#[test]
fn running_guard() {
    let mut task = sample_task();
    let seen = task.running_guard(|t| t.is_running());
    assert_eq!(seen, true);
    assert_eq!(task.is_running(), false);
}

#[test]
fn running_flag_set_and_cleared() {
    let mut task = sample_task();
    task.set_running(true);
    assert_eq!(task.is_running(), true);
    let (blocked, deadline) = task.running_guard(|t| (t.is_blocked(), t.deadline()));
    assert_eq!((blocked, deadline), (false, None));
    assert_eq!(task.is_running(), false);
}

#[test]
fn sample_task_runs_every_five_seconds() {
    assert_eq!(SampleRecurringTask::kind(), "eden_tasks::registry::SampleTask");
    let mut task = sample_task();
    assert!(!task.is_blocked() && !task.is_running() && task.deadline().is_none());
    task.update_deadline(NOW);
    assert_eq!(task.deadline(), Some(NOW + 5_000_000));
}

#[test]
fn registering_records_entries_and_recurring_tasks() {
    let r = registry();
    assert!(r.is_task_registered("once"));
    assert!(!r.is_task_registered("unknown"));

    let item = r.find_item("hourly").unwrap();
    assert_eq!(item.kind, "hourly");
    assert_eq!(item.rust_name, "Hourly");
    assert!(item.is_recurring);
    assert!(!item.is_temporary);
    assert_eq!(item.priority, TaskPriority::Low);

    let once = r.find_item("once").unwrap();
    assert!(!once.is_recurring);
    assert!(once.is_temporary);
    assert!(r.find_item("unknown").is_none());

    let kinds: Vec<&str> = r.recurring_tasks().iter().map(|t| t.kind()).collect();
    assert_eq!(kinds, vec![SampleRecurringTask::kind(), "hourly"]);
    assert!(r.get_recurring_task("once").is_none());
    assert_eq!(r.find_recurring_task("hourly").rust_name(), "Hourly");

    let temporary: Vec<String> = r.temporary_items().into_iter().map(|e| e.kind).collect();
    assert_eq!(temporary, vec!["once".to_string()]);
}

#[test]
fn blocking_and_unblocking() {
    let mut r = registry();
    r.block_for_recurring_task("hourly");
    assert!(r.get_recurring_task("hourly").unwrap().is_blocked());
    assert!(!r.get_recurring_task(SampleRecurringTask::kind()).unwrap().is_blocked());

    // Unblocking a recurring task blocks it too.
    r.unblock_for_recurring_task(SampleRecurringTask::kind());
    assert!(r.get_recurring_task(SampleRecurringTask::kind()).unwrap().is_blocked());

    r.unblock_if_completed("hourly", PerformTaskAction::RetryOnError);
    assert!(r.get_recurring_task("hourly").unwrap().is_blocked());
    r.unblock_if_completed("hourly", PerformTaskAction::Completed);
    assert!(!r.get_recurring_task("hourly").unwrap().is_blocked());

    r.unblock_all_recurring_tasks();
    assert!(r.recurring_tasks().iter().all(|t| !t.is_blocked()));

    // Unknown types change nothing.
    r.block_for_recurring_task("once");
    assert!(r.recurring_tasks().iter().all(|t| !t.is_blocked()));
}

#[test]
fn deadlines_and_due_tasks() {
    let mut r = registry();
    assert!(r.due_recurring_tasks(NOW).is_empty());

    r.update_recurring_tasks_deadline_at(NOW);
    assert_eq!(r.get_recurring_task(SampleRecurringTask::kind()).unwrap().deadline(), Some(NOW + 5_000_000));
    assert_eq!(r.get_recurring_task("hourly").unwrap().deadline(), Some(NOW + 3_600_000_000));

    assert!(r.due_recurring_tasks(NOW).is_empty());
    let due = r.due_recurring_tasks(NOW + 5_000_000);
    assert_eq!(due.len(), 1);
    assert_eq!(due[0].kind(), SampleRecurringTask::kind());
    assert_eq!(due[0].deadline(), NOW + 5_000_000);
    assert!(due[0].is_recurring());

    // Running and blocked tasks are not due.
    r.set_running_for(SampleRecurringTask::kind(), true);
    assert!(r.due_recurring_tasks(NOW + 3_600_000_000).iter().all(|t| t.kind() == "hourly"));
    r.block_for_recurring_task("hourly");
    assert!(r.due_recurring_tasks(NOW + 3_600_000_000).is_empty());

    // Completing moves the deadline on and stops the run.
    r.complete_recurring(SampleRecurringTask::kind(), NOW + 10_000_000);
    let t = r.get_recurring_task(SampleRecurringTask::kind()).unwrap();
    assert!(!t.is_running());
    assert_eq!(t.deadline(), Some(NOW + 15_000_000));

    // A blocked task keeps its deadline.
    r.update_recurring_tasks_deadline_at(NOW + 20_000_000);
    assert_eq!(r.get_recurring_task("hourly").unwrap().deadline(), Some(NOW + 3_600_000_000));
    r.update_recurring_tasks_deadline(Some(NOW));
    assert_eq!(r.get_recurring_task(SampleRecurringTask::kind()).unwrap().deadline(), Some(NOW + 5_000_000));
}

#[test]
fn queueing_decisions() {
    let mut r = registry();
    let data = TaskRawData { kind: "nobody".to_string(), inner: serde_json::Value::Null };
    let refused = r.prepare_queue(None, data, Scheduled::At(NOW), NOW, 0);
    assert_eq!(refused.unwrap_err(), QueueRefusal::NotRegistered);
    assert_eq!(QueueRefusal::NotRegistered.message(), "task is not registered in the registry");

    let data = TaskRawData { kind: "once".to_string(), inner: serde_json::Value::Null };
    let form = r.prepare_queue(None, data, Scheduled::In(TimeDelta::seconds(10)), NOW, 2).unwrap();
    assert_eq!(form.deadline, NOW + 10_000_000);
    assert_eq!(form.attempts, 2);
    assert!(!form.periodic);
    assert_eq!(form.priority, TaskPriority::High);
    assert_eq!(form.status, TaskStatus::Queued);
    assert!(r.recurring_tasks().iter().all(|t| !t.is_blocked()));

    let data = TaskRawData { kind: "hourly".to_string(), inner: serde_json::Value::Null };
    let form = r.prepare_queue(None, data, Scheduled::At(NOW + 7), NOW, 1).unwrap();
    assert_eq!(form.deadline, NOW + 7);
    assert!(form.periodic);
    assert_eq!(form.priority, TaskPriority::Low);
    assert!(r.get_recurring_task("hourly").unwrap().is_blocked());

    assert_eq!(schedule_allowed(&TaskTrigger::OnDemand), Ok(()));
    assert_eq!(schedule_allowed(&SampleRecurringTask::trigger()), Err(QueueRefusal::RecurringNotAllowed));
    assert_eq!(
        QueueRefusal::RecurringNotAllowed.message(),
        "recurring tasks are not allowed to be scheduled"
    );
}

#[test]
fn scheduled_points_in_time() {
    assert_eq!(Scheduled::At(42).timestamp_at(NOW), Some(42));
    assert_eq!(Scheduled::In(TimeDelta::milliseconds(3)).timestamp_at(NOW), Some(NOW + 3000));
    let pending = PendingTask::Recurring { deadline: NOW, kind: "k".to_string(), priority: TaskPriority::High };
    assert_eq!(pending.priority(), TaskPriority::High);
    assert_eq!(pending.kind(), "k");
}

#[test]
fn blacklist_blocks_exactly_the_queued_types() {
    let mut r = registry();
    r.block_for_recurring_task(SampleRecurringTask::kind());
    r.update_blacklist(&vec!["hourly".to_string(), "unknown".to_string(), "hourly".to_string()]);
    assert!(r.get_recurring_task("hourly").unwrap().is_blocked());
    assert!(!r.get_recurring_task(SampleRecurringTask::kind()).unwrap().is_blocked());

    r.update_blacklist(&Vec::new());
    assert!(r.recurring_tasks().iter().all(|t| !t.is_blocked()));
}

#[test]
fn every_registered_type_is_listed_once() {
    let r = registry();
    let mut kinds: Vec<String> = r.items().into_iter().map(|e| e.kind).collect();
    kinds.sort();
    assert_eq!(kinds, vec![SampleRecurringTask::kind().to_string(), "hourly".to_string(), "once".to_string()]);
    assert!(TaskRegistry::new().items().is_empty());
}
