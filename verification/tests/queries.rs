use eden::sql::SqlArg;
use eden::tasks_schema::queries::{GetAllTasks, PullAllPendingTasks, DEFAULT_PULL_LIMIT};
use eden::tasks_schema::task::{Task, TaskStatus};
use eden::tasks_schema::worker_id::WorkerId;

fn ints(args: &[SqlArg]) -> Vec<i64> {
    args.iter()
        .filter_map(|a| match a {
            SqlArg::I64(n) => Some(*n),
            _ => None,
        })
        .collect()
}

#[test]
fn listing_all_tasks_of_a_worker() {
    let q = Task::get_all(WorkerId::new(2, 3));
    assert_eq!(q.sql(), "SELECT * FROM tasks WHERE get_worker_id_from_task(task_number, $2) = $1 FOR UPDATE SKIP LOCKED");
    let args = q.args();
    assert_eq!(args.len(), 2);
    assert_eq!(ints(&args), vec![2, 3]);
}

#[test]
fn listing_with_filters() {
    let q = GetAllTasks::new(WorkerId::one()).status(TaskStatus::Failed);
    assert_eq!(
        q.sql(),
        "SELECT * FROM tasks WHERE status = $1  AND get_worker_id_from_task(task_number, $3) = $2 FOR UPDATE SKIP LOCKED"
    );
    assert!(matches!(q.args()[0], SqlArg::Status(TaskStatus::Failed)));

    let q = GetAllTasks::new(WorkerId::one()).periodic(true).task_type("foo").status(TaskStatus::Queued);
    assert_eq!(
        q.sql(),
        "SELECT * FROM tasks WHERE status = $1  AND data->>'type' = $2  AND periodic = $3  AND get_worker_id_from_task(task_number, $5) = $4 FOR UPDATE SKIP LOCKED"
    );
    let args = q.args();
    assert_eq!(args.len(), 5);
    assert!(matches!(args[0], SqlArg::Status(TaskStatus::Queued)));
    assert!(matches!(&args[1], SqlArg::Text(t) if t == "foo"));
    assert!(matches!(args[2], SqlArg::Bool(true)));
    assert_eq!(ints(&args), vec![1, 1]);

    let q = GetAllTasks::new(WorkerId::one()).task_type("foo");
    assert_eq!(
        q.sql(),
        "SELECT * FROM tasks WHERE data->>'type' = $1  AND get_worker_id_from_task(task_number, $3) = $2 FOR UPDATE SKIP LOCKED"
    );
}

#[test]
fn pulling_due_tasks() {
    let q = Task::pull_all_pending(WorkerId::new(1, 2), 3, Some(1_000));
    assert_eq!(q.limit, DEFAULT_PULL_LIMIT);
    assert_eq!(q.limit, 100);
    assert_eq!(q.now, 1_000);
    assert_eq!(
        q.sql(),
        "SELECT * FROM tasks WHERE status = $1 AND attempts < $2 AND deadline <= $3 AND updated_at = $3 AND get_worker_id_from_task(task_number, $5) = $6 ORDER BY deadline, get_task_priority_level(priority) DESC FOR UPDATE SKIP LOCKED"
    );
    let args = q.args();
    assert_eq!(args.len(), 6);
    assert!(matches!(args[0], SqlArg::Status(TaskStatus::Running)));
    assert!(matches!(args[1], SqlArg::I32(3)));
    assert!(matches!(args[2], SqlArg::Timestamp(1_000)));
    assert!(matches!(args[3], SqlArg::Status(TaskStatus::Queued)));
    assert_eq!(ints(&args), vec![2, 1]);

    let q = q.limit(50);
    let args = q.prerun_args();
    assert_eq!(args.len(), 7);
    assert!(matches!(args[6], SqlArg::I64(50)));
    assert!(q.prerun_sql().starts_with("UPDATE tasks SET status = $1, updated_at = $3,"));
    assert!(q.prerun_sql().contains("LIMIT $7"));

    let q = q.limit(u64::MAX);
    assert!(matches!(q.prerun_args()[6], SqlArg::I64(1)));

    let q = Task::pull_all_pending(WorkerId::one(), 3, None);
    assert!(q.now > 1_600_000_000_000_000);
}
