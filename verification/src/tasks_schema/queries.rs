//! The queries that list tasks and pull the due ones.

use vstd::prelude::*;
use vstd::string::*;
use crate::sql::{SqlArg, SqlArgView, args_view, digit_str, placeholder, push_where_clause, where_clause};
use crate::tasks_schema::task::TaskStatus;
use crate::tasks_schema::worker_id::WorkerId;
use crate::tasks::time::{in_time_range, now_micros};

verus! {

/// Lists the tasks of one worker, perhaps only those of a status, of a
/// type, or periodic or not.
#[derive(Clone, Copy, Debug)]
pub struct GetAllTasks<'a> {
    periodic: Option<bool>,
    status: Option<TaskStatus>,
    task_type: Option<&'a str>,
    worker_id: WorkerId,
}

/// The columns that the filters of a task listing compare, in order.
pub open spec fn task_filter_columns(status: bool, task_type: bool, periodic: bool) -> Seq<Seq<char>> {
    let a = if status { seq!["status = "@] } else { Seq::empty() };
    let b = if task_type { a.push("data->>'type' = "@) } else { a };
    if periodic { b.push("periodic = "@) } else { b }
}

/// The conditions of a task listing: each filter compared with its
/// numbered argument, then the worker's share of tasks, the total of
/// workers and the worker's number being the last two arguments.
pub open spec fn task_conditions(status: bool, task_type: bool, periodic: bool) -> Seq<Seq<char>> {
    let cols = task_filter_columns(status, task_type, periodic);
    let n = cols.len() as int;
    Seq::new(cols.len(), |i: int| cols[i] + placeholder(i + 1) + " "@).push(
        "get_worker_id_from_task(task_number, "@ + placeholder(n + 2) + ") = "@ + placeholder(n + 1) + " "@,
    )
}

/// The condition `column` compared with the `n`-th argument, and a space.
fn numbered_condition(column: &str, n: u8) -> (r: String)
    requires
        1 <= n <= 9,
    ensures
        r@ == column@ + placeholder(n as int) + " "@,
{
    let mut r = column.to_owned();
    r.append("$");
    r.append(digit_str(n));
    r.append(" ");
    r
}

impl<'a> GetAllTasks<'a> {
    /// Whether only periodic (or only other) tasks are listed.
    pub closed spec fn spec_periodic(&self) -> Option<bool> {
        self.periodic
    }

    /// The status listed, if only one.
    pub closed spec fn spec_status(&self) -> Option<TaskStatus> {
        self.status
    }

    /// The type listed, if only one.
    pub closed spec fn spec_task_type(&self) -> Option<Seq<char>> {
        match self.task_type {
            Some(t) => Some(t@),
            None => None,
        }
    }

    /// The worker whose tasks are listed.
    pub closed spec fn spec_worker_id(&self) -> WorkerId {
        self.worker_id
    }

    /// The text of the query.
    pub open spec fn spec_sql(&self) -> Seq<char> {
        "SELECT * FROM tasks "@
            + where_clause(task_conditions(self.spec_status() is Some, self.spec_task_type() is Some, self.spec_periodic() is Some))
            + "FOR UPDATE SKIP LOCKED"@
    }

    /// The arguments of the query, in the order of their numbers.
    pub open spec fn spec_args(&self) -> Seq<SqlArgView> {
        let a = if self.spec_status() is Some { seq![SqlArgView::Status(self.spec_status()->0)] } else { Seq::empty() };
        let b = if self.spec_task_type() is Some { a.push(SqlArgView::Text(self.spec_task_type()->0)) } else { a };
        let c = if self.spec_periodic() is Some { b.push(SqlArgView::Bool(self.spec_periodic()->0)) } else { b };
        c.push(SqlArgView::I64(self.spec_worker_id().spec_assigned() as i64)).push(
            SqlArgView::I64(self.spec_worker_id().spec_total() as i64),
        )
    }

    /// All tasks of the worker.
    pub fn new(worker_id: WorkerId) -> (q: GetAllTasks<'a>)
        ensures
            q.spec_periodic() is None,
            q.spec_status() is None,
            q.spec_task_type() is None,
            q.spec_worker_id() == worker_id,
    {
        GetAllTasks { periodic: None, status: None, task_type: None, worker_id }
    }

    /// Only periodic tasks, or only the others.
    pub fn periodic(self, periodic: bool) -> (q: GetAllTasks<'a>)
        ensures
            q.spec_periodic() == Some(periodic),
            q.spec_status() == self.spec_status(),
            q.spec_task_type() == self.spec_task_type(),
            q.spec_worker_id() == self.spec_worker_id(),
    {
        GetAllTasks { periodic: Some(periodic), ..self }
    }

    /// Only tasks with `status`.
    pub fn status(self, status: TaskStatus) -> (q: GetAllTasks<'a>)
        ensures
            q.spec_status() == Some(status),
            q.spec_periodic() == self.spec_periodic(),
            q.spec_task_type() == self.spec_task_type(),
            q.spec_worker_id() == self.spec_worker_id(),
    {
        GetAllTasks { status: Some(status), ..self }
    }

    /// Only tasks of type `task_type`.
    pub fn task_type(self, task_type: &'a str) -> (q: GetAllTasks<'a>)
        ensures
            q.spec_task_type() == Some(task_type@),
            q.spec_periodic() == self.spec_periodic(),
            q.spec_status() == self.spec_status(),
            q.spec_worker_id() == self.spec_worker_id(),
    {
        GetAllTasks { task_type: Some(task_type), ..self }
    }

    /// The text of the query.
    pub fn sql(&self) -> (r: String)
        ensures
            r@ == self.spec_sql(),
    {
        let mut conds: Vec<String> = Vec::new();
        let ghost mut cols: Seq<Seq<char>> = Seq::empty();
        let mut count: u8 = 0;
        if self.status.is_some() {
            count = count + 1;
            conds.push(numbered_condition("status = ", count));
            proof { cols = cols.push("status = "@); }
        }
        assert(count == cols.len() && forall|i: int| 0 <= i < count ==> #[trigger] conds@[i]@ == cols[i] + placeholder(i + 1) + " "@);
        if self.task_type.is_some() {
            count = count + 1;
            conds.push(numbered_condition("data->>'type' = ", count));
            proof { cols = cols.push("data->>'type' = "@); }
        }
        assert(count == cols.len() && forall|i: int| 0 <= i < count ==> #[trigger] conds@[i]@ == cols[i] + placeholder(i + 1) + " "@);
        if self.periodic.is_some() {
            count = count + 1;
            conds.push(numbered_condition("periodic = ", count));
            proof { cols = cols.push("periodic = "@); }
        }
        assert(count == cols.len() && forall|i: int| 0 <= i < count ==> #[trigger] conds@[i]@ == cols[i] + placeholder(i + 1) + " "@);
        assert(cols =~= task_filter_columns(self.status.is_some(), self.task_type.is_some(), self.periodic.is_some()));
        let mut last = "get_worker_id_from_task(task_number, ".to_owned();
        last.append("$");
        last.append(digit_str(count + 2));
        last.append(") = ");
        last.append("$");
        last.append(digit_str(count + 1));
        last.append(" ");
        let ghost n = cols.len() as int;
        assert(last@ =~= "get_worker_id_from_task(task_number, "@ + placeholder(n + 2) + ") = "@ + placeholder(n + 1) + " "@);
        conds.push(last);
        let ghost conds_views = conds@.map_values(|c: String| c@);
        let ghost expected = task_conditions(self.status.is_some(), self.task_type.is_some(), self.periodic.is_some());
        assert(conds_views.len() == expected.len());
        assert forall|i: int| 0 <= i < expected.len() implies conds_views[i] == expected[i] by {
            if i < n {
                assert(conds@[i]@ == cols[i] + placeholder(i + 1) + " "@);
            }
        }
        assert(conds_views =~= task_conditions(self.status.is_some(), self.task_type.is_some(), self.periodic.is_some()));
        let mut r = "SELECT * FROM tasks ".to_owned();
        push_where_clause(&mut r, &conds);
        r.append("FOR UPDATE SKIP LOCKED");
        r
    }

    /// The arguments of the query, in the order of their numbers.
    pub fn args(&self) -> (r: Vec<SqlArg>)
        ensures
            args_view(r@) == self.spec_args(),
    {
        let mut r: Vec<SqlArg> = Vec::new();
        if let Some(status) = self.status {
            r.push(SqlArg::Status(status));
        }
        if let Some(task_type) = self.task_type {
            r.push(SqlArg::Text(task_type.to_owned()));
        }
        if let Some(periodic) = self.periodic {
            r.push(SqlArg::Bool(periodic));
        }
        r.push(SqlArg::I64(self.worker_id.assigned_sql()));
        r.push(SqlArg::I64(self.worker_id.total_sql()));
        r
    }
}

/// The arguments of a task listing are as many as its placeholders: one
/// per filter and two for the worker's share.
pub proof fn law_task_listing_binds_every_placeholder(q: GetAllTasks)
    ensures
        q.spec_args().len() == task_filter_columns(q.spec_status() is Some, q.spec_task_type() is Some, q.spec_periodic() is Some).len() + 2,
        q.spec_args().len() == task_conditions(q.spec_status() is Some, q.spec_task_type() is Some, q.spec_periodic() is Some).len() + 1,
{
}

/// The column of a task listing that an argument of its kind is compared
/// with.
pub open spec fn filter_column_of(a: SqlArgView) -> Seq<char> {
    match a {
        SqlArgView::Status(_) => "status = "@,
        SqlArgView::Text(_) => "data->>'type' = "@,
        SqlArgView::Bool(_) => "periodic = "@,
        _ => Seq::empty(),
    }
}

/// In a task listing, for every set of filters, the `i`-th placeholder
/// stands for the `i`-th argument: each filter's condition compares its
/// column with the argument of its own number, in the order status, type,
/// periodic; the last condition compares the worker's share, computed with
/// the total (the last argument), with the worker's number (the one before).
pub proof fn law_task_listing_placeholder_is_its_argument(q: GetAllTasks)
    ensures
        ({
            let conds = task_conditions(q.spec_status() is Some, q.spec_task_type() is Some, q.spec_periodic() is Some);
            let args = q.spec_args();
            let n = conds.len() - 1;
            &&& args.len() == n + 2
            &&& forall|i: int| 0 <= i < n ==> #[trigger] conds[i] == filter_column_of(args[i]) + placeholder(i + 1) + " "@
            &&& conds[n] == "get_worker_id_from_task(task_number, "@ + placeholder(n + 2) + ") = "@ + placeholder(n + 1) + " "@
            &&& args[n] == SqlArgView::I64(q.spec_worker_id().spec_assigned() as i64)
            &&& args[n + 1] == SqlArgView::I64(q.spec_worker_id().spec_total() as i64)
        }),
{
    let st = q.spec_status() is Some;
    let ty = q.spec_task_type() is Some;
    let pe = q.spec_periodic() is Some;
    let cols = task_filter_columns(st, ty, pe);
    let conds = task_conditions(st, ty, pe);
    let args = q.spec_args();
    let n = cols.len() as int;
    assert(conds.len() == n + 1);
    assert forall|i: int| 0 <= i < n implies #[trigger] conds[i] == filter_column_of(args[i]) + placeholder(i + 1) + " "@ by {
        assert(conds[i] == cols[i] + placeholder(i + 1) + " "@);
        assert(filter_column_of(args[i]) == cols[i]);
    }
}

/// Pulls the tasks of one worker that are due, running and not attempted
/// too often, by deadline and then priority.
#[derive(Clone, Copy, Debug)]
pub struct PullAllPendingTasks {
    /// How many tasks one pull takes at most.
    pub limit: u64,
    pub max_attempts: i32,
    /// The point in time the pull is made at, in microseconds.
    pub now: i64,
    pub worker_id: WorkerId,
}

/// How many tasks one pull takes unless told otherwise.
pub const DEFAULT_PULL_LIMIT: u64 = 100;

/// The text of the query that reads the pulled tasks.
pub open spec fn pull_sql() -> Seq<char> {
    "SELECT * FROM tasks "@ + "WHERE status = $1 AND attempts < $2 "@ + "AND deadline <= $3 AND updated_at = $3 "@
        + "AND get_worker_id_from_task(task_number, $5) = $6 "@
        + "ORDER BY deadline, get_task_priority_level(priority) DESC "@ + "FOR UPDATE SKIP LOCKED"@
}

/// The text of the statement that marks due tasks running before they are read.
pub open spec fn pull_prerun_sql() -> Seq<char> {
    r"UPDATE tasks SET status = $1, updated_at = $3,
                last_retry = CASE WHEN attempts > 0
                    THEN $3
                    ELSE last_retry
                END
            WHERE id IN(
                SELECT id FROM tasks
                WHERE attempts < $2
                    AND deadline <= $3
                    AND status = $4
                    AND get_worker_id_from_task(task_number, $5) = $6
                LIMIT $7
            )"@
}

/// The limit as the statement binds it: the number read as an `i64`, made
/// positive.
pub open spec fn bound_limit(limit: u64) -> i64 {
    if limit <= i64::MAX {
        limit as i64
    } else {
        (u64::MAX - limit + 1) as i64
    }
}

impl PullAllPendingTasks {
    /// The arguments of the query that reads the pulled tasks.
    pub open spec fn spec_args(&self) -> Seq<SqlArgView> {
        seq![
            SqlArgView::Status(TaskStatus::Running),
            SqlArgView::I32(self.max_attempts),
            SqlArgView::Timestamp(self.now),
            SqlArgView::Status(TaskStatus::Queued),
            SqlArgView::I64(self.worker_id.spec_total() as i64),
            SqlArgView::I64(self.worker_id.spec_assigned() as i64),
        ]
    }

    /// Takes at most `limit` tasks per pull.
    pub fn limit(self, limit: u64) -> (q: PullAllPendingTasks)
        ensures
            q == (PullAllPendingTasks { limit, ..self }),
    {
        PullAllPendingTasks { limit, ..self }
    }

    /// The text of the query that reads the pulled tasks.
    pub fn sql(&self) -> (r: String)
        ensures
            r@ == pull_sql(),
    {
        let mut r = "SELECT * FROM tasks ".to_owned();
        r.append("WHERE status = $1 AND attempts < $2 ");
        r.append("AND deadline <= $3 AND updated_at = $3 ");
        r.append("AND get_worker_id_from_task(task_number, $5) = $6 ");
        r.append("ORDER BY deadline, get_task_priority_level(priority) DESC ");
        r.append("FOR UPDATE SKIP LOCKED");
        r
    }

    /// The arguments of the query that reads the pulled tasks.
    pub fn args(&self) -> (r: Vec<SqlArg>)
        ensures
            args_view(r@) == self.spec_args(),
    {
        let mut r: Vec<SqlArg> = Vec::new();
        r.push(SqlArg::Status(TaskStatus::Running));
        r.push(SqlArg::I32(self.max_attempts));
        r.push(SqlArg::Timestamp(self.now));
        r.push(SqlArg::Status(TaskStatus::Queued));
        r.push(SqlArg::I64(self.worker_id.total_sql()));
        r.push(SqlArg::I64(self.worker_id.assigned_sql()));
        assert(args_view(r@) =~= self.spec_args());
        r
    }

    /// The text of the statement that marks due tasks running first.
    pub fn prerun_sql(&self) -> (r: String)
        ensures
            r@ == pull_prerun_sql(),
    {
        r"UPDATE tasks SET status = $1, updated_at = $3,
                last_retry = CASE WHEN attempts > 0
                    THEN $3
                    ELSE last_retry
                END
            WHERE id IN(
                SELECT id FROM tasks
                WHERE attempts < $2
                    AND deadline <= $3
                    AND status = $4
                    AND get_worker_id_from_task(task_number, $5) = $6
                LIMIT $7
            )".to_owned()
    }

    /// The arguments of that statement: those of the query, then the limit.
    /// A limit of exactly 2^63 reads as `i64::MIN`, whose absolute value
    /// overflows; `requires` leaves it out.
    pub fn prerun_args(&self) -> (r: Vec<SqlArg>)
        requires
            self.limit != 9223372036854775808u64,
        ensures
            args_view(r@) == self.spec_args().push(SqlArgView::I64(bound_limit(self.limit))),
    {
        let mut r = self.args();
        let bound: i64 = if self.limit <= 9223372036854775807u64 {
            self.limit as i64
        } else {
            (u64::MAX - self.limit + 1) as i64
        };
        let ghost before = r@;
        r.push(SqlArg::I64(bound));
        assert(args_view(r@) =~= args_view(before).push(SqlArgView::I64(bound_limit(self.limit))));
        r
    }
}

impl crate::tasks_schema::task::Task {
    /// Lists the tasks of worker `worker_id`.
    pub fn get_all<'a>(worker_id: WorkerId) -> (q: GetAllTasks<'a>)
        ensures
            q.spec_periodic() is None,
            q.spec_status() is None,
            q.spec_task_type() is None,
            q.spec_worker_id() == worker_id,
    {
        GetAllTasks::new(worker_id)
    }

    /// Pulls the due tasks of worker `worker_id`, at most 100 at once, at
    /// `now` or at the current time when it is `None`.
    pub fn pull_all_pending(worker_id: WorkerId, max_attempts: i32, now: Option<i64>) -> (q: PullAllPendingTasks)
        ensures
            q.limit == DEFAULT_PULL_LIMIT,
            q.max_attempts == max_attempts,
            q.worker_id == worker_id,
            now matches Some(t) ==> q.now == t,
            now is None ==> in_time_range(q.now as int),
    {
        let now: i64 = match now {
            Some(t) => t,
            None => now_micros(),
        };
        PullAllPendingTasks { limit: DEFAULT_PULL_LIMIT, max_attempts, now, worker_id }
    }
}

} // verus!
