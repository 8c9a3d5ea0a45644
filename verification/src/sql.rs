//! Building the text of SQL queries and the arguments bound to them.

use vstd::prelude::*;
use vstd::string::*;
use crate::tasks_schema::task::TaskStatus;

verus! {

/// A value bound to a numbered placeholder of a query.
#[derive(Clone, Debug)]
pub enum SqlArg {
    Status(TaskStatus),
    Text(String),
    Bool(bool),
    I64(i64),
    I32(i32),
    /// A point in time, in microseconds since the epoch.
    Timestamp(i64),
    /// A Discord id, which the database stores as a signed 64-bit number.
    Snowflake(u64),
}

/// An argument as plain values.
pub enum SqlArgView {
    Status(TaskStatus),
    Text(Seq<char>),
    Bool(bool),
    I64(i64),
    I32(i32),
    Timestamp(i64),
    Snowflake(u64),
}

/// The argument `a` as plain values.
pub open spec fn arg_view(a: SqlArg) -> SqlArgView {
    match a {
        SqlArg::Status(s) => SqlArgView::Status(s),
        SqlArg::Text(t) => SqlArgView::Text(t@),
        SqlArg::Bool(b) => SqlArgView::Bool(b),
        SqlArg::I64(n) => SqlArgView::I64(n),
        SqlArg::I32(n) => SqlArgView::I32(n),
        SqlArg::Timestamp(t) => SqlArgView::Timestamp(t),
        SqlArg::Snowflake(n) => SqlArgView::Snowflake(n),
    }
}

/// The arguments `args` as plain values.
pub open spec fn args_view(args: Seq<SqlArg>) -> Seq<SqlArgView> {
    args.map_values(|a: SqlArg| arg_view(a))
}

/// The decimal text of `n`, from 1 to 9.
pub open spec fn digit_text(n: int) -> Seq<char> {
    if n == 1 {
        "1"@
    } else if n == 2 {
        "2"@
    } else if n == 3 {
        "3"@
    } else if n == 4 {
        "4"@
    } else if n == 5 {
        "5"@
    } else if n == 6 {
        "6"@
    } else if n == 7 {
        "7"@
    } else if n == 8 {
        "8"@
    } else {
        "9"@
    }
}

/// The decimal text of `n`, from 1 to 9.
pub fn digit_str(n: u8) -> (r: &'static str)
    requires
        1 <= n <= 9,
    ensures
        r@ == digit_text(n as int),
{
    if n == 1 {
        "1"
    } else if n == 2 {
        "2"
    } else if n == 3 {
        "3"
    } else if n == 4 {
        "4"
    } else if n == 5 {
        "5"
    } else if n == 6 {
        "6"
    } else if n == 7 {
        "7"
    } else if n == 8 {
        "8"
    } else {
        "9"
    }
}

/// The placeholder of the `n`-th argument: `$n`.
pub open spec fn placeholder(n: int) -> Seq<char> {
    "$"@ + digit_text(n)
}

/// `conds` joined into a `WHERE` clause: the first after `WHERE `, each
/// next one after ` AND `; nothing when there is no condition.
pub open spec fn where_clause(conds: Seq<Seq<char>>) -> Seq<char>
    decreases conds.len(),
{
    if conds.len() == 0 {
        Seq::empty()
    } else if conds.len() == 1 {
        "WHERE "@ + conds[0]
    } else {
        where_clause(conds.drop_last()) + " AND "@ + conds.last()
    }
}

/// Appends the `WHERE` clause of `conds` to `s`.
pub fn push_where_clause(s: &mut String, conds: &Vec<String>)
    ensures
        final(s)@ == old(s)@ + where_clause(conds@.map_values(|c: String| c@)),
{
    let ghost views = conds@.map_values(|c: String| c@);
    let ghost start = s@;
    let mut i: usize = 0;
    while i < conds.len()
        invariant
            views == conds@.map_values(|c: String| c@),
            i <= conds@.len(),
            s@ == start + where_clause(views.take(i as int)),
        decreases conds.len() - i,
    {
        assert(views.take(i + 1).drop_last() =~= views.take(i as int));
        if i == 0 {
            s.append("WHERE ");
        } else {
            s.append(" AND ");
        }
        s.append(conds[i].as_str());
        proof {
            assert(views.take(i + 1).last() == conds@[i as int]@);
            if i == 0 {
                assert(views.take(1).len() == 1);
            }
        }
        assert(s@ =~= start + where_clause(views.take(i + 1)));
        i = i + 1;
    }
    assert(views.take(i as int) =~= views);
}

} // verus!
