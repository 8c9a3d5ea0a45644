//! When a task runs again by itself.

use vstd::prelude::*;
use crate::tasks::time::{TimeDelta, checked_add_millis, now_micros, spec_add_millis, in_time_range, utc_date, utc_date_of, MAX_TIMESTAMP_MICROS, MIN_TIMESTAMP_MICROS};
use crate::text::{char_is_digit, chars_of, is_digit};

verus! {

/// A space as `cron_clock`'s parser skips it around numbers: a blank, a
/// tab, a carriage return or a line feed.
pub open spec fn is_cron_space(c: char) -> bool {
    c == ' ' || c == '\t' || c == '\r' || c == '\n'
}

/// The first position at or after `j` that holds no such space.
pub open spec fn after_spaces(s: Seq<char>, j: int) -> int
    decreases s.len() - j,
{
    if 0 <= j < s.len() && is_cron_space(s[j]) {
        after_spaces(s, j + 1)
    } else {
        j
    }
}

/// The first position at or after `k` that holds no `0`.
pub open spec fn after_zeros(s: Seq<char>, k: int) -> int
    decreases s.len() - k,
{
    if 0 <= k < s.len() && s[k] == '0' {
        after_zeros(s, k + 1)
    } else {
        k
    }
}

/// From position `j` on, after any spaces, `s` holds a number made of one
/// or more `0`s and no other digit: a step of zero when `j` follows a `/`.
pub open spec fn zero_step_from(s: Seq<char>, j: int) -> bool {
    let k = after_spaces(s, j);
    let e = after_zeros(s, k);
    k < e && !(e < s.len() && is_digit(s[e]))
}

/// No `/` of `s` is followed by a step of zero. `cron_clock` panics while
/// parsing a field with a step of zero (it calls `step_by(0)`), and refuses
/// every other text that holds one, so such a text is never an expression.
pub open spec fn no_zero_step(s: Seq<char>) -> bool {
    forall|i: int| 0 <= i < s.len() && s[i] == '/' ==> !zero_step_from(s, i + 1)
}

/// Whether `cron_clock` accepts `expr` as a cron expression.
pub uninterp spec fn valid_cron_expr(expr: Seq<char>) -> bool;

/// Whether the years field of the cron expression `expr` lists `year`, as
/// `cron_clock` reads it.
pub uninterp spec fn cron_year_listed(expr: Seq<char>, year: u32) -> bool;

/// The first point in time (microseconds since the epoch, UTC) after
/// `after_us` that the cron expression `expr` matches, as `cron_clock`
/// computes it; `None` when there is none or `expr` is no cron expression.
pub uninterp spec fn cron_upcoming(expr: Seq<char>, after_us: i64) -> Option<i64>;

/// Tells whether `expr` is a cron expression.
///
/// Trusted: calls `cron_clock::Schedule::from_str`; the contract names what
/// it decides, which depends on `expr` alone. The parser panics on a step
/// of zero, which `requires` leaves out.
#[verifier::external_body]
fn parses_as_cron(expr: &str) -> (r: bool)
    requires
        no_zero_step(expr@),
    ensures
        r == valid_cron_expr(expr@),
{
    <cron_clock::Schedule as std::str::FromStr>::from_str(expr).is_ok()
}

/// Tells whether the cron expression `expr` lists `year`.
///
/// Trusted: parses `expr` with `cron_clock::Schedule::from_str` and asks
/// `TimeUnitSpec::includes` of the schedule's `years()`; `false` when `expr`
/// does not parse. The contract names the answer, which depends on the two
/// arguments alone. A step of zero, on which the parser panics, is left out.
#[verifier::external_body]
fn cron_lists_year(expr: &str, year: u32) -> (r: bool)
    requires
        no_zero_step(expr@),
    ensures
        r == cron_year_listed(expr@, year),
{
    match <cron_clock::Schedule as std::str::FromStr>::from_str(expr) {
        Ok(schedule) => cron_clock::TimeUnitSpec::includes(schedule.years(), year),
        Err(_) => false,
    }
}

/// Whether `cron_clock` can look for the next match of `expr` after
/// `after_us` without panicking. It starts its search one second later,
/// and chrono panics on a sum past its last instant. A search that starts
/// on February 29 of a year that the expression does not list walks into
/// the same day of the next listed year, and when that year has no
/// February 29 it asks for the days 29 to 28 and panics; searches from
/// other days, from listed years and from years before 0 are safe.
pub open spec fn cron_search_safe(expr: Seq<char>, after_us: i64) -> bool {
    &&& after_us <= MAX_TIMESTAMP_MICROS - 1_000_000
    &&& in_time_range(after_us + 1_000_000) ==> {
        let d = utc_date((after_us + 1_000_000) as i64);
        (d.1 == 2 && d.2 == 29 && d.0 >= 0) ==> cron_year_listed(expr, d.0 as u32)
    }
}

/// The next time the cron expression `expr` matches after `after_us`.
///
/// Trusted: converts `expr` into a `cron_clock::Schedule` and `after_us`
/// into a `chrono::DateTime<Utc>`, then calls `Schedule::after` and takes
/// the first item of that iterator. The contract names the result, which
/// depends on the two arguments alone (the time zone is UTC). `requires`
/// leaves out the inputs on which the parse or the search panics: a step
/// of zero, and the searches that `cron_search_safe` rules out.
#[verifier::external_body]
fn cron_next_after(expr: &str, after_us: i64) -> (r: Option<i64>)
    requires
        no_zero_step(expr@),
        cron_search_safe(expr@, after_us),
    ensures
        r == cron_upcoming(expr@, after_us),
{
    match (<cron_clock::Schedule as std::str::FromStr>::from_str(expr), chrono::DateTime::from_timestamp_micros(after_us)) {
        (Ok(schedule), Some(after)) => schedule.after(&after).next().map(|t| t.timestamp_micros()),
        _ => None,
    }
}

/// Tells whether `c` is a space that the cron parser skips.
fn char_is_cron_space(c: char) -> (r: bool)
    ensures
        r == is_cron_space(c),
{
    c == ' ' || c == '\t' || c == '\r' || c == '\n'
}

/// Whether a step of zero starts at position `j` of `chars`.
fn zero_step_at(chars: &Vec<char>, j: usize) -> (r: bool)
    requires
        j <= chars@.len(),
    ensures
        r == zero_step_from(chars@, j as int),
{
    let mut k: usize = j;
    while k < chars.len() && char_is_cron_space(chars[k])
        invariant
            j <= k <= chars@.len(),
            after_spaces(chars@, j as int) == after_spaces(chars@, k as int),
        decreases chars.len() - k,
    {
        k = k + 1;
    }
    let mut e: usize = k;
    while e < chars.len() && chars[e] == '0'
        invariant
            k <= e <= chars@.len(),
            after_spaces(chars@, j as int) == k,
            after_zeros(chars@, k as int) == after_zeros(chars@, e as int),
        decreases chars.len() - e,
    {
        e = e + 1;
    }
    k < e && !(e < chars.len() && char_is_digit(chars[e]))
}

/// Tells whether no `/` of `s` is followed by a step of zero.
fn has_no_zero_step(s: &str) -> (r: bool)
    ensures
        r == no_zero_step(s@),
{
    let chars = chars_of(s);
    let mut i: usize = 0;
    while i < chars.len()
        invariant
            chars@ == s@,
            i <= chars@.len(),
            forall|m: int| 0 <= m < i && s@[m] == '/' ==> !zero_step_from(s@, m + 1),
        decreases chars.len() - i,
    {
        if chars[i] == '/' && zero_step_at(&chars, i + 1) {
            assert(s@[i as int] == '/' && zero_step_from(s@, i + 1));
            return false;
        }
        i = i + 1;
    }
    true
}

/// A cron expression that `cron_clock` accepts.
#[derive(Debug, PartialEq, Eq, Hash)]
pub struct CronSchedule {
    source: String,
}

impl Clone for CronSchedule {
    fn clone(&self) -> (r: Self)
        ensures
            r@ == self@,
    {
        proof {
            use_type_invariant(self);
        }
        CronSchedule { source: self.source.clone() }
    }
}

impl View for CronSchedule {
    type V = Seq<char>;

    closed spec fn view(&self) -> Seq<char> {
        self.source@
    }
}

impl CronSchedule {
    /// The expression holds no step of zero.
    #[verifier::type_invariant]
    spec fn well_formed(self) -> bool {
        no_zero_step(self.source@)
    }

    /// The expression, as written.
    pub fn source(&self) -> (r: &str)
        ensures
            r@ == self@,
    {
        self.source.as_str()
    }
}

/// The reasons a task runs again without being scheduled.
#[derive(Debug)]
pub enum TaskTrigger {
    /// Never by itself: the task runs only when it is scheduled.
    OnDemand,
    /// Whenever the cron expression next matches.
    Cron(CronSchedule),
    /// Every given span of time.
    Interval(TimeDelta),
    /// Whenever any of these triggers fires.
    Multiple(Vec<TaskTrigger>),
}

/// The expression is not a cron expression.
#[derive(Clone, Copy, Debug, PartialEq, Eq)]
pub struct InvalidCronExpr;

impl InvalidCronExpr {
    /// What went wrong, in words.
    pub fn message(&self) -> (r: &'static str)
        ensures
            r@ == "invalid cron expression"@,
    {
        "invalid cron expression"
    }
}

/// `t` makes a task run again by itself.
pub open spec fn spec_is_recurring(t: TaskTrigger) -> bool
    decreases t, 0nat,
{
    match t {
        TaskTrigger::OnDemand => false,
        TaskTrigger::Cron(_) => true,
        TaskTrigger::Interval(_) => true,
        TaskTrigger::Multiple(ts) => any_recurring(ts@, ts@.len()),
    }
}

/// One of the first `n` triggers of `ts` is recurring.
pub open spec fn any_recurring(ts: Seq<TaskTrigger>, n: nat) -> bool
    decreases ts, n,
{
    if n == 0 || n > ts.len() {
        false
    } else {
        any_recurring(ts, (n - 1) as nat) || spec_is_recurring(ts[n - 1])
    }
}

/// The earlier of two optional points in time; the first on a tie.
pub open spec fn earliest(current: Option<i64>, next: Option<i64>) -> Option<i64> {
    match next {
        Some(n) => match current {
            Some(c) => if n < c { Some(n) } else { Some(c) },
            None => Some(n),
        },
        None => current,
    }
}

/// When `t` next fires after `now`: never for `OnDemand`; when the cron
/// expression next matches, where `cron_clock` can search for it without
/// panicking (see `cron_search_safe`), and never elsewhere; `now` plus the
/// interval; the earliest of the triggers of `Multiple`.
pub open spec fn spec_upcoming(t: TaskTrigger, now: i64) -> Option<i64>
    decreases t, 0nat,
{
    match t {
        TaskTrigger::OnDemand => None,
        TaskTrigger::Cron(c) => if cron_search_safe(c@, now) {
            cron_upcoming(c@, now)
        } else {
            None
        },
        TaskTrigger::Interval(d) => spec_add_millis(now, d.spec_millis()),
        TaskTrigger::Multiple(ts) => multi_upcoming(ts@, ts@.len(), now),
    }
}

/// The earliest time that one of the first `n` triggers of `ts` fires
/// after `now`, taken in order.
pub open spec fn multi_upcoming(ts: Seq<TaskTrigger>, n: nat, now: i64) -> Option<i64>
    decreases ts, n,
{
    if n == 0 || n > ts.len() {
        None
    } else {
        earliest(multi_upcoming(ts, (n - 1) as nat, now), spec_upcoming(ts[n - 1], now))
    }
}

proof fn lemma_multi_upcoming_is_min(ts: Seq<TaskTrigger>, n: nat, now: i64)
    requires
        n <= ts.len(),
    ensures
        multi_upcoming(ts, n, now) is None <==> forall|i: int| 0 <= i < n ==> #[trigger] spec_upcoming(ts[i], now) is None,
        multi_upcoming(ts, n, now) matches Some(x) ==> {
            &&& exists|i: int| 0 <= i < n && #[trigger] spec_upcoming(ts[i], now) == Some(x)
            &&& forall|i: int| 0 <= i < n ==> (#[trigger] spec_upcoming(ts[i], now) matches Some(y) ==> x <= y)
        },
    decreases n,
{
    if n > 0 {
        lemma_multi_upcoming_is_min(ts, (n - 1) as nat, now);
        let prev = multi_upcoming(ts, (n - 1) as nat, now);
        let last = spec_upcoming(ts[n - 1], now);
        if let Some(x) = multi_upcoming(ts, n, now) {
            if last == Some(x) {
                assert(spec_upcoming(ts[n - 1], now) == Some(x));
            } else {
                let i = choose|i: int| 0 <= i < n - 1 && #[trigger] spec_upcoming(ts[i], now) == Some(x);
                assert(spec_upcoming(ts[i], now) == Some(x));
            }
        }
    }
}

proof fn lemma_any_recurring_exists(ts: Seq<TaskTrigger>, n: nat)
    requires
        n <= ts.len(),
    ensures
        any_recurring(ts, n) <==> exists|i: int| 0 <= i < n && #[trigger] spec_is_recurring(ts[i]),
    decreases n,
{
    if n > 0 {
        lemma_any_recurring_exists(ts, (n - 1) as nat);
        if spec_is_recurring(ts[n - 1]) {
            assert(spec_is_recurring(ts[n - 1]));
        }
        if any_recurring(ts, n) && !spec_is_recurring(ts[n - 1]) {
            let i = choose|i: int| 0 <= i < n - 1 && #[trigger] spec_is_recurring(ts[i]);
            assert(spec_is_recurring(ts[i]));
        }
    }
}

/// A combination of triggers fires at the earliest time one of its
/// triggers fires, and never when none of them fires.
pub proof fn law_multiple_fires_at_earliest(ts: Vec<TaskTrigger>, now: i64)
    ensures
        spec_upcoming(TaskTrigger::Multiple(ts), now) is None <==> forall|i: int|
            0 <= i < ts@.len() ==> #[trigger] spec_upcoming(ts@[i], now) is None,
        spec_upcoming(TaskTrigger::Multiple(ts), now) matches Some(x) ==> {
            &&& exists|i: int| 0 <= i < ts@.len() && #[trigger] spec_upcoming(ts@[i], now) == Some(x)
            &&& forall|i: int| 0 <= i < ts@.len() ==> (#[trigger] spec_upcoming(ts@[i], now) matches Some(y) ==> x <= y)
        },
{
    lemma_multi_upcoming_is_min(ts@, ts@.len(), now);
}

/// A combination of triggers is recurring exactly when one of its
/// triggers is.
pub proof fn law_multiple_recurring_iff_any(ts: Vec<TaskTrigger>)
    ensures
        spec_is_recurring(TaskTrigger::Multiple(ts)) <==> exists|i: int|
            0 <= i < ts@.len() && #[trigger] spec_is_recurring(ts@[i]),
{
    lemma_any_recurring_exists(ts@, ts@.len());
}

/// A trigger that is not recurring never fires by itself.
pub proof fn law_not_recurring_never_fires(t: TaskTrigger, now: i64)
    requires
        !spec_is_recurring(t),
    ensures
        spec_upcoming(t, now) is None,
    decreases t,
{
    if let TaskTrigger::Multiple(ts) = t {
        lemma_any_recurring_exists(ts@, ts@.len());
        assert forall|i: int| 0 <= i < ts@.len() implies #[trigger] spec_upcoming(ts@[i], now) is None by {
            assert(decreases_to!(t => ts));
            assert(decreases_to!(ts => ts@));
            assert(decreases_to!(ts@ => ts@[i]));
            law_not_recurring_never_fires(ts@[i], now);
        }
        lemma_multi_upcoming_is_min(ts@, ts@.len(), now);
    }
}

/// Each trigger of a `Multiple` is smaller than the `Multiple` itself.
proof fn lemma_elements_decrease(t: TaskTrigger)
    ensures
        t matches TaskTrigger::Multiple(ts) ==> forall|j: int|
            0 <= j < ts@.len() ==> #[trigger] decreases_to!(t => ts@[j]),
{
    if let TaskTrigger::Multiple(ts) = t {
        assert forall|j: int| 0 <= j < ts@.len() implies #[trigger] decreases_to!(t => ts@[j]) by {
            assert(decreases_to!(t => ts));
            assert(decreases_to!(ts => ts@));
            assert(decreases_to!(ts@ => ts@[j]));
        }
    }
}

impl TaskTrigger {
    /// A trigger that fires whenever the cron expression matches. A text
    /// with a step of zero is refused before it reaches the parser, which
    /// would panic on it.
    pub fn cron(expr: &str) -> (r: Result<TaskTrigger, InvalidCronExpr>)
        ensures
            r is Ok <==> (no_zero_step(expr@) && valid_cron_expr(expr@)),
            r matches Ok(t) ==> (t matches TaskTrigger::Cron(c) && c@ == expr@),
    {
        if has_no_zero_step(expr) && parses_as_cron(expr) {
            Ok(TaskTrigger::Cron(CronSchedule { source: expr.to_owned() }))
        } else {
            Err(InvalidCronExpr)
        }
    }

    /// A trigger that fires every `delta`.
    pub fn interval(delta: TimeDelta) -> (r: TaskTrigger)
        ensures
            r == TaskTrigger::Interval(delta),
    {
        TaskTrigger::Interval(delta)
    }

    /// Whether the trigger makes a task run again by itself.
    pub fn is_recurring(&self) -> (r: bool)
        ensures
            r == spec_is_recurring(*self),
        decreases self,
    {
        match self {
            TaskTrigger::OnDemand => false,
            TaskTrigger::Cron(_) => true,
            TaskTrigger::Interval(_) => true,
            TaskTrigger::Multiple(ts) => {
                let mut i: usize = 0;
                let mut any: bool = false;
                proof {
                    lemma_elements_decrease(*self);
                }
                while i < ts.len()
                    invariant
                        forall|j: int| 0 <= j < ts@.len() ==> #[trigger] decreases_to!(*self => ts@[j]),
                        i <= ts@.len(),
                        any == any_recurring(ts@, i as nat),
                    decreases ts.len() - i,
                {
                    assert(decreases_to!(*self => ts@[i as int]));
                    let r: bool = ts[i].is_recurring();
                    any = any || r;
                    i = i + 1;
                }
                any
            },
        }
    }

    /// When the trigger next fires after `now` (microseconds since the epoch).
    pub fn upcoming_at(&self, now: i64) -> (r: Option<i64>)
        ensures
            r == spec_upcoming(*self, now),
        decreases self,
    {
        match self {
            TaskTrigger::OnDemand => None,
            TaskTrigger::Cron(c) => {
                proof {
                    use_type_invariant(c);
                }
                if now > MAX_TIMESTAMP_MICROS - 1_000_000i64 {
                    None
                } else {
                    let start: i64 = now + 1_000_000i64;
                    let safe: bool = if start < MIN_TIMESTAMP_MICROS {
                        true
                    } else {
                        let (year, month, day) = utc_date_of(start);
                        if month == 2 && day == 29 && year >= 0 {
                            cron_lists_year(c.source.as_str(), year as u32)
                        } else {
                            true
                        }
                    };
                    if safe {
                        cron_next_after(c.source.as_str(), now)
                    } else {
                        None
                    }
                }
            },
            TaskTrigger::Interval(d) => checked_add_millis(now, d.num_milliseconds()),
            TaskTrigger::Multiple(ts) => {
                let mut i: usize = 0;
                let mut result: Option<i64> = None;
                proof {
                    lemma_elements_decrease(*self);
                }
                while i < ts.len()
                    invariant
                        forall|j: int| 0 <= j < ts@.len() ==> #[trigger] decreases_to!(*self => ts@[j]),
                        i <= ts@.len(),
                        result == multi_upcoming(ts@, i as nat, now),
                    decreases ts.len() - i,
                {
                    assert(decreases_to!(*self => ts@[i as int]));
                    let next: Option<i64> = ts[i].upcoming_at(now);
                    result = match next {
                        Some(n) => match result {
                            Some(c) => if n < c { Some(n) } else { Some(c) },
                            None => Some(n),
                        },
                        None => result,
                    };
                    i = i + 1;
                }
                result
            },
        }
    }

    /// When the trigger next fires after `now`, or after the current time
    /// when `now` is `None`.
    pub fn upcoming(&self, now: Option<i64>) -> (r: Option<i64>)
        ensures
            now matches Some(t) ==> r == spec_upcoming(*self, t),
            now is None ==> exists|t: i64| in_time_range(t as int) && r == spec_upcoming(*self, t),
    {
        match now {
            Some(t) => self.upcoming_at(t),
            None => {
                let t: i64 = now_micros();
                let r = self.upcoming_at(t);
                assert(in_time_range(t as int) && r == spec_upcoming(*self, t));
                r
            },
        }
    }
}

/// A trigger on demand never fires by itself and is not recurring; an
/// interval fires exactly its span after `now` (when that lies within
/// chrono's range) and is recurring, as a cron expression is.
pub proof fn law_simple_triggers(d: TimeDelta, c: CronSchedule, now: i64)
    ensures
        spec_upcoming(TaskTrigger::OnDemand, now) is None,
        !spec_is_recurring(TaskTrigger::OnDemand),
        spec_is_recurring(TaskTrigger::Interval(d)),
        spec_is_recurring(TaskTrigger::Cron(c)),
        in_time_range(now as int) && in_time_range(now + d.spec_millis() * 1000)
            ==> spec_upcoming(TaskTrigger::Interval(d), now) == Some((now + d.spec_millis() * 1000) as i64),
        !in_time_range(now + d.spec_millis() * 1000) ==> spec_upcoming(TaskTrigger::Interval(d), now) is None,
{
}

} // verus!
