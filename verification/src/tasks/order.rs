//! The order in which the worker runs the tasks that are due.

use vstd::prelude::*;
use crate::tasks::pending::{PendingTask, pending_deadline, pending_priority};
use crate::tasks_schema::task::priority_level;
use core::cmp::Ordering;

verus! {

/// Three-way comparison of two ranks.
pub open spec fn compare_u8(a: u8, b: u8) -> Ordering {
    if a < b {
        Ordering::Less
    } else if a == b {
        Ordering::Equal
    } else {
        Ordering::Greater
    }
}

/// Three-way comparison of two points in time.
pub open spec fn compare_i64(a: i64, b: i64) -> Ordering {
    if a < b {
        Ordering::Less
    } else if a == b {
        Ordering::Equal
    } else {
        Ordering::Greater
    }
}

/// Three-way comparison of two orderings: `Less` before `Equal` before `Greater`.
pub open spec fn compare_orderings(a: Ordering, b: Ordering) -> Ordering {
    compare_u8(ordering_rank(a), ordering_rank(b))
}

/// The position of an ordering: `Less` 0, `Equal` 1, `Greater` 2.
pub open spec fn ordering_rank(o: Ordering) -> u8 {
    match o {
        Ordering::Less => 0,
        Ordering::Equal => 1,
        Ordering::Greater => 2,
    }
}

/// How the worker orders two pending tasks before it runs them: the
/// comparison of their priorities, the higher level ranked first, itself
/// compared with the comparison of their deadlines.
pub open spec fn pending_order(a: PendingTask, b: PendingTask) -> Ordering {
    compare_orderings(
        compare_u8(priority_level(pending_priority(b)), priority_level(pending_priority(a))),
        compare_i64(pending_deadline(a), pending_deadline(b)),
    )
}

fn compare_ranks(a: u8, b: u8) -> (r: Ordering)
    ensures
        r == compare_u8(a, b),
{
    if a < b {
        Ordering::Less
    } else if a == b {
        Ordering::Equal
    } else {
        Ordering::Greater
    }
}

fn compare_times(a: i64, b: i64) -> (r: Ordering)
    ensures
        r == compare_i64(a, b),
{
    if a < b {
        Ordering::Less
    } else if a == b {
        Ordering::Equal
    } else {
        Ordering::Greater
    }
}

fn rank_of(o: Ordering) -> (r: u8)
    ensures
        r == ordering_rank(o),
{
    match o {
        Ordering::Less => 0,
        Ordering::Equal => 1,
        Ordering::Greater => 2,
    }
}

impl PendingTask {
    /// How two due tasks compare, `self` against `other`.
    pub fn order(&self, other: &PendingTask) -> (r: Ordering)
        ensures
            r == pending_order(*self, *other),
    {
        let by_priority: Ordering = compare_ranks(other.priority().level(), self.priority().level());
        let by_deadline: Ordering = compare_times(self.deadline(), other.deadline());
        compare_ranks(rank_of(by_priority), rank_of(by_deadline))
    }
}

/// The ordering read the other way round.
pub open spec fn reversed(o: Ordering) -> Ordering {
    match o {
        Ordering::Less => Ordering::Greater,
        Ordering::Equal => Ordering::Equal,
        Ordering::Greater => Ordering::Less,
    }
}

/// Swapping the two tasks reverses their order.
pub proof fn lemma_pending_order_antisymmetric(a: PendingTask, b: PendingTask)
    ensures
        pending_order(b, a) == reversed(pending_order(a, b)),
{
}

/// No task of `s` comes right after one that it should precede.
pub open spec fn no_adjacent_inversion(s: Seq<PendingTask>) -> bool {
    forall|i: int, j: int| 0 <= i && j == i + 1 && j < s.len() ==> pending_order(#[trigger] s[j], #[trigger] s[i]) != Ordering::Less
}

/// Whether `a` should run before `b`.
fn precedes(a: &PendingTask, b: &PendingTask) -> (r: bool)
    ensures
        r == (pending_order(*a, *b) == Ordering::Less),
{
    match a.order(b) {
        Ordering::Less => true,
        _ => false,
    }
}

/// Inserting `x` anywhere adds it to the multiset of the sequence.
proof fn lemma_insert_multiset(s: Seq<PendingTask>, j: usize, x: PendingTask)
    requires
        j <= s.len(),
    ensures
        s.insert(j as int, x).to_multiset() == s.to_multiset().insert(x),
{
    vstd::seq_lib::to_multiset_insert(s, j as int, x);
}

/// `perm` gives, for each position of `r`, the position in `s` of the task
/// found there; each position of `s` is given once.
pub open spec fn is_arrangement(s: Seq<PendingTask>, r: Seq<PendingTask>, perm: Seq<int>) -> bool {
    &&& perm.len() == r.len()
    &&& r.len() == s.len()
    &&& forall|k: int| 0 <= k < perm.len() ==> 0 <= #[trigger] perm[k] < s.len() && r[k] == s[perm[k]]
    &&& forall|a: int, b: int| 0 <= a < b < perm.len() ==> #[trigger] perm[a] != #[trigger] perm[b]
}

/// In `r`, arranged from its input by `perm`, a task is ahead of one that
/// came before it only when it should precede it.
pub open spec fn moved_ahead_only_to_precede(r: Seq<PendingTask>, perm: Seq<int>) -> bool {
    forall|a: int, b: int| 0 <= a < b < perm.len() && #[trigger] perm[a] > #[trigger] perm[b]
        ==> pending_order(r[a], r[b]) == Ordering::Less
}

/// Inserting `x` right after the last task it does not precede, and before
/// the ones it precedes, keeps neighbours in order.
proof fn lemma_insert_keeps_neighbours(before: Seq<PendingTask>, j: int, x: PendingTask)
    requires
        0 <= j <= before.len(),
        no_adjacent_inversion(before),
        j > 0 ==> pending_order(x, before[j - 1]) != Ordering::Less,
        forall|m: int| j <= m < before.len() ==> pending_order(x, #[trigger] before[m]) == Ordering::Less,
    ensures
        no_adjacent_inversion(before.insert(j, x)),
{
    let r = before.insert(j, x);
    assert forall|a: int, b: int| 0 <= a && b == a + 1 && b < r.len() implies pending_order(#[trigger] r[b], #[trigger] r[a]) != Ordering::Less by {
        if b < j {
            assert(r[a] == before[a] && r[b] == before[b]);
        } else if b == j {
            assert(r[a] == before[a]);
        } else if a == j {
            assert(r[b] == before[a]);
            lemma_pending_order_antisymmetric(x, before[a]);
        } else {
            assert(r[a] == before[a - 1] && r[b] == before[b - 1]);
            assert(pending_order(before[b - 1], before[a - 1]) != Ordering::Less);
        }
    }
}

/// Inserting the next input task `x` at `j`, ahead only of tasks it
/// precedes, extends the arrangement by its input position `k`.
proof fn lemma_insert_arrangement(orig: Seq<PendingTask>, k: int, before: Seq<PendingTask>, perm: Seq<int>, j: int, x: PendingTask)
    requires
        0 <= k < orig.len(),
        x == orig[k],
        is_arrangement(orig.take(k), before, perm),
        moved_ahead_only_to_precede(before, perm),
        0 <= j <= before.len(),
        forall|m: int| j <= m < before.len() ==> pending_order(x, #[trigger] before[m]) == Ordering::Less,
    ensures
        is_arrangement(orig.take(k + 1), before.insert(j, x), perm.insert(j, k)),
        moved_ahead_only_to_precede(before.insert(j, x), perm.insert(j, k)),
{
    let r = before.insert(j, x);
    let p = perm.insert(j, k);
    let s = orig.take(k + 1);
    assert forall|m: int| 0 <= m < p.len() implies 0 <= #[trigger] p[m] < s.len() && r[m] == s[p[m]] by {
        if m < j {
            assert(p[m] == perm[m] && r[m] == before[m]);
            assert(0 <= perm[m] < k && before[m] == orig.take(k)[perm[m]]);
        } else if m == j {
            assert(p[m] == k);
        } else {
            assert(p[m] == perm[m - 1] && r[m] == before[m - 1]);
            assert(0 <= perm[m - 1] < k && before[m - 1] == orig.take(k)[perm[m - 1]]);
        }
    }
    assert forall|a: int, b: int| 0 <= a < b < p.len() implies #[trigger] p[a] != #[trigger] p[b] by {
        let pa = if a < j { a } else { a - 1 };
        let pb = if b < j { b } else { b - 1 };
        if a != j && b != j {
            assert(p[a] == perm[pa] && p[b] == perm[pb]);
            assert(perm[pa] != perm[pb]);
        } else if a == j {
            assert(p[b] == perm[pb] && perm[pb] < k);
        } else {
            assert(p[a] == perm[pa] && perm[pa] < k);
        }
    }
    assert forall|a: int, b: int| 0 <= a < b < p.len() && #[trigger] p[a] > #[trigger] p[b]
        implies pending_order(r[a], r[b]) == Ordering::Less by {
        let pa = if a < j { a } else { a - 1 };
        let pb = if b < j { b } else { b - 1 };
        if a != j && b != j {
            assert(p[a] == perm[pa] && p[b] == perm[pb]);
            assert(r[a] == before[pa] && r[b] == before[pb]);
            assert(perm[pa] > perm[pb]);
        } else if a == j {
            assert(r[a] == x && r[b] == before[b - 1]);
            assert(pending_order(x, before[b - 1]) == Ordering::Less);
        } else {
            assert(p[b] == k && p[a] == perm[pa] && perm[pa] < k);
        }
    }
}

/// Puts the due tasks in the order the worker runs them: each task is
/// moved before the ones that it should precede, and tasks that compare
/// equal keep the order they came in.
///
/// The comparison is not transitive across priorities, so the result is
/// only ordered between neighbours.
pub fn sort_pending(tasks: Vec<PendingTask>) -> (r: Vec<PendingTask>)
    ensures
        r@.to_multiset() == tasks@.to_multiset(),
        no_adjacent_inversion(r@),
        exists|perm: Seq<int>| is_arrangement(tasks@, r@, perm) && moved_ahead_only_to_precede(r@, perm),
{
    let ghost orig = tasks@;
    let mut rest = tasks;
    let mut r: Vec<PendingTask> = Vec::new();
    let ghost mut k: int = 0;
    let ghost mut perm: Seq<int> = Seq::empty();
    assert(orig.take(0) =~= r@);
    while rest.len() > 0
        invariant
            0 <= k <= orig.len(),
            rest@ == orig.skip(k),
            r@.to_multiset() == orig.take(k).to_multiset(),
            no_adjacent_inversion(r@),
            is_arrangement(orig.take(k), r@, perm),
            moved_ahead_only_to_precede(r@, perm),
        decreases rest.len(),
    {
        let x = rest.remove(0);
        proof {
            assert(x == orig[k]);
            assert(rest@ =~= orig.skip(k + 1));
        }
        let mut j: usize = r.len();
        let ghost mut jg: int = r@.len() + 0int;
        while j > 0 && precedes(&x, &r[j - 1])
            invariant
                j <= r@.len(),
                jg == j,
                forall|m: int| j <= m < r@.len() ==> pending_order(x, #[trigger] r@[m]) == Ordering::Less,
            decreases j,
        {
            j = j - 1;
            proof {
                jg = jg - 1;
            }
        }
        let ghost before = r@;
        r.insert(j, x);
        proof {
            lemma_insert_multiset(before, j, x);
            assert(orig.take(k + 1) =~= orig.take(k).push(x));
            vstd::seq_lib::to_multiset_build(orig.take(k), x);
            lemma_insert_keeps_neighbours(before, jg, x);
            lemma_insert_arrangement(orig, k, before, perm, jg, x);
            let new_perm = perm.insert(jg, k);
            perm = new_perm;
            k = k + 1;
        }
    }
    proof {
        assert(orig.take(k) =~= orig);
    }
    r
}

/// Among due tasks of one priority, the worker runs the one due latest first.
pub proof fn law_same_priority_latest_deadline_first(s: Seq<PendingTask>)
    requires
        no_adjacent_inversion(s),
        forall|i: int| 0 <= i < s.len() ==> #[trigger] pending_priority(s[i]) == pending_priority(s[0]),
    ensures
        forall|i: int, j: int| 0 <= i < j < s.len() ==> pending_deadline(#[trigger] s[i]) >= pending_deadline(#[trigger] s[j]),
    decreases s.len(),
{
    if s.len() > 1 {
        let t = s.drop_last();
        assert forall|i: int, j: int| 0 <= i && j == i + 1 && j < t.len() implies pending_order(#[trigger] t[j], #[trigger] t[i]) != Ordering::Less by {
            assert(t[i] == s[i] && t[j] == s[j]);
        }
        assert forall|i: int| 0 <= i < t.len() implies #[trigger] pending_priority(t[i]) == pending_priority(t[0]) by {
            assert(t[i] == s[i]);
            assert(pending_priority(s[i]) == pending_priority(s[0]));
        }
        law_same_priority_latest_deadline_first(t);
        let n = s.len() - 1;
        assert(pending_order(s[n], s[n - 1]) != Ordering::Less);
        assert(pending_priority(s[n]) == pending_priority(s[0]));
        assert(pending_priority(s[n - 1]) == pending_priority(s[0]));
        assert forall|i: int, j: int| 0 <= i < j < s.len() implies pending_deadline(#[trigger] s[i]) >= pending_deadline(#[trigger] s[j]) by {
            if j < n {
                assert(t[i] == s[i] && t[j] == s[j]);
            } else if i < n - 1 {
                assert(t[i] == s[i] && t[n - 1] == s[n - 1]);
                assert(pending_deadline(t[i]) >= pending_deadline(t[n - 1]));
            }
        }
    }
}

/// Among due tasks with one deadline, the worker runs those of higher
/// priority first: `High`, then `Medium`, then `Low`.
pub proof fn law_same_deadline_highest_priority_first(s: Seq<PendingTask>)
    requires
        no_adjacent_inversion(s),
        forall|i: int| 0 <= i < s.len() ==> #[trigger] pending_deadline(s[i]) == pending_deadline(s[0]),
    ensures
        forall|i: int, j: int| 0 <= i < j < s.len()
            ==> priority_level(pending_priority(#[trigger] s[i])) >= priority_level(pending_priority(#[trigger] s[j])),
    decreases s.len(),
{
    if s.len() > 1 {
        let t = s.drop_last();
        assert forall|i: int, j: int| 0 <= i && j == i + 1 && j < t.len() implies pending_order(#[trigger] t[j], #[trigger] t[i]) != Ordering::Less by {
            assert(t[i] == s[i] && t[j] == s[j]);
        }
        assert forall|i: int| 0 <= i < t.len() implies #[trigger] pending_deadline(t[i]) == pending_deadline(t[0]) by {
            assert(t[i] == s[i]);
            assert(pending_deadline(s[i]) == pending_deadline(s[0]));
        }
        law_same_deadline_highest_priority_first(t);
        let n = s.len() - 1;
        assert(pending_order(s[n], s[n - 1]) != Ordering::Less);
        assert(pending_deadline(s[n]) == pending_deadline(s[0]));
        assert(pending_deadline(s[n - 1]) == pending_deadline(s[0]));
        assert forall|i: int, j: int| 0 <= i < j < s.len()
            implies priority_level(pending_priority(#[trigger] s[i])) >= priority_level(pending_priority(#[trigger] s[j])) by {
            if j < n {
                assert(t[i] == s[i] && t[j] == s[j]);
            } else if i < n - 1 {
                assert(t[i] == s[i] && t[n - 1] == s[n - 1]);
                assert(priority_level(pending_priority(t[i])) >= priority_level(pending_priority(t[n - 1])));
            }
        }
    }
}

/// How two due tasks compare, in terms of their priority levels and their
/// deadlines. A task of higher priority goes first unless its deadline is
/// earlier, and then the two compare equal; a task of lower priority goes
/// after unless its deadline is later, and then they compare equal; of one
/// priority, the later deadline goes first.
pub proof fn law_pending_order_by_priority_and_deadline(a: PendingTask, b: PendingTask)
    ensures
        ({
            let la = priority_level(pending_priority(a));
            let lb = priority_level(pending_priority(b));
            let da = pending_deadline(a);
            let db = pending_deadline(b);
            &&& la > lb && da >= db ==> pending_order(a, b) == Ordering::Less
            &&& la > lb && da < db ==> pending_order(a, b) == Ordering::Equal
            &&& la < lb && da <= db ==> pending_order(a, b) == Ordering::Greater
            &&& la < lb && da > db ==> pending_order(a, b) == Ordering::Equal
            &&& la == lb && da > db ==> pending_order(a, b) == Ordering::Less
            &&& la == lb && da == db ==> pending_order(a, b) == Ordering::Equal
            &&& la == lb && da < db ==> pending_order(a, b) == Ordering::Greater
        }),
{
}

} // verus!
