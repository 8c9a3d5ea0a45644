//! How long a failed task waits before it runs again.

use vstd::prelude::*;
use crate::tasks::time::TimeDelta;

verus! {

/// `f` to the power `n`.
pub open spec fn power(f: int, n: nat) -> int
    decreases n,
{
    if n == 0 {
        1
    } else {
        f * power(f, (n - 1) as nat)
    }
}

/// `x` held within the spans a `TimeDelta` can have, `-i64::MAX` to `i64::MAX`
/// milliseconds.
pub open spec fn clamp_span(x: int) -> int {
    if x > i64::MAX {
        i64::MAX as int
    } else if x < -i64::MAX {
        -i64::MAX
    } else {
        x
    }
}

/// The span `base` times `factor` to the power `retries`, in milliseconds,
/// held within the spans a `TimeDelta` can have.
pub open spec fn spec_exponential(base_ms: int, factor: nat, retries: nat) -> int {
    clamp_span(base_ms * power(factor as int, retries))
}

/// Multiplying a held value by a natural number and holding the result
/// again is holding the plain product.
proof fn lemma_clamp_mul(x: int, f: int)
    requires
        f >= 0,
    ensures
        clamp_span(clamp_span(x) * f) == clamp_span(x * f),
{
    if f >= 1 {
        if x > i64::MAX {
            assert(x * f >= x) by (nonlinear_arith)
                requires
                    x > 0,
                    f >= 1;
            assert((i64::MAX as int) * f >= i64::MAX) by (nonlinear_arith)
                requires
                    f >= 1;
        } else if x < -i64::MAX {
            assert(x * f <= x) by (nonlinear_arith)
                requires
                    x < 0,
                    f >= 1;
            assert((-i64::MAX as int) * f <= -i64::MAX) by (nonlinear_arith)
                requires
                    f >= 1;
        }
    } else {
        assert(f == 0);
        assert(x * f == 0) by (nonlinear_arith)
            requires
                f == 0;
        assert(clamp_span(x) * f == 0) by (nonlinear_arith)
            requires
                f == 0;
    }
}

/// One more power of `f`.
proof fn lemma_power_step(b: int, f: int, n: nat)
    ensures
        b * power(f, n + 1) == (b * power(f, n)) * f,
{
    assert(power(f, n + 1) == f * power(f, n));
    assert(b * (f * power(f, n)) == (b * power(f, n)) * f) by (nonlinear_arith);
}

/// The wait before a run after `retries` retries: `base` times `factor`
/// to the power `retries` (`base` itself for none), at most as long as a
/// `TimeDelta` can be.
pub fn exponential(base: TimeDelta, factor: u32, retries: u16) -> (d: TimeDelta)
    ensures
        d.spec_millis() == spec_exponential(base.spec_millis() as int, factor as nat, retries as nat),
{
    let mut acc: i64 = base.num_milliseconds();
    let mut i: u16 = 0;
    assert(power(factor as int, 0) == 1);
    assert(base.spec_millis() * 1 == base.spec_millis());
    while i < retries
        invariant
            i <= retries,
            -i64::MAX <= acc,
            acc == spec_exponential(base.spec_millis() as int, factor as nat, i as nat),
        decreases retries - i,
    {
        let a: i128 = acc as i128;
        let f: i128 = factor as i128;
        assert(-0x8000_0000_0000_0000_0000_0000 <= a * f <= 0x8000_0000_0000_0000_0000_0000) by (nonlinear_arith)
            requires
                -0x8000_0000_0000_0000 <= a <= 0x8000_0000_0000_0000,
                0 <= f <= 0x1_0000_0000;
        let wide: i128 = a * f;
        let next: i64 = if wide > i64::MAX as i128 {
            i64::MAX
        } else if wide < -(i64::MAX as i128) {
            -i64::MAX
        } else {
            wide as i64
        };
        proof {
            let b = base.spec_millis() as int;
            let f = factor as int;
            lemma_power_step(b, f, i as nat);
            lemma_clamp_mul(b * power(f, i as nat), f);
            assert(next == clamp_span(acc * f));
        }
        acc = next;
        i = i + 1;
    }
    TimeDelta::milliseconds(acc)
}

/// The default wait of a task type after `retries` retries: one minute,
/// doubled for each retry.
pub fn default_backoff(retries: u16) -> (d: TimeDelta)
    ensures
        d.spec_millis() == spec_exponential(60000, 2, retries as nat),
{
    exponential(TimeDelta::minutes(1), 2, retries)
}

/// Each retry multiplies the wait by the factor, until the wait is as
/// long as a `TimeDelta` can be: by default one minute, then two, then four.
pub proof fn law_each_retry_multiplies_the_wait(base_ms: int, factor: nat, retries: nat)
    ensures
        spec_exponential(base_ms, factor, 0) == clamp_span(base_ms),
        spec_exponential(base_ms, factor, retries + 1) == clamp_span(spec_exponential(base_ms, factor, retries) * factor),
{
    assert(base_ms * power(factor as int, 0) == base_ms);
    lemma_power_step(base_ms, factor as int, retries);
    lemma_clamp_mul(base_ms * power(factor as int, retries), factor as int);
}

} // verus!
