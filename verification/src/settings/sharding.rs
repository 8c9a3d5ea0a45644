//! Which Discord gateway shards an Eden instance connects.

use vstd::prelude::*;
use crate::nonzero::NonZeroU64;
use crate::text::{decimal_text, push_decimal};

verus! {

/// Shard assignment of one instance of the bot.
#[derive(Clone, Copy, Debug, PartialEq, Eq)]
pub enum Sharding {
    /// One shard, numbered `id`, out of `total`.
    Single { id: u64, total: NonZeroU64 },
    /// The shards `start..=end` out of `total`.
    Range { start: u64, end: u64, total: NonZeroU64 },
}

/// The rule of a sharding configuration that `Sharding::check` found broken.
#[derive(Clone, Copy, Debug, PartialEq, Eq)]
pub enum ShardingError {
    /// `id` is not below `total`.
    IdNotBelowTotal,
    /// `start` is after `end`.
    StartAfterEnd,
    /// `start` is not below `total`.
    StartNotBelowTotal,
    /// `end` is not below `total`.
    EndNotBelowTotal,
}

impl ShardingError {
    /// The explanation shown to whoever wrote the settings.
    pub fn message(&self) -> (r: &'static str)
        ensures
            r@ == (match *self {
                ShardingError::IdNotBelowTotal => "`sharding.id` should not be equal or greater than the total"@,
                ShardingError::StartAfterEnd => "`sharding.start` should not be more than `sharding.end`"@,
                ShardingError::StartNotBelowTotal => "`sharding.start` should not be equal or more than `sharding.total`"@,
                ShardingError::EndNotBelowTotal => "`sharding.end` should not be equal or more than `sharding.total`"@,
            }),
    {
        match self {
            ShardingError::IdNotBelowTotal => "`sharding.id` should not be equal or greater than the total",
            ShardingError::StartAfterEnd => "`sharding.start` should not be more than `sharding.end`",
            ShardingError::StartNotBelowTotal => "`sharding.start` should not be equal or more than `sharding.total`",
            ShardingError::EndNotBelowTotal => "`sharding.end` should not be equal or more than `sharding.total`",
        }
    }
}

/// Index of the first shard of `s`.
pub open spec fn spec_first(s: Sharding) -> u64 {
    match s {
        Sharding::Single { id, .. } => id,
        Sharding::Range { start, .. } => start,
    }
}

/// Number of shards that `s` connects.
pub open spec fn spec_size(s: Sharding) -> int {
    match s {
        Sharding::Single { .. } => 1,
        Sharding::Range { start, end, .. } => end - start + 1,
    }
}

/// Total number of shards of the bot under `s`.
pub open spec fn spec_total(s: Sharding) -> u64 {
    match s {
        Sharding::Single { total, .. } => total.value(),
        Sharding::Range { total, .. } => total.value(),
    }
}

/// What checking `s` gives: the first rule it breaks, in the order
/// the rules are checked, or `Ok` when it breaks none.
pub open spec fn spec_check(s: Sharding) -> Result<(), ShardingError> {
    match s {
        Sharding::Single { id, total } => {
            if id >= total.value() {
                Err(ShardingError::IdNotBelowTotal)
            } else {
                Ok(())
            }
        },
        Sharding::Range { start, end, total } => {
            if start > end {
                Err(ShardingError::StartAfterEnd)
            } else if start >= total.value() {
                Err(ShardingError::StartNotBelowTotal)
            } else if end >= total.value() {
                Err(ShardingError::EndNotBelowTotal)
            } else {
                Ok(())
            }
        },
    }
}

impl Sharding {
    /// A single shard numbered 0 out of 1.
    pub fn one() -> (s: Sharding)
        ensures
            s matches Sharding::Single { id, total } && id == 0 && total.value() == 1,
    {
        Sharding::Single { id: 0, total: NonZeroU64::new(1).unwrap() }
    }

    /// First shard index to initialize.
    pub fn first(&self) -> (r: u64)
        ensures
            r == spec_first(*self),
    {
        match self {
            Sharding::Single { id, .. } => *id,
            Sharding::Range { start, .. } => *start,
        }
    }

    /// Number of shards to initialize.
    pub fn size(&self) -> (r: u64)
        requires
            *self matches Sharding::Range { start, end, .. } ==> start <= end && end - start + 1 <= u64::MAX,
        ensures
            r == spec_size(*self),
    {
        match self {
            Sharding::Single { .. } => 1,
            Sharding::Range { start, end, .. } => *end - *start + 1,
        }
    }

    /// Total shards needed to be utilized for the bot.
    pub fn total(&self) -> (r: u64)
        ensures
            r == spec_total(*self),
            r > 0,
    {
        match self {
            Sharding::Single { total, .. } => total.get(),
            Sharding::Range { total, .. } => total.get(),
        }
    }

    /// Checks that the configuration is consistent: every shard it
    /// connects is below the total, and a range does not run backwards.
    pub fn check(&self) -> (r: Result<(), ShardingError>)
        ensures
            r == spec_check(*self),
    {
        match self {
            Sharding::Single { id, total } => {
                if *id >= total.get() {
                    return Err(ShardingError::IdNotBelowTotal);
                }
            },
            Sharding::Range { start, end, total } => {
                let start: u64 = *start;
                let end: u64 = *end;
                let total: u64 = total.get();
                if start > end {
                    return Err(ShardingError::StartAfterEnd);
                }
                if start >= total {
                    return Err(ShardingError::StartNotBelowTotal);
                }
                if end >= total {
                    return Err(ShardingError::EndNotBelowTotal);
                }
            },
        }
        Ok(())
    }
}

/// How a sharding configuration is shown in logs.
pub open spec fn spec_describe(s: Sharding) -> Seq<char> {
    match s {
        Sharding::Single { id, total } => "Single(["@ + decimal_text(id as nat) + ", "@ + decimal_text(total.value() as nat) + "])"@,
        Sharding::Range { start, end, total } => "Range { start: "@ + decimal_text(start as nat) + ", end: "@
            + decimal_text(end as nat) + ", total: "@ + decimal_text(total.value() as nat) + " }"@,
    }
}

impl Sharding {
    /// The configuration as shown in logs: `Single([id, total])`, or
    /// `Range { start: .., end: .., total: .. }`.
    pub fn describe(&self) -> (r: String)
        ensures
            r@ == spec_describe(*self),
    {
        match self {
            Sharding::Single { id, total } => {
                let mut r = "Single([".to_owned();
                push_decimal(&mut r, *id);
                r.append(", ");
                push_decimal(&mut r, total.get());
                r.append("])");
                r
            },
            Sharding::Range { start, end, total } => {
                let mut r = "Range { start: ".to_owned();
                push_decimal(&mut r, *start);
                r.append(", end: ");
                push_decimal(&mut r, *end);
                r.append(", total: ");
                push_decimal(&mut r, total.get());
                r.append(" }");
                r
            },
        }
    }
}

impl Default for Sharding {
    fn default() -> (s: Sharding)
        ensures
            s matches Sharding::Single { id, total } && id == 0 && total.value() == 1,
    {
        Sharding::one()
    }
}

/// A single shard passes the check exactly when its number is below the
/// total; otherwise the error says so.
pub proof fn law_single_shard_below_total(id: u64, total: NonZeroU64)
    ensures
        spec_check(Sharding::Single { id, total }) is Ok <==> id < total.value(),
        id >= total.value() ==> spec_check(Sharding::Single { id, total })
            == Err::<(), ShardingError>(ShardingError::IdNotBelowTotal),
{
}

/// A range of shards passes the check exactly when it does not run
/// backwards and its last shard is below the total; otherwise the error
/// names the first of these rules that it breaks.
pub proof fn law_shard_range_within_total(start: u64, end: u64, total: NonZeroU64)
    ensures
        spec_check(Sharding::Range { start, end, total }) is Ok <==> start <= end && end < total.value(),
        start > end ==> spec_check(Sharding::Range { start, end, total })
            == Err::<(), ShardingError>(ShardingError::StartAfterEnd),
        start <= end && start >= total.value() ==> spec_check(Sharding::Range { start, end, total })
            == Err::<(), ShardingError>(ShardingError::StartNotBelowTotal),
        start <= end && start < total.value() && end >= total.value() ==> spec_check(Sharding::Range { start, end, total })
            == Err::<(), ShardingError>(ShardingError::EndNotBelowTotal),
{
}

/// A single shard connects one shard, its own, out of its total; a range
/// connects `end - start + 1` shards from `start`, out of its total.
pub proof fn law_shards_connected(id: u64, start: u64, end: u64, total: NonZeroU64)
    ensures
        spec_first(Sharding::Single { id, total }) == id,
        spec_size(Sharding::Single { id, total }) == 1,
        spec_total(Sharding::Single { id, total }) == total.value(),
        spec_first(Sharding::Range { start, end, total }) == start,
        spec_size(Sharding::Range { start, end, total }) == end - start + 1,
        spec_total(Sharding::Range { start, end, total }) == total.value(),
{
}

} // verus!
