//! Integers that are never zero.
//!
//! These stand in for the standard library's `NonZero*` integers, which carry
//! no specification that contracts could speak of.

use vstd::prelude::*;

verus! {

/// A `u32` that is never zero.
#[derive(Clone, Copy, Debug, PartialEq, Eq, Hash)]
pub struct NonZeroU32 {
    value: u32,
}

impl NonZeroU32 {
    #[verifier::type_invariant]
    spec fn positive(self) -> bool {
        self.value > 0
    }

    /// The number held.
    pub closed spec fn value(self) -> u32 {
        self.value
    }

    /// Wraps `n` unless it is zero.
    pub fn new(n: u32) -> (r: Option<NonZeroU32>)
        ensures
            r is Some <==> n > 0,
            r matches Some(v) ==> v.value() == n,
    {
        if n == 0 {
            None
        } else {
            Some(NonZeroU32 { value: n })
        }
    }

    /// The number held, which is at least 1.
    pub fn get(self) -> (r: u32)
        ensures
            r == self.value(),
            r > 0,
    {
        proof {
            use_type_invariant(&self);
        }
        self.value
    }
}

/// A `u64` that is never zero.
#[derive(Clone, Copy, Debug, PartialEq, Eq, Hash)]
pub struct NonZeroU64 {
    value: u64,
}

impl NonZeroU64 {
    #[verifier::type_invariant]
    spec fn positive(self) -> bool {
        self.value > 0
    }

    /// The number held.
    pub closed spec fn value(self) -> u64 {
        self.value
    }

    /// Wraps `n` unless it is zero.
    pub fn new(n: u64) -> (r: Option<NonZeroU64>)
        ensures
            r is Some <==> n > 0,
            r matches Some(v) ==> v.value() == n,
    {
        if n == 0 {
            None
        } else {
            Some(NonZeroU64 { value: n })
        }
    }

    /// The number held, which is at least 1.
    pub fn get(self) -> (r: u64)
        ensures
            r == self.value(),
            r > 0,
    {
        proof {
            use_type_invariant(&self);
        }
        self.value
    }
}

/// A `usize` that is never zero.
#[derive(Clone, Copy, Debug, PartialEq, Eq, Hash)]
pub struct NonZeroUsize {
    value: usize,
}

impl NonZeroUsize {
    #[verifier::type_invariant]
    spec fn positive(self) -> bool {
        self.value > 0
    }

    /// The number held.
    pub closed spec fn value(self) -> usize {
        self.value
    }

    /// Wraps `n` unless it is zero.
    pub fn new(n: usize) -> (r: Option<NonZeroUsize>)
        ensures
            r is Some <==> n > 0,
            r matches Some(v) ==> v.value() == n,
    {
        if n == 0 {
            None
        } else {
            Some(NonZeroUsize { value: n })
        }
    }

    /// The number held, which is at least 1.
    pub fn get(self) -> (r: usize)
        ensures
            r == self.value(),
            r > 0,
    {
        proof {
            use_type_invariant(&self);
        }
        self.value
    }
}

} // verus!
