//! The growth policy: how far a capacity is raised when more room is needed.

use vstd::arithmetic::power2::{lemma2_to64, lemma_pow2_unfold, pow2};
use vstd::prelude::*;

verus! {

/// By how many bytes `capacity` falls short of `needed`.
pub open spec fn shortfall(capacity: nat, needed: nat) -> nat {
    if capacity < needed {
        (needed - capacity) as nat
    } else {
        0
    }
}

/// The first value at or above `needed` that is reached from `capacity` by
/// doubling, where doubling an empty capacity gives 1.
pub open spec fn doubled_until(capacity: nat, needed: nat) -> nat
    decreases shortfall(capacity, needed),
{
    if capacity >= needed {
        capacity
    } else if capacity == 0 {
        doubled_until(1, needed)
    } else {
        doubled_until(2 * capacity, needed)
    }
}

/// The capacity that a store of `capacity` bytes takes when `needed` bytes
/// have to fit.
///
/// A capacity that suffices is kept. Otherwise the capacity doubles until it
/// suffices; where doubling would leave the range of `usize`, the capacity
/// becomes exactly `needed`.
pub open spec fn grown_capacity(capacity: nat, needed: nat) -> nat {
    if capacity >= needed {
        capacity
    } else if doubled_until(capacity, needed) <= usize::MAX {
        doubled_until(capacity, needed)
    } else {
        needed
    }
}

/// Doubling never stops short of `needed`, never lowers the capacity, and
/// stays below twice `needed`.
pub proof fn lemma_doubled_until_bounds(capacity: nat, needed: nat)
    ensures
        doubled_until(capacity, needed) >= needed,
        doubled_until(capacity, needed) >= capacity,
        capacity < needed ==> doubled_until(capacity, needed) < 2 * needed,
    decreases shortfall(capacity, needed),
{
    if capacity >= needed {
    } else if capacity == 0 {
        lemma_doubled_until_bounds(1, needed);
    } else {
        lemma_doubled_until_bounds(2 * capacity, needed);
    }
}

/// Whether `reached` is `capacity` doubled `k` times, where one doubling
/// less would not have given `needed`.
pub open spec fn least_doubling(capacity: nat, needed: nat, reached: nat, k: nat) -> bool {
    &&& reached == capacity * pow2(k)
    &&& k > 0 ==> capacity * pow2((k - 1) as nat) < needed
}

/// Doubling stops as early as it can: what it reaches is the capacity times
/// a power of two, and half of that would not have sufficed.
pub proof fn lemma_doubled_until_is_least(capacity: nat, needed: nat)
    requires
        capacity > 0,
    ensures
        exists|k: nat| least_doubling(capacity, needed, doubled_until(capacity, needed), k),
    decreases shortfall(capacity, needed),
{
    lemma2_to64();
    let reached: nat = doubled_until(capacity, needed);
    if capacity >= needed {
        assert(least_doubling(capacity, needed, reached, 0));
    } else {
        let doubled: nat = 2 * capacity;
        lemma_doubled_until_is_least(doubled, needed);
        let below: nat = choose|k: nat| least_doubling(doubled, needed, reached, k);
        let k: nat = below + 1;
        lemma_pow2_unfold(k);
        assert(doubled * pow2(below) == capacity * pow2(k)) by (nonlinear_arith)
            requires
                doubled == 2 * capacity,
                pow2(k) == 2 * pow2(below),
        ;
        if below > 0 {
            lemma_pow2_unfold(below);
            assert(doubled * pow2((below - 1) as nat) == capacity * pow2(below))
                by (nonlinear_arith)
                requires
                    doubled == 2 * capacity,
                    pow2(below) == 2 * pow2((below - 1) as nat),
            ;
        } else {
            assert(capacity * pow2(below) == capacity) by (nonlinear_arith)
                requires
                    pow2(below) == 1,
            ;
        }
        assert(least_doubling(capacity, needed, reached, k));
    }
}

/// The grown capacity holds what is needed, is never below the capacity it
/// started from, is that very capacity whenever it already suffices, and
/// stays in the range of `usize` when its arguments do.
pub proof fn lemma_grown_capacity_bounds(capacity: nat, needed: nat)
    ensures
        grown_capacity(capacity, needed) >= needed,
        grown_capacity(capacity, needed) >= capacity,
        capacity >= needed ==> grown_capacity(capacity, needed) == capacity,
        capacity <= usize::MAX && needed <= usize::MAX
            ==> grown_capacity(capacity, needed) <= usize::MAX,
{
    lemma_doubled_until_bounds(capacity, needed);
}

/// Where the capacity has to grow, it grows to less than twice what is
/// needed, and, as long as doubling stays in the range of `usize`, to at
/// least twice what it was.
pub proof fn lemma_growth_is_geometric(capacity: nat, needed: nat)
    requires
        capacity < needed,
    ensures
        grown_capacity(capacity, needed) < 2 * needed,
        doubled_until(capacity, needed) <= usize::MAX
            ==> grown_capacity(capacity, needed) >= 2 * capacity,
{
    lemma_doubled_until_bounds(capacity, needed);
    if capacity > 0 {
        lemma_doubled_until_bounds(2 * capacity, needed);
    }
}

/// Computes the capacity that the growth policy assigns.
pub fn grow_capacity(capacity: usize, needed: usize) -> (grown: usize)
    ensures
        grown == grown_capacity(capacity as nat, needed as nat),
{
    let mut grown: usize = capacity;
    while grown < needed
        invariant
            capacity <= grown,
            doubled_until(grown as nat, needed as nat)
                == doubled_until(capacity as nat, needed as nat),
        decreases shortfall(grown as nat, needed as nat),
    {
        if grown == 0 {
            grown = 1;
        } else if grown > usize::MAX / 2 {
            proof {
                lemma_doubled_until_bounds(2 * (grown as nat), needed as nat);
            }
            return needed;
        } else {
            grown = grown * 2;
        }
    }
    grown
}

} // verus!
