//! Saturating and scaled fixed-point arithmetic on milli-unit values.
//!
//! A milli-unit value stores thousandths: `1000` is one whole unit.
//! Multiplying two milli-unit values therefore divides the raw product
//! by `1000`; the helpers here perform such scaled products exactly,
//! widening through `u128` so that no intermediate overflows.

use vstd::prelude::*;

verus! {

/// One whole unit in milli-units.
pub const MILLI: u64 = 1000;

/// `a - b`, floored at zero.
pub fn sat_sub(a: u64, b: u64) -> (r: u64)
    ensures
        r == if a >= b { a - b } else { 0 },
{
    if a >= b {
        a - b
    } else {
        0
    }
}

/// The smaller of two values.
pub fn min64(a: u64, b: u64) -> (r: u64)
    ensures
        r == if a <= b { a as int } else { b as int },
{
    if a <= b {
        a
    } else {
        b
    }
}

/// `a + b`, capped at `cap`.
pub fn add_capped(a: u64, b: u64, cap: u64) -> (r: u64)
    requires
        a + b <= u64::MAX,
    ensures
        r == if a + b <= cap { a + b } else { cap as int },
{
    let s: u64 = a + b;
    if s <= cap {
        s
    } else {
        cap
    }
}

/// `a * num / den` over the integers, truncated.
pub open spec fn scaled(a: int, num: int, den: int) -> int {
    a * num / den
}

/// `a * num / den`, computed without intermediate overflow.
pub fn scale(a: u64, num: u64, den: u64) -> (r: u64)
    requires
        den > 0,
        scaled(a as int, num as int, den as int) <= u64::MAX,
    ensures
        r == scaled(a as int, num as int, den as int),
{
    proof {
        assert((a as int) * (num as int) <= (u64::MAX as int) * (u64::MAX as int))
            by (nonlinear_arith)
            requires
                0 <= a <= u64::MAX,
                0 <= num <= u64::MAX,
        ;
    }
    let wide: u128 = (a as u128) * (num as u128);
    let q: u128 = wide / (den as u128);
    proof {
        assert(wide == (a as int) * (num as int));
        assert(q == (a as int) * (num as int) / (den as int));
    }
    q as u64
}

} // verus!
