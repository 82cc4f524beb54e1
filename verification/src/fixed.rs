//! Fixed-point scalars: a value `v` stands for the real number `v / ONE`.
//!
//! The noise fields that feed the generator produce values roughly in
//! `[-1, +1]`, so samples here lie roughly in `[-ONE, +ONE]`; nothing in
//! this module assumes that, though, and every function is total over
//! `i64` except where a contract says otherwise.

use vstd::prelude::*;

verus! {

/// The fixed-point unit: one million fixed-point steps per real unit.
pub const ONE: i64 = 1_000_000;

/// Division truncated toward zero (the native `/` of the machine),
/// as a mathematical function.
pub open spec fn spec_div_trunc(x: int, d: int) -> int {
    if x >= 0 {
        x / d
    } else {
        -((-x) / d)
    }
}

/// Truncating division by a positive divisor.
pub fn div_trunc(x: i64, d: i64) -> (r: i64)
    requires
        d > 0,
    ensures
        r == spec_div_trunc(x as int, d as int),
        x >= 0 ==> 0 <= r <= x,
        x < 0 ==> x <= r <= 0,
{
    proof {
        lemma_div_trunc_in_range(x as int, d as int);
    }
    let r = x.checked_div(d);
    match r {
        Some(q) => q,
        // unreachable: the quotient of an i64 by a positive i64 fits
        None => 0,
    }
}

/// Halving truncated toward zero; used for the `0.5 * elevation`
/// latitude remapping and for the snow-cap interpolation factor.
pub fn half_trunc(x: i64) -> (r: i64)
    ensures
        r == spec_div_trunc(x as int, 2),
{
    div_trunc(x, 2)
}

/// A quotient truncated toward zero never exceeds the dividend in
/// magnitude, so dividing an `i64` by a positive `i64` cannot overflow.
proof fn lemma_div_trunc_in_range(x: int, d: int)
    requires
        d > 0,
        i64::MIN <= x <= i64::MAX,
    ensures
        i64::MIN <= spec_div_trunc(x, d) <= i64::MAX,
        x >= 0 ==> 0 <= spec_div_trunc(x, d) <= x,
        x < 0 ==> x <= spec_div_trunc(x, d) <= 0,
{
    if x >= 0 {
        vstd::arithmetic::div_mod::lemma_div_pos_is_pos(x, d);
        vstd::arithmetic::div_mod::lemma_div_nonincreasing(x, d);
    } else {
        vstd::arithmetic::div_mod::lemma_div_pos_is_pos(-x, d);
        vstd::arithmetic::div_mod::lemma_div_nonincreasing(-x, d);
    }
}

} // verus!
