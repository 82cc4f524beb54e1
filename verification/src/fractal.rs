//! Fractal (octave-summed) accumulation of a coherent-noise field.
//!
//! A noise field is sampled once per octave: octave `i` reads the base
//! field at coordinates scaled by `2^i`, and its sample is weighted by
//! `1 / 2^i`. This module owns the weighting and summation; the caller
//! supplies the per-octave samples, one fixed-point value per octave,
//! in octave order.

use vstd::prelude::*;

use crate::fixed::div_trunc;
use crate::fixed::spec_div_trunc;

verus! {

/// The largest magnitude a single octave sample may have: two thousand
/// real units, far beyond the roughly unit range a noise field
/// produces. This is a machine bound so the 64-bit sum cannot overflow.
pub const SAMPLE_LIMIT: i64 = 2_000_000_000;

/// The largest number of octaves the accumulator accepts: one more and
/// the 64-bit octave weight `2^i` would overflow. Octave 63 and beyond
/// would contribute less than one fixed-point step anyway.
pub const MAX_OCTAVES: usize = 62;

/// The weighted tail sum of `s` from octave `i` on, when octave `i` has
/// divisor `d`: `s[i]/d + s[i+1]/2d + ...`, every quotient truncated
/// toward zero.
pub open spec fn spec_fractal_sum(s: Seq<i64>, i: int, d: int) -> int
    decreases s.len() - i,
{
    if i < 0 || i >= s.len() {
        0
    } else {
        spec_div_trunc(s[i] as int, d) + spec_fractal_sum(s, i + 1, 2 * d)
    }
}

/// Sums one sample per octave, octave `i` weighted by `1 / 2^i`.
pub fn fractal_sum(samples: &Vec<i64>) -> (r: i64)
    requires
        samples@.len() <= MAX_OCTAVES,
        forall|i: int|
            0 <= i < samples@.len() ==> -SAMPLE_LIMIT <= #[trigger] samples@[i]
                <= SAMPLE_LIMIT,
    ensures
        r == spec_fractal_sum(samples@, 0, 1),
{
    let n = samples.len();
    let mut sum: i64 = 0;
    let mut d: i64 = 1;
    let mut i: usize = 0;
    proof {
        vstd::arithmetic::power2::lemma2_to64();
    }
    while i < n
        invariant
            n == samples@.len(),
            n <= MAX_OCTAVES,
            forall|j: int|
                0 <= j < samples@.len() ==> -SAMPLE_LIMIT <= #[trigger] samples@[j]
                    <= SAMPLE_LIMIT,
            i <= n,
            d == vstd::arithmetic::power2::pow2(i as nat),
            sum + spec_fractal_sum(samples@, i as int, d as int) == spec_fractal_sum(
                samples@,
                0,
                1,
            ),
            -(i as int) * SAMPLE_LIMIT <= sum <= (i as int) * SAMPLE_LIMIT,
        decreases n - i,
    {
        proof {
            vstd::arithmetic::power2::lemma2_to64();
            vstd::arithmetic::power2::lemma2_to64_rest();
            vstd::arithmetic::power2::lemma_pow2_pos(i as nat);
            if (i as nat) < 62 {
                vstd::arithmetic::power2::lemma_pow2_strictly_increases(
                    i as nat,
                    62,
                );
            }
        }
        let term = div_trunc(samples[i], d);
        sum = sum + term;
        d = d * 2;
        i = i + 1;
        proof {
            vstd::arithmetic::power2::lemma_pow2_unfold(i as nat);
        }
    }
    sum
}

} // verus!
