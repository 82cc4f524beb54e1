//! Rasterization of classified cells to RGB: a fixed base-colour table
//! over (terrain, biome), then a linear interpolation toward white
//! driven by elevation — the snow-cap effect.

use vstd::prelude::*;

use crate::fixed::half_trunc;
use crate::fixed::spec_div_trunc;
use crate::tags::Biome;
use crate::tags::Terrain;

verus! {

/// An RGB colour, one byte per channel.
#[derive(Clone, Copy, Debug, PartialEq, Eq, Structural)]
pub struct Rgb {
    pub r: u8,
    pub g: u8,
    pub b: u8,
}

/// One channel of a linear interpolation from `a` toward `b` with
/// fixed-point factor `f`: `a*(1-f) + b*f`, rounded down and clamped to
/// a byte. The factor may lie outside `[0, ONE]`; the clamp keeps the
/// channel a byte.
pub open spec fn spec_blend_channel(a: int, b: int, f: int) -> int {
    let q = (a * (1_000_000 - f) + b * f) / 1_000_000;
    if q < 0 {
        0
    } else if q > 255 {
        255
    } else {
        q
    }
}

/// Linear interpolation from `c1` toward `c2` with fixed-point factor
/// `f`, channel by channel.
pub open spec fn spec_interpolate(c1: Rgb, c2: Rgb, f: int) -> Rgb {
    Rgb {
        r: spec_blend_channel(c1.r as int, c2.r as int, f) as u8,
        g: spec_blend_channel(c1.g as int, c2.g as int, f) as u8,
        b: spec_blend_channel(c1.b as int, c2.b as int, f) as u8,
    }
}

/// A product of a byte and a bounded factor is bounded: the blend
/// arithmetic stays far inside the 128-bit range.
proof fn lemma_byte_product_bounded(a: int, m: int, bound: int)
    requires
        0 <= a <= 255,
        0 <= bound,
        -bound <= m <= bound,
    ensures
        -255 * bound <= a * m <= 255 * bound,
{
    if m >= 0 {
        vstd::arithmetic::mul::lemma_mul_nonnegative(a, m);
        vstd::arithmetic::mul::lemma_mul_upper_bound(a, 255, m, bound);
    } else {
        vstd::arithmetic::mul::lemma_mul_unary_negation(a, m);
        vstd::arithmetic::mul::lemma_mul_nonnegative(a, -m);
        vstd::arithmetic::mul::lemma_mul_upper_bound(a, 255, -m, bound);
    }
}

/// One channel of the interpolation from `a` toward `b` with factor `f`.
pub fn blend_channel(a: u8, b: u8, f: i64) -> (r: u8)
    ensures
        r == spec_blend_channel(a as int, b as int, f as int),
{
    let fw: i128 = f as i128;
    let m1: i128 = 1_000_000i128 - fw;
    proof {
        lemma_byte_product_bounded(a as int, m1 as int, 0x1_0000_0000_0000_0000int);
        lemma_byte_product_bounded(b as int, fw as int, 0x1_0000_0000_0000_0000int);
    }
    let num: i128 = (a as i128) * m1 + (b as i128) * fw;
    if num < 0 {
        proof {
            vstd::arithmetic::div_mod::lemma_div_is_ordered(
                num as int,
                0,
                1_000_000,
            );
        }
        0
    } else {
        proof {
            vstd::arithmetic::div_mod::lemma_div_pos_is_pos(num as int, 1_000_000);
            vstd::arithmetic::div_mod::lemma_div_nonincreasing(num as int, 1_000_000);
        }
        let q = match num.checked_div(1_000_000) {
            Some(q) => q,
            // unreachable: a non-negative dividend cannot overflow
            None => 0,
        };
        if q > 255 {
            255
        } else {
            q as u8
        }
    }
}

/// Linear interpolation from `c1` toward `c2` with fixed-point factor
/// `factor`, channel by channel.
pub fn interpolate_color(c1: Rgb, c2: Rgb, factor: i64) -> (r: Rgb)
    ensures
        r == spec_interpolate(c1, c2, factor as int),
{
    Rgb {
        r: blend_channel(c1.r, c2.r, factor),
        g: blend_channel(c1.g, c2.g, factor),
        b: blend_channel(c1.b, c2.b, factor),
    }
}

/// The base-colour table over (terrain, biome). Pairs the classifier
/// never produces fall back to the terrain's default colour rather than
/// failing: the narrow terrain vocabulary makes most pairs impossible
/// by construction.
pub open spec fn spec_base_color(t: Terrain, b: Biome) -> Rgb {
    match t {
        Terrain::Water => match b {
            Biome::Ocean => Rgb { r: 42, g: 132, b: 171 },
            Biome::Coast => Rgb { r: 47, g: 172, b: 225 },
            Biome::Beach => Rgb { r: 92, g: 207, b: 255 },
            _ => Rgb { r: 42, g: 132, b: 171 },
        },
        Terrain::Land => match b {
            Biome::Grassland => Rgb { r: 34, g: 139, b: 34 },
            Biome::Forest => Rgb { r: 102, g: 204, b: 0 },
            Biome::Jungle => Rgb { r: 0, g: 153, b: 0 },
            Biome::Swamp => Rgb { r: 0, g: 51, b: 0 },
            Biome::Tundra => Rgb { r: 0, g: 153, b: 153 },
            Biome::Taiga => Rgb { r: 0, g: 173, b: 173 },
            Biome::Highland => Rgb { r: 95, g: 193, b: 123 },
            Biome::Hill => Rgb { r: 74, g: 150, b: 96 },
            Biome::Mountain => Rgb { r: 153, g: 153, b: 0 },
            Biome::Desert => Rgb { r: 230, g: 155, b: 24 },
            Biome::Rainforest => Rgb { r: 0, g: 102, b: 51 },
            Biome::Steppe => Rgb { r: 255, g: 255, b: 102 },
            Biome::Ice => Rgb { r: 204, g: 229, b: 255 },
            _ => Rgb { r: 34, g: 139, b: 34 },
        },
        Terrain::Snow => Rgb { r: 255, g: 255, b: 255 },
    }
}

/// Looks up the base colour of a (terrain, biome) pair.
pub fn base_color(t: Terrain, b: Biome) -> (c: Rgb)
    ensures
        c == spec_base_color(t, b),
{
    match t {
        Terrain::Water => match b {
            Biome::Ocean => Rgb { r: 42, g: 132, b: 171 },
            Biome::Coast => Rgb { r: 47, g: 172, b: 225 },
            Biome::Beach => Rgb { r: 92, g: 207, b: 255 },
            _ => Rgb { r: 42, g: 132, b: 171 },
        },
        Terrain::Land => match b {
            Biome::Grassland => Rgb { r: 34, g: 139, b: 34 },
            Biome::Forest => Rgb { r: 102, g: 204, b: 0 },
            Biome::Jungle => Rgb { r: 0, g: 153, b: 0 },
            Biome::Swamp => Rgb { r: 0, g: 51, b: 0 },
            Biome::Tundra => Rgb { r: 0, g: 153, b: 153 },
            Biome::Taiga => Rgb { r: 0, g: 173, b: 173 },
            Biome::Highland => Rgb { r: 95, g: 193, b: 123 },
            Biome::Hill => Rgb { r: 74, g: 150, b: 96 },
            Biome::Mountain => Rgb { r: 153, g: 153, b: 0 },
            Biome::Desert => Rgb { r: 230, g: 155, b: 24 },
            Biome::Rainforest => Rgb { r: 0, g: 102, b: 51 },
            Biome::Steppe => Rgb { r: 255, g: 255, b: 102 },
            Biome::Ice => Rgb { r: 204, g: 229, b: 255 },
            _ => Rgb { r: 34, g: 139, b: 34 },
        },
        Terrain::Snow => Rgb { r: 255, g: 255, b: 255 },
    }
}

/// The colour of a classified cell: its base colour pulled toward white
/// by half its raw elevation. Precipitation does not enter the rule; it
/// is part of the cell description all the same.
pub open spec fn spec_color_for(t: Terrain, b: Biome, elevation: int, precipitation: int) -> Rgb {
    spec_interpolate(
        spec_base_color(t, b),
        Rgb { r: 255, g: 255, b: 255 },
        spec_div_trunc(elevation, 2),
    )
}

/// The colour of a classified cell.
pub fn color_for(t: Terrain, b: Biome, elevation: i64, precipitation: i64) -> (c: Rgb)
    ensures
        c == spec_color_for(t, b, elevation as int, precipitation as int),
{
    let base = base_color(t, b);
    let factor = half_trunc(elevation);
    interpolate_color(base, Rgb { r: 255, g: 255, b: 255 }, factor)
}

/// The colour of a cell does not depend on its precipitation: for any
/// terrain, biome, and elevation, two precipitation values give the
/// same RGB triple.
pub proof fn lemma_color_ignores_precipitation(
    t: Terrain,
    b: Biome,
    elevation: int,
    p1: int,
    p2: int,
)
    ensures
        spec_color_for(t, b, elevation, p1) == spec_color_for(t, b, elevation, p2),
{
}

} // verus!
