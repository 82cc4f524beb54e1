//! Per-cell classification: latitude from a row index, the polar
//! remapping of elevation, and the terrain and biome rules.
//!
//! All scalars are fixed-point values in millionths (see `fixed`);
//! latitudes are in millionths of a degree, in `[-90_000_000, 90_000_000]`.

use vstd::prelude::*;

use crate::fixed::ONE;
use crate::fixed::div_trunc;
use crate::fixed::half_trunc;
use crate::fixed::spec_div_trunc;
use crate::tags::Biome;
use crate::tags::Terrain;

verus! {

/// Raw elevations above this threshold are permanently snow-capped.
pub const SNOW_LEVEL: i64 = 995_000;

/// Elevations at or below this threshold are under water; the polar
/// remapping leaves them untouched, so open ocean stays ocean at every
/// latitude.
pub const SEA_LEVEL: i64 = -200_000;

/// Cells whose distance to the equator exceeds this fraction of a
/// quarter turn are polar ice, whatever their elevation or moisture.
pub const ICE_DISTANCE: i64 = 950_000;

/// Adjusted elevations above this are mountains.
pub const MOUNTAIN_LEVEL: i64 = 850_000;

/// Adjusted elevations above this (and below the mountain line) are
/// highland.
pub const HIGHLAND_LEVEL: i64 = 650_000;

/// Adjusted elevations above this (and below the highland line) are
/// hills.
pub const HILL_LEVEL: i64 = 450_000;

/// Precipitation above this grows jungle or rainforest.
pub const WET_LEVEL: i64 = 750_000;

/// Precipitation above this (and below the wet line) grows forest.
pub const FOREST_LEVEL: i64 = 500_000;

/// Precipitation above this (and below the forest line) grows
/// grassland; at or below it, steppe.
pub const DRY_LEVEL: i64 = -900_000;

/// Within this distance of the equator, very wet lowland is rainforest
/// rather than jungle.
pub const EQUATOR_BAND: i64 = 100_000;

/// The largest grid height the generator accepts. This is a machine
/// bound, not a rule of the model: latitudes of taller grids would
/// overflow the 64-bit fixed-point arithmetic.
pub const MAX_GRID_HEIGHT: usize = 1_000_000_000;

/// The latitude of row `y` in a grid of `height` rows, in millionths of
/// a degree: row 0 is the north pole (-90 degrees) and the last row
/// approaches the south pole.
pub open spec fn spec_latitude(y: int, height: int) -> int {
    180_000_000 * y / height - 90_000_000
}

/// How far a latitude is from the equator, as a fixed-point fraction of
/// a quarter turn: 0 at the equator, `ONE` at a pole.
pub open spec fn spec_distance_to_equator(latitude: int) -> int {
    if latitude >= 0 {
        latitude / 90
    } else {
        (-latitude) / 90
    }
}

/// Elevation as the biome rules see it: under-water cells keep their
/// raw elevation, everything else is flattened by half and raised by
/// the distance to the equator, so polar land trends alpine.
pub open spec fn spec_equivalent_elevation(latitude: int, elevation: int) -> int {
    if elevation > SEA_LEVEL {
        spec_div_trunc(elevation, 2) + spec_distance_to_equator(latitude)
    } else {
        elevation
    }
}

/// The terrain rule, on raw (not latitude-adjusted) elevation.
pub open spec fn spec_terrain(elevation: int) -> Terrain {
    if elevation > SNOW_LEVEL {
        Terrain::Snow
    } else if elevation > SEA_LEVEL {
        Terrain::Land
    } else {
        Terrain::Water
    }
}

/// The biome rule, on latitude-adjusted elevation, raw precipitation
/// and latitude; the first matching branch wins.
///
/// `Desert` is never produced: a desert branch would sit below the
/// grassland rule, whose precipitation range already covers it, so it
/// would be unreachable. The vocabulary keeps the variant all the same.
pub open spec fn spec_biome(elevation: int, precipitation: int, latitude: int) -> Biome {
    let distance = spec_distance_to_equator(latitude);
    if distance > ICE_DISTANCE {
        Biome::Ice
    } else if elevation > MOUNTAIN_LEVEL {
        Biome::Mountain
    } else if elevation > HIGHLAND_LEVEL {
        Biome::Highland
    } else if elevation > HILL_LEVEL {
        Biome::Hill
    } else if elevation > SEA_LEVEL {
        if precipitation > WET_LEVEL && distance > EQUATOR_BAND {
            Biome::Jungle
        } else if precipitation > WET_LEVEL {
            Biome::Rainforest
        } else if precipitation > FOREST_LEVEL {
            Biome::Forest
        } else if precipitation > DRY_LEVEL {
            Biome::Grassland
        } else {
            Biome::Steppe
        }
    } else {
        Biome::Ocean
    }
}

/// The latitude of row `y` in a grid of `height` rows, in millionths of
/// a degree.
pub fn calculate_latitude(y: usize, height: usize) -> (r: i64)
    requires
        0 < height <= MAX_GRID_HEIGHT,
        y < height,
    ensures
        r == spec_latitude(y as int, height as int),
        -90_000_000 <= r < 90_000_000,
{
    let num: u64 = 180_000_000u64 * (y as u64);
    let q: u64 = num / (height as u64);
    proof {
        vstd::arithmetic::mul::lemma_mul_inequality(
            y as int,
            height as int - 1,
            180_000_000,
        );
        vstd::arithmetic::div_mod::lemma_multiply_divide_lt(
            num as int,
            height as int,
            180_000_000,
        );
        vstd::arithmetic::div_mod::lemma_div_pos_is_pos(num as int, height as int);
    }
    (q as i64) - 90_000_000
}

/// How far a latitude is from the equator, as a fixed-point fraction of
/// a quarter turn: 0 at the equator, `ONE` at a pole.
pub fn distance_to_equator(latitude: i64) -> (r: i64)
    requires
        -90_000_000 <= latitude <= 90_000_000,
    ensures
        r == spec_distance_to_equator(latitude as int),
        0 <= r <= ONE,
{
    let a: i64 = if latitude >= 0 {
        latitude
    } else {
        -latitude
    };
    proof {
        vstd::arithmetic::div_mod::lemma_div_pos_is_pos(a as int, 90);
        vstd::arithmetic::div_mod::lemma_multiply_divide_le(a as int, 90, 1_000_000);
    }
    a / 90
}

/// Elevation as the biome rules see it: under-water cells keep their
/// raw elevation, everything else is flattened by half and raised by
/// the distance to the equator.
pub fn equivalent_elevation(latitude: i64, elevation: i64) -> (r: i64)
    requires
        -90_000_000 <= latitude <= 90_000_000,
    ensures
        r == spec_equivalent_elevation(latitude as int, elevation as int),
{
    if elevation > SEA_LEVEL {
        let half = half_trunc(elevation);
        let distance = distance_to_equator(latitude);
        half + distance
    } else {
        elevation
    }
}

/// The terrain tag of a cell, from its raw elevation.
pub fn terrain_for(elevation: i64) -> (t: Terrain)
    ensures
        t == spec_terrain(elevation as int),
{
    if elevation > SNOW_LEVEL {
        Terrain::Snow
    } else if elevation > SEA_LEVEL {
        Terrain::Land
    } else {
        Terrain::Water
    }
}

/// The biome tag of a cell, from its latitude-adjusted elevation, raw
/// precipitation, and latitude.
pub fn biome(elevation: i64, precipitation: i64, latitude: i64) -> (b: Biome)
    requires
        -90_000_000 <= latitude <= 90_000_000,
    ensures
        b == spec_biome(elevation as int, precipitation as int, latitude as int),
{
    let distance = distance_to_equator(latitude);
    if distance > ICE_DISTANCE {
        Biome::Ice
    } else if elevation > MOUNTAIN_LEVEL {
        Biome::Mountain
    } else if elevation > HIGHLAND_LEVEL {
        Biome::Highland
    } else if elevation > HILL_LEVEL {
        Biome::Hill
    } else if elevation > SEA_LEVEL {
        if precipitation > WET_LEVEL && distance > EQUATOR_BAND {
            Biome::Jungle
        } else if precipitation > WET_LEVEL {
            Biome::Rainforest
        } else if precipitation > FOREST_LEVEL {
            Biome::Forest
        } else if precipitation > DRY_LEVEL {
            Biome::Grassland
        } else {
            Biome::Steppe
        }
    } else {
        Biome::Ocean
    }
}

/// Far enough from the equator, every cell is ice: at a distance of
/// 0.96 of a quarter turn, the biome is `Ice` whatever the elevation
/// and precipitation.
pub proof fn lemma_polar_ice(elevation: int, precipitation: int, latitude: int)
    requires
        spec_distance_to_equator(latitude) == 960_000,
    ensures
        spec_biome(elevation, precipitation, latitude) == Biome::Ice,
{
}

} // verus!
