//! Procedural 2D world-map generation: fractal noise accumulation,
//! latitude-aware elevation remapping, rule-based biome classification,
//! neighbourhood majority-vote smoothing, and colorization.
//!
//! All scalar samples (elevation, precipitation, latitude) are carried as
//! fixed-point integers in millionths, so that every classification rule
//! is an exact integer comparison.

use vstd::prelude::*;

mod classify;
mod color;
mod fixed;
mod fractal;
mod grid;
mod smooth;
mod tags;
mod worldmap;

pub use classify::DRY_LEVEL;
pub use classify::EQUATOR_BAND;
pub use classify::FOREST_LEVEL;
pub use classify::HIGHLAND_LEVEL;
pub use classify::HILL_LEVEL;
pub use classify::ICE_DISTANCE;
pub use classify::MAX_GRID_HEIGHT;
pub use classify::MOUNTAIN_LEVEL;
pub use classify::SEA_LEVEL;
pub use classify::SNOW_LEVEL;
pub use classify::WET_LEVEL;
pub use classify::biome;
pub use classify::calculate_latitude;
pub use classify::distance_to_equator;
pub use classify::equivalent_elevation;
pub use classify::lemma_polar_ice;
pub use classify::spec_biome;
pub use classify::spec_distance_to_equator;
pub use classify::spec_equivalent_elevation;
pub use classify::spec_latitude;
pub use classify::spec_terrain;
pub use classify::terrain_for;
pub use color::Rgb;
pub use color::base_color;
pub use color::blend_channel;
pub use color::color_for;
pub use color::interpolate_color;
pub use color::lemma_color_ignores_precipitation;
pub use color::spec_base_color;
pub use color::spec_blend_channel;
pub use color::spec_color_for;
pub use color::spec_interpolate;
pub use fixed::ONE;
pub use fractal::MAX_OCTAVES;
pub use fractal::SAMPLE_LIMIT;
pub use fractal::fractal_sum;
pub use fractal::spec_fractal_sum;
pub use fixed::div_trunc;
pub use fixed::half_trunc;
pub use fixed::spec_div_trunc;
pub use grid::Grid;
pub use grid::rect;
pub use smooth::KEEP_THRESHOLD;
pub use smooth::lemma_argmax_prefix_props;
pub use smooth::lemma_corner_votes;
pub use smooth::lemma_smooth_keeps_dominant;
pub use smooth::most_common_neighbor;
pub use smooth::nb;
pub use smooth::neighbor_count;
pub use smooth::smooth_pass;
pub use smooth::smoothed_cell;
pub use smooth::spec_argmax_prefix;
pub use smooth::spec_counts;
pub use smooth::spec_neighbor_count;
pub use smooth::spec_smoothed_cell;
pub use tags::BIOME_COUNT;
pub use tags::Biome;
pub use tags::Terrain;
pub use tags::lemma_biome_index_roundtrip;
pub use tags::spec_biome_index;
pub use tags::spec_biome_name;
pub use tags::spec_biome_of_index;
pub use worldmap::WorldMap;
pub use worldmap::is_generated_from;
pub use worldmap::lemma_generation_deterministic;
pub use worldmap::lemma_terrain_elevation_consistent;
pub use worldmap::spec_initial_biome;
pub use worldmap::spec_initial_biomes;
pub use worldmap::spec_smooth_iter;
pub use worldmap::spec_smoothed_grid;
pub use worldmap::spec_terrain_grid;

verus! {

} // verus!
