//! The generation pipeline: classify two sampled scalar fields into
//! terrain and biome grids, relax the biome grid, and rasterize the
//! result to colours.
//!
//! A `WorldMap` owns four co-indexed grids of the same dimensions. It is
//! built once from an elevation field and a precipitation field and is
//! not meant to change afterwards; smoothing is part of generation.

use vstd::prelude::*;

use crate::classify::MAX_GRID_HEIGHT;
use crate::classify::SEA_LEVEL;
use crate::classify::SNOW_LEVEL;
use crate::classify::biome;
use crate::classify::calculate_latitude;
use crate::classify::equivalent_elevation;
use crate::classify::spec_biome;
use crate::classify::spec_equivalent_elevation;
use crate::classify::spec_latitude;
use crate::classify::spec_terrain;
use crate::classify::terrain_for;
use crate::color::Rgb;
use crate::color::color_for;
use crate::color::spec_color_for;
use crate::grid::Grid;
use crate::grid::rect;
use crate::smooth::smooth_pass;
use crate::smooth::spec_smoothed_cell;
use crate::tags::Biome;
use crate::tags::Terrain;

verus! {

/// The terrain grid a given elevation field classifies to.
pub open spec fn spec_terrain_grid(elev: Seq<Seq<i64>>) -> Seq<Seq<Terrain>> {
    Seq::new(elev.len(), |y: int| Seq::new(elev[y].len(), |x: int| spec_terrain(elev[y][x] as int)))
}

/// The biome a cell classifies to before any smoothing, from its raw
/// elevation and precipitation and its row's latitude.
pub open spec fn spec_initial_biome(e: int, p: int, y: int, height: int) -> Biome {
    let lat = spec_latitude(y, height);
    spec_biome(spec_equivalent_elevation(lat, e), p, lat)
}

/// The biome grid a pair of fields classifies to before any smoothing.
pub open spec fn spec_initial_biomes(elev: Seq<Seq<i64>>, precip: Seq<Seq<i64>>) -> Seq<Seq<Biome>> {
    Seq::new(
        elev.len(),
        |y: int|
            Seq::new(
                elev[y].len(),
                |x: int|
                    spec_initial_biome(
                        elev[y][x] as int,
                        precip[y][x] as int,
                        y,
                        elev.len() as int,
                    ),
            ),
    )
}

/// One whole-grid relaxation pass, cell by cell, reading the pre-pass
/// grid.
pub open spec fn spec_smoothed_grid(g: Seq<Seq<Biome>>) -> Seq<Seq<Biome>> {
    Seq::new(g.len(), |y: int| Seq::new(g[y].len(), |x: int| spec_smoothed_cell(g, x, y)))
}

/// `n` relaxation passes in sequence.
pub open spec fn spec_smooth_iter(g: Seq<Seq<Biome>>, n: nat) -> Seq<Seq<Biome>>
    decreases n,
{
    if n == 0 {
        g
    } else {
        spec_smoothed_grid(spec_smooth_iter(g, (n - 1) as nat))
    }
}

/// A generated world: four co-indexed grids of identical dimensions.
pub struct WorldMap {
    terrain: Grid<Terrain>,
    biomes: Grid<Biome>,
    elevation: Grid<i64>,
    precipitation: Grid<i64>,
}

impl WorldMap {
    /// The terrain grid.
    pub closed spec fn terrains(&self) -> Seq<Seq<Terrain>> {
        self.terrain@
    }

    /// The biome grid.
    pub closed spec fn spec_biomes(&self) -> Seq<Seq<Biome>> {
        self.biomes@
    }

    /// The raw elevation field.
    pub closed spec fn elevations(&self) -> Seq<Seq<i64>> {
        self.elevation@
    }

    /// The raw precipitation field.
    pub closed spec fn precipitations(&self) -> Seq<Seq<i64>> {
        self.precipitation@
    }

    /// The number of rows.
    pub open spec fn spec_height(&self) -> int {
        self.elevations().len() as int
    }

    /// The number of columns.
    pub open spec fn spec_width(&self) -> int {
        self.elevations()[0].len() as int
    }

    /// The shape invariant: all four grids are rectangular, non-empty,
    /// and of identical dimensions.
    pub open spec fn wf(&self) -> bool {
        &&& rect(self.elevations())
        &&& rect(self.precipitations())
        &&& rect(self.terrains())
        &&& rect(self.spec_biomes())
        &&& self.precipitations().len() == self.spec_height()
        &&& self.terrains().len() == self.spec_height()
        &&& self.spec_biomes().len() == self.spec_height()
        &&& self.precipitations()[0].len() == self.spec_width()
        &&& self.terrains()[0].len() == self.spec_width()
        &&& self.spec_biomes()[0].len() == self.spec_width()
        &&& self.spec_height() <= MAX_GRID_HEIGHT
    }
}

/// What it means for a map to be the one generated from the fields
/// `elev` and `precip` with `passes` smoothing passes: the fields are
/// kept as sampled, the terrain grid follows the terrain rule on raw
/// elevation, and the biome grid is the rule-based classification
/// relaxed `passes` times.
pub open spec fn is_generated_from(
    m: WorldMap,
    elev: Seq<Seq<i64>>,
    precip: Seq<Seq<i64>>,
    passes: nat,
) -> bool {
    &&& m.wf()
    &&& m.spec_height() == elev.len()
    &&& m.spec_width() == elev[0].len()
    &&& m.elevations() == elev
    &&& m.precipitations() == precip
    &&& m.terrains() == spec_terrain_grid(elev)
    &&& m.spec_biomes() == spec_smooth_iter(spec_initial_biomes(elev, precip), passes)
}

impl WorldMap {
    /// Classifies two sampled fields into a fresh, unsmoothed world.
    pub fn new(elevation: Grid<i64>, precipitation: Grid<i64>) -> (m: WorldMap)
        requires
            elevation.wf(),
            precipitation.wf(),
            precipitation@.len() == elevation@.len(),
            precipitation.spec_width() == elevation.spec_width(),
            elevation@.len() <= MAX_GRID_HEIGHT,
        ensures
            m.wf(),
            is_generated_from(m, elevation@, precipitation@, 0),
    {
        let h = elevation.height();
        let w = elevation.width();
        let mut terrain: Grid<Terrain> = Grid::new(w, h, Terrain::Water);
        let mut biomes: Grid<Biome> = Grid::new(w, h, Biome::Ocean);
        let mut y: usize = 0;
        while y < h
            invariant
                elevation.wf(),
                precipitation.wf(),
                precipitation@.len() == elevation@.len(),
                precipitation.spec_width() == elevation.spec_width(),
                h == elevation@.len(),
                h <= MAX_GRID_HEIGHT,
                w == elevation.spec_width(),
                y <= h,
                terrain.wf(),
                terrain.spec_height() == h,
                terrain.spec_width() == w,
                biomes.wf(),
                biomes.spec_height() == h,
                biomes.spec_width() == w,
                forall|j: int, i: int|
                    0 <= j < y && 0 <= i < w ==> terrain@[j][i] == spec_terrain(
                        elevation@[j][i] as int,
                    ),
                forall|j: int, i: int|
                    0 <= j < y && 0 <= i < w ==> biomes@[j][i] == spec_initial_biome(
                        elevation@[j][i] as int,
                        precipitation@[j][i] as int,
                        j,
                        h as int,
                    ),
            decreases h - y,
        {
            let lat = calculate_latitude(y, h);
            let mut x: usize = 0;
            while x < w
                invariant
                    elevation.wf(),
                    precipitation.wf(),
                    precipitation@.len() == elevation@.len(),
                    precipitation.spec_width() == elevation.spec_width(),
                    h == elevation@.len(),
                    h <= MAX_GRID_HEIGHT,
                    w == elevation.spec_width(),
                    y < h,
                    x <= w,
                    lat == spec_latitude(y as int, h as int),
                    -90_000_000 <= lat < 90_000_000,
                    terrain.wf(),
                    terrain.spec_height() == h,
                    terrain.spec_width() == w,
                    biomes.wf(),
                    biomes.spec_height() == h,
                    biomes.spec_width() == w,
                    forall|j: int, i: int|
                        0 <= j < y && 0 <= i < w ==> terrain@[j][i] == spec_terrain(
                            elevation@[j][i] as int,
                        ),
                    forall|j: int, i: int|
                        0 <= j < y && 0 <= i < w ==> biomes@[j][i] == spec_initial_biome(
                            elevation@[j][i] as int,
                            precipitation@[j][i] as int,
                            j,
                            h as int,
                        ),
                    forall|i: int|
                        0 <= i < x ==> terrain@[y as int][i] == spec_terrain(
                            elevation@[y as int][i] as int,
                        ),
                    forall|i: int|
                        0 <= i < x ==> biomes@[y as int][i] == spec_initial_biome(
                            elevation@[y as int][i] as int,
                            precipitation@[y as int][i] as int,
                            y as int,
                            h as int,
                        ),
                decreases w - x,
            {
                let e = elevation.get(x, y);
                let p = precipitation.get(x, y);
                let t = terrain_for(e);
                let ee = equivalent_elevation(lat, e);
                let b = biome(ee, p, lat);
                terrain.set(x, y, t);
                biomes.set(x, y, b);
                x = x + 1;
            }
            y = y + 1;
        }
        let m = WorldMap { terrain, biomes, elevation, precipitation };
        proof {
            assert(m.terrains() =~~= spec_terrain_grid(m.elevations()));
            assert(m.spec_biomes() =~~= spec_initial_biomes(
                m.elevations(),
                m.precipitations(),
            ));
        }
        m
    }

    /// One in-place relaxation pass over the biome grid; the other
    /// three grids are untouched.
    pub fn smooth(&mut self)
        requires
            old(self).wf(),
        ensures
            final(self).wf(),
            final(self).terrains() == old(self).terrains(),
            final(self).elevations() == old(self).elevations(),
            final(self).precipitations() == old(self).precipitations(),
            final(self).spec_biomes() == spec_smoothed_grid(old(self).spec_biomes()),
    {
        smooth_pass(&mut self.biomes);
        proof {
            assert(self.spec_biomes() =~~= spec_smoothed_grid(old(self).spec_biomes()));
        }
    }

    /// Classifies two sampled fields and relaxes the biome grid
    /// `smooth_passes` times.
    pub fn generate(elevation: Grid<i64>, precipitation: Grid<i64>, smooth_passes: usize) -> (m:
        WorldMap)
        requires
            elevation.wf(),
            precipitation.wf(),
            precipitation@.len() == elevation@.len(),
            precipitation.spec_width() == elevation.spec_width(),
            elevation@.len() <= MAX_GRID_HEIGHT,
        ensures
            m.wf(),
            is_generated_from(m, elevation@, precipitation@, smooth_passes as nat),
    {
        let ghost e0 = elevation@;
        let ghost p0 = precipitation@;
        let mut m = WorldMap::new(elevation, precipitation);
        let mut pass: usize = 0;
        while pass < smooth_passes
            invariant
                pass <= smooth_passes,
                m.wf(),
                is_generated_from(m, e0, p0, pass as nat),
            decreases smooth_passes - pass,
        {
            m.smooth();
            pass = pass + 1;
        }
        m
    }

    /// The number of rows.
    pub fn height(&self) -> (h: usize)
        ensures
            h == self.spec_height(),
    {
        self.elevation.height()
    }

    /// The number of columns.
    pub fn width(&self) -> (w: usize)
        requires
            self.wf(),
        ensures
            w == self.spec_width(),
    {
        self.elevation.width()
    }

    /// The terrain tag of the cell in column `x` of row `y`.
    pub fn terrain_at(&self, x: usize, y: usize) -> (t: Terrain)
        requires
            self.wf(),
            x < self.spec_width(),
            y < self.spec_height(),
        ensures
            t == self.terrains()[y as int][x as int],
    {
        self.terrain.get(x, y)
    }

    /// The biome tag of the cell in column `x` of row `y`.
    pub fn biome_at(&self, x: usize, y: usize) -> (b: Biome)
        requires
            self.wf(),
            x < self.spec_width(),
            y < self.spec_height(),
        ensures
            b == self.spec_biomes()[y as int][x as int],
    {
        self.biomes.get(x, y)
    }

    /// The raw elevation of the cell in column `x` of row `y`.
    pub fn elevation_at(&self, x: usize, y: usize) -> (e: i64)
        requires
            self.wf(),
            x < self.spec_width(),
            y < self.spec_height(),
        ensures
            e == self.elevations()[y as int][x as int],
    {
        self.elevation.get(x, y)
    }

    /// The raw precipitation of the cell in column `x` of row `y`.
    pub fn precipitation_at(&self, x: usize, y: usize) -> (p: i64)
        requires
            self.wf(),
            x < self.spec_width(),
            y < self.spec_height(),
        ensures
            p == self.precipitations()[y as int][x as int],
    {
        self.precipitation.get(x, y)
    }

    /// Rasterizes the map: the colour of every cell, from its terrain,
    /// biome, and raw elevation.
    pub fn render(&self) -> (img: Grid<Rgb>)
        requires
            self.wf(),
        ensures
            img.wf(),
            img.spec_height() == self.spec_height(),
            img.spec_width() == self.spec_width(),
            forall|y: int, x: int|
                0 <= y < self.spec_height() && 0 <= x < self.spec_width() ==> img@[y][x]
                    == spec_color_for(
                    self.terrains()[y][x],
                    self.spec_biomes()[y][x],
                    self.elevations()[y][x] as int,
                    self.precipitations()[y][x] as int,
                ),
    {
        let h = self.height();
        let w = self.width();
        let mut img: Grid<Rgb> = Grid::new(w, h, Rgb { r: 0, g: 0, b: 0 });
        let mut y: usize = 0;
        while y < h
            invariant
                self.wf(),
                h == self.spec_height(),
                w == self.spec_width(),
                y <= h,
                img.wf(),
                img.spec_height() == h,
                img.spec_width() == w,
                forall|j: int, i: int|
                    0 <= j < y && 0 <= i < w ==> img@[j][i] == spec_color_for(
                        self.terrains()[j][i],
                        self.spec_biomes()[j][i],
                        self.elevations()[j][i] as int,
                        self.precipitations()[j][i] as int,
                    ),
            decreases h - y,
        {
            let mut x: usize = 0;
            while x < w
                invariant
                    self.wf(),
                    h == self.spec_height(),
                    w == self.spec_width(),
                    y < h,
                    x <= w,
                    img.wf(),
                    img.spec_height() == h,
                    img.spec_width() == w,
                    forall|j: int, i: int|
                        0 <= j < y && 0 <= i < w ==> img@[j][i] == spec_color_for(
                            self.terrains()[j][i],
                            self.spec_biomes()[j][i],
                            self.elevations()[j][i] as int,
                            self.precipitations()[j][i] as int,
                        ),
                    forall|i: int|
                        0 <= i < x ==> img@[y as int][i] == spec_color_for(
                            self.terrains()[y as int][i],
                            self.spec_biomes()[y as int][i],
                            self.elevations()[y as int][i] as int,
                            self.precipitations()[y as int][i] as int,
                        ),
                decreases w - x,
            {
                let t = self.terrain_at(x, y);
                let b = self.biome_at(x, y);
                let e = self.elevation_at(x, y);
                let p = self.precipitation_at(x, y);
                let c = color_for(t, b, e, p);
                img.set(x, y, c);
                x = x + 1;
            }
            y = y + 1;
        }
        img
    }
}

/// Generation is deterministic: two maps generated from the same
/// fields with the same number of smoothing passes hold identical
/// terrain, biome, elevation, and precipitation grids.
pub proof fn lemma_generation_deterministic(
    m1: WorldMap,
    m2: WorldMap,
    elev: Seq<Seq<i64>>,
    precip: Seq<Seq<i64>>,
    passes: nat,
)
    requires
        is_generated_from(m1, elev, precip, passes),
        is_generated_from(m2, elev, precip, passes),
    ensures
        m1.terrains() == m2.terrains(),
        m1.spec_biomes() == m2.spec_biomes(),
        m1.elevations() == m2.elevations(),
        m1.precipitations() == m2.precipitations(),
{
}

/// Terrain is consistent with raw elevation: in a generated map, a
/// snow cell lies strictly above the snow line and a water cell at or
/// below sea level.
pub proof fn lemma_terrain_elevation_consistent(
    m: WorldMap,
    elev: Seq<Seq<i64>>,
    precip: Seq<Seq<i64>>,
    passes: nat,
    x: int,
    y: int,
)
    requires
        is_generated_from(m, elev, precip, passes),
        0 <= y < m.spec_height(),
        0 <= x < m.spec_width(),
    ensures
        m.terrains()[y][x] == Terrain::Snow ==> elev[y][x] > SNOW_LEVEL,
        m.terrains()[y][x] == Terrain::Water ==> elev[y][x] <= SEA_LEVEL,
{
    assert(m.terrains()[y][x] == spec_terrain(elev[y][x] as int));
}

} // verus!
