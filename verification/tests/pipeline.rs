use noise::NoiseFn;
use noise::Perlin;

use worldgen::Biome;
use worldgen::Grid;
use worldgen::WorldMap;
use worldgen::fractal_sum;

fn to_micro(v: f64) -> i64 {
    let micro = (v * 1_000_000.0) as i64;
    micro.clamp(-worldgen::SAMPLE_LIMIT, worldgen::SAMPLE_LIMIT)
}

/// Samples two independently seeded noise fields over a whole grid,
/// one fixed-point value per octave per cell, and reduces each cell
/// with the library's octave accumulator.
fn sample_grids(
    seed_elevation: u32,
    seed_precipitation: u32,
    width: usize,
    height: usize,
    scale: f64,
    octaves: u32,
) -> (Vec<Vec<i64>>, Vec<Vec<i64>>) {
    let perlin_e = Perlin::new(seed_elevation);
    let perlin_p = Perlin::new(seed_precipitation);
    let mut e_rows = Vec::new();
    let mut p_rows = Vec::new();
    for y in 0..height {
        let mut e_row = Vec::new();
        let mut p_row = Vec::new();
        for x in 0..width {
            let nx = x as f64 * scale;
            let ny = y as f64 * scale;
            let mut e_samples: Vec<i64> = Vec::new();
            let mut p_samples: Vec<i64> = Vec::new();
            for i in 0..octaves {
                let f = 2f64.powi(i as i32);
                e_samples.push(to_micro(perlin_e.get([nx * f, ny * f])));
                p_samples.push(to_micro(perlin_p.get([nx * f, ny * f])));
            }
            e_row.push(fractal_sum(&e_samples));
            p_row.push(fractal_sum(&p_samples));
        }
        e_rows.push(e_row);
        p_rows.push(p_row);
    }
    (e_rows, p_rows)
}

fn biome_char(b: Biome) -> char {
    match b {
        Biome::Ocean => 'O',
        Biome::Coast => 'C',
        Biome::Beach => 'B',
        Biome::Grassland => 'G',
        Biome::Forest => 'F',
        Biome::Jungle => 'J',
        Biome::Rainforest => 'R',
        Biome::Swamp => 'W',
        Biome::Tundra => 'U',
        Biome::Taiga => 'T',
        Biome::Mountain => 'M',
        Biome::Highland => 'H',
        Biome::Hill => 'h',
        Biome::Desert => 'D',
        Biome::Steppe => 'S',
        Biome::Ice => 'I',
    }
}

fn biome_rows(m: &WorldMap) -> Vec<String> {
    let mut rows = Vec::new();
    for y in 0..m.height() {
        let mut row = String::new();
        for x in 0..m.width() {
            row.push(biome_char(m.biome_at(x, y)));
        }
        rows.push(row);
    }
    rows
}

#[test]
fn two_runs_from_the_same_seeds_agree_everywhere() {
    let (e1, p1) = sample_grids(7, 11, 12, 12, 0.05, 4);
    let (e2, p2) = sample_grids(7, 11, 12, 12, 0.05, 4);
    assert_eq!(e1, e2);
    assert_eq!(p1, p2);
    let m1 = WorldMap::generate(Grid::from_rows(e1), Grid::from_rows(p1), 1);
    let m2 = WorldMap::generate(Grid::from_rows(e2), Grid::from_rows(p2), 1);
    for y in 0..12 {
        for x in 0..12 {
            assert_eq!(m1.terrain_at(x, y), m2.terrain_at(x, y));
            assert_eq!(m1.biome_at(x, y), m2.biome_at(x, y));
            assert_eq!(m1.elevation_at(x, y), m2.elevation_at(x, y));
            assert_eq!(m1.precipitation_at(x, y), m2.precipitation_at(x, y));
        }
    }
}

#[test]
fn recorded_sixteen_by_sixteen_world() {
    // seeds (1, 2), 16 x 16, scale 0.05, 4 octaves, one smoothing pass:
    // the whole noise-to-biome pipeline must reproduce this exact grid
    let (e, p) = sample_grids(1, 2, 16, 16, 0.05, 4);
    let m = WorldMap::generate(Grid::from_rows(e), Grid::from_rows(p), 1);
    let rows = biome_rows(&m);
    let want = vec![
        "MMMMMMMMMMMMMMMM",
        "MMMMMMMMMMMMMMMM",
        "MMMMMMMMMMMMMMMM",
        "MMMMMMMMMMMMMMMM",
        "hhHMMMMMMMMMMMMH",
        "hhHHHMMMMMMMMHHH",
        "GGGGGHHhhGGGGGGG",
        "GGGGGGGGGGGGGGGG",
        "GGGGGGGGGGGGGGGG",
        "GGGGGGGGGGGGGGGG",
        "GGGGGGGGGGGGGGGG",
        "GGGGGGhhhhGGhhhG",
        "hGhGhhhhhHHHHhHh",
        "hOhOhHHHHHHHHMMM",
        "OOOOHHHHHHHMMMMM",
        "OOOOHHHHHHHMMMMM",
    ];
    assert_eq!(rows, want);
}
