use worldgen::Biome;
use worldgen::Rgb;
use worldgen::Terrain;
use worldgen::base_color;
use worldgen::color_for;
use worldgen::interpolate_color;

#[test]
fn grassland_color_is_stable() {
    // same colour on every call, whatever the precipitation
    let first = color_for(Terrain::Land, Biome::Grassland, 0, 0);
    assert_eq!(first, Rgb { r: 34, g: 139, b: 34 });
    assert_eq!(color_for(Terrain::Land, Biome::Grassland, 0, 750_000), first);
    assert_eq!(color_for(Terrain::Land, Biome::Grassland, 0, -900_000), first);
    assert_eq!(color_for(Terrain::Land, Biome::Grassland, 0, i64::MAX), first);
}

#[test]
fn base_colors_cover_the_reachable_pairs() {
    assert_eq!(base_color(Terrain::Water, Biome::Ocean), Rgb { r: 42, g: 132, b: 171 });
    assert_eq!(base_color(Terrain::Water, Biome::Coast), Rgb { r: 47, g: 172, b: 225 });
    assert_eq!(base_color(Terrain::Water, Biome::Beach), Rgb { r: 92, g: 207, b: 255 });
    assert_eq!(base_color(Terrain::Land, Biome::Forest), Rgb { r: 102, g: 204, b: 0 });
    assert_eq!(base_color(Terrain::Land, Biome::Steppe), Rgb { r: 255, g: 255, b: 102 });
    assert_eq!(base_color(Terrain::Land, Biome::Ice), Rgb { r: 204, g: 229, b: 255 });
    assert_eq!(base_color(Terrain::Snow, Biome::Mountain), Rgb { r: 255, g: 255, b: 255 });
}

#[test]
fn unreached_pairs_fall_back_to_the_terrain_default() {
    // water with a land biome: the ocean colour
    assert_eq!(base_color(Terrain::Water, Biome::Desert), Rgb { r: 42, g: 132, b: 171 });
    // land with a water biome: the grassland colour
    assert_eq!(base_color(Terrain::Land, Biome::Ocean), Rgb { r: 34, g: 139, b: 34 });
}

#[test]
fn interpolation_at_half_way() {
    let green = Rgb { r: 34, g: 139, b: 34 };
    let white = Rgb { r: 255, g: 255, b: 255 };
    // (34 + 255) / 2 = 144.5 rounds down; (139 + 255) / 2 = 197 exactly
    assert_eq!(interpolate_color(green, white, 500_000), Rgb { r: 144, g: 197, b: 144 });
}

#[test]
fn interpolation_endpoints() {
    let green = Rgb { r: 34, g: 139, b: 34 };
    let white = Rgb { r: 255, g: 255, b: 255 };
    assert_eq!(interpolate_color(green, white, 0), green);
    assert_eq!(interpolate_color(green, white, 1_000_000), white);
}

#[test]
fn extreme_factors_clamp_to_byte_range() {
    let green = Rgb { r: 34, g: 139, b: 34 };
    let white = Rgb { r: 255, g: 255, b: 255 };
    // a factor beyond 1 overshoots toward white and clamps
    assert_eq!(interpolate_color(green, white, 2_000_000), white);
    // a negative factor undershoots and clamps at black
    assert_eq!(interpolate_color(green, white, -2_000_000), Rgb { r: 0, g: 0, b: 0 });
}

#[test]
fn elevation_drives_the_snow_cap() {
    // factor is half the elevation: elevation 2.0 is pure white
    let c = color_for(Terrain::Land, Biome::Mountain, 2_000_000, 0);
    assert_eq!(c, Rgb { r: 255, g: 255, b: 255 });
    // elevation 1.0: half way from the mountain colour to white
    let c2 = color_for(Terrain::Land, Biome::Mountain, 1_000_000, 0);
    assert_eq!(c2, Rgb { r: 204, g: 204, b: 127 });
}
