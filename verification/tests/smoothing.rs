use worldgen::Biome;
use worldgen::Grid;
use worldgen::neighbor_count;
use worldgen::smooth_pass;
use worldgen::smoothed_cell;

fn grid_of(rows: Vec<Vec<Biome>>) -> Grid<Biome> {
    Grid::from_rows(rows)
}

#[test]
fn lone_cell_has_no_neighbors_and_keeps_its_biome() {
    let mut g = grid_of(vec![vec![Biome::Desert]]);
    smooth_pass(&mut g);
    assert_eq!(g.get(0, 0), Biome::Desert);
}

#[test]
fn corner_cell_counts_exactly_three_votes() {
    let g = grid_of(vec![
        vec![Biome::Ocean, Biome::Forest],
        vec![Biome::Forest, Biome::Forest],
    ]);
    // (0,0) has 3 in-bounds neighbours, all forest
    assert_eq!(neighbor_count(&g, 0, 0, Biome::Forest), 3);
    assert_eq!(neighbor_count(&g, 0, 0, Biome::Ocean), 0);
    // its decision uses those votes alone: 0 ocean neighbours, so it flips
    assert_eq!(smoothed_cell(&g, 0, 0), Biome::Forest);
}

#[test]
fn corner_smoothing_never_errors_on_a_full_pass() {
    let mut g = grid_of(vec![
        vec![Biome::Ocean, Biome::Forest],
        vec![Biome::Forest, Biome::Forest],
    ]);
    smooth_pass(&mut g);
    assert_eq!(g.get(0, 0), Biome::Forest);
    assert_eq!(g.get(1, 0), Biome::Forest);
    assert_eq!(g.get(0, 1), Biome::Forest);
    assert_eq!(g.get(1, 1), Biome::Forest);
}

#[test]
fn isolated_outlier_is_replaced() {
    let mut g = grid_of(vec![
        vec![Biome::Forest, Biome::Forest, Biome::Forest],
        vec![Biome::Forest, Biome::Desert, Biome::Forest],
        vec![Biome::Forest, Biome::Forest, Biome::Forest],
    ]);
    assert_eq!(neighbor_count(&g, 1, 1, Biome::Forest), 8);
    smooth_pass(&mut g);
    assert_eq!(g.get(1, 1), Biome::Forest);
}

#[test]
fn six_matching_neighbors_keep_the_cell() {
    // centre forest with 6 forest and 2 desert neighbours: kept
    let mut g = grid_of(vec![
        vec![Biome::Desert, Biome::Forest, Biome::Forest],
        vec![Biome::Desert, Biome::Forest, Biome::Forest],
        vec![Biome::Forest, Biome::Forest, Biome::Forest],
    ]);
    assert_eq!(neighbor_count(&g, 1, 1, Biome::Forest), 6);
    assert_eq!(neighbor_count(&g, 1, 1, Biome::Desert), 2);
    smooth_pass(&mut g);
    assert_eq!(g.get(1, 1), Biome::Forest);
}

#[test]
fn five_matching_neighbors_lose_to_a_majority() {
    // centre desert with 3 desert and 5 forest neighbours: flipped
    let mut g = grid_of(vec![
        vec![Biome::Forest, Biome::Forest, Biome::Forest],
        vec![Biome::Forest, Biome::Desert, Biome::Forest],
        vec![Biome::Desert, Biome::Desert, Biome::Desert],
    ]);
    assert_eq!(neighbor_count(&g, 1, 1, Biome::Forest), 5);
    assert_eq!(neighbor_count(&g, 1, 1, Biome::Desert), 3);
    smooth_pass(&mut g);
    assert_eq!(g.get(1, 1), Biome::Forest);
}

#[test]
fn ties_go_to_the_earliest_biome_in_enumeration_order() {
    // 4 grassland and 4 taiga neighbours around a desert centre:
    // grassland precedes taiga in the enumeration, so it wins the tie
    let mut g = grid_of(vec![
        vec![Biome::Grassland, Biome::Grassland, Biome::Grassland],
        vec![Biome::Taiga, Biome::Desert, Biome::Grassland],
        vec![Biome::Taiga, Biome::Taiga, Biome::Taiga],
    ]);
    assert_eq!(neighbor_count(&g, 1, 1, Biome::Grassland), 4);
    assert_eq!(neighbor_count(&g, 1, 1, Biome::Taiga), 4);
    smooth_pass(&mut g);
    assert_eq!(g.get(1, 1), Biome::Grassland);
}

#[test]
fn pass_reads_the_pre_pass_grid() {
    // every decision sees the pre-pass row, not cells already rewritten
    let mut g = grid_of(vec![vec![Biome::Desert, Biome::Forest, Biome::Desert]]);
    smooth_pass(&mut g);
    assert_eq!(g.get(0, 0), Biome::Forest);
    // the centre flips: its pre-pass neighbours are 2 deserts. Had the
    // pass read the already-rewritten left cell, a 1-1 tie would have
    // kept the centre forest instead.
    assert_eq!(g.get(1, 0), Biome::Desert);
    assert_eq!(g.get(2, 0), Biome::Forest);
}
