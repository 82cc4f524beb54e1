//! One pass of 8-neighbour majority-vote biome relaxation.
//!
//! Every cell looks at its up-to-8 grid-adjacent neighbours (edge and
//! corner cells use only those in bounds; there is no wraparound) and
//! tallies their biomes. If the most frequent neighbouring biome differs
//! from the cell's own and fewer than 6 neighbours share the cell's
//! biome, the cell takes the most frequent one. Ties between equally
//! frequent biomes go to the one earliest in `Biome`'s enumeration
//! order, so the pass is deterministic. The pass reads a snapshot of the
//! grid: every decision sees the pre-pass neighbourhood, never a
//! neighbour already rewritten in the same pass.

use vstd::prelude::*;

use crate::grid::Grid;
use crate::grid::rect;
use crate::tags::BIOME_COUNT;
use crate::tags::Biome;
use crate::tags::lemma_biome_index_roundtrip;
use crate::tags::spec_biome_index;
use crate::tags::spec_biome_of_index;

verus! {

/// A cell keeps its biome when at least this many of its neighbours
/// share it, no matter what the majority says.
pub const KEEP_THRESHOLD: u8 = 6;

/// 1 when `(x, y)` lies in the grid and holds biome `b`, else 0.
pub open spec fn nb(g: Seq<Seq<Biome>>, x: int, y: int, b: Biome) -> int {
    if 0 <= y < g.len() && 0 <= x < g[y].len() && g[y][x] == b {
        1
    } else {
        0
    }
}

/// How many of the up-to-8 neighbours of `(x, y)` hold biome `b`.
pub open spec fn spec_neighbor_count(g: Seq<Seq<Biome>>, x: int, y: int, b: Biome) -> int {
    nb(g, x - 1, y - 1, b) + nb(g, x, y - 1, b) + nb(g, x + 1, y - 1, b) + nb(g, x - 1, y, b)
        + nb(g, x + 1, y, b) + nb(g, x - 1, y + 1, b) + nb(g, x, y + 1, b) + nb(
        g,
        x + 1,
        y + 1,
        b,
    )
}

/// The neighbour tally of `(x, y)`, one entry per biome, in the stable
/// enumeration order.
pub open spec fn spec_counts(g: Seq<Seq<Biome>>, x: int, y: int) -> Seq<int> {
    Seq::new(BIOME_COUNT as nat, |i: int| spec_neighbor_count(g, x, y, spec_biome_of_index(i)))
}

/// The position of the first maximum among the first `n` entries of `s`.
pub open spec fn spec_argmax_prefix(s: Seq<int>, n: int) -> int
    decreases n,
{
    if n <= 1 {
        0
    } else {
        let p = spec_argmax_prefix(s, n - 1);
        if s[n - 1] > s[p] {
            n - 1
        } else {
            p
        }
    }
}

/// The first maximum really is a maximum of the prefix.
pub proof fn lemma_argmax_prefix_props(s: Seq<int>, n: int)
    requires
        1 <= n <= s.len(),
    ensures
        0 <= spec_argmax_prefix(s, n) < n,
        forall|i: int| 0 <= i < n ==> #[trigger] s[i] <= s[spec_argmax_prefix(s, n)],
    decreases n,
{
    if n > 1 {
        lemma_argmax_prefix_props(s, n - 1);
    }
}

/// What one relaxation pass leaves at `(x, y)`: the most frequent
/// neighbouring biome (first in enumeration order on ties), unless the
/// cell has no neighbours, already agrees with it, or shares its biome
/// with at least `KEEP_THRESHOLD` neighbours.
pub open spec fn spec_smoothed_cell(g: Seq<Seq<Biome>>, x: int, y: int) -> Biome {
    let cur = g[y][x];
    let counts = spec_counts(g, x, y);
    let m = spec_argmax_prefix(counts, BIOME_COUNT as int);
    let mc = spec_biome_of_index(m);
    if counts[m] == 0 {
        cur
    } else if mc != cur && spec_neighbor_count(g, x, y, cur) < KEEP_THRESHOLD {
        mc
    } else {
        cur
    }
}

/// Whether `(x, y)` offset by `(dx, dy)` lands in the grid and holds
/// biome `b`; counts 1 when it does, 0 otherwise.
#[verifier::rlimit(30)]
fn neighbor_vote(g: &Grid<Biome>, x: usize, y: usize, dx: i8, dy: i8, b: Biome) -> (c: u8)
    requires
        g.wf(),
        x < g.spec_width(),
        y < g.spec_height(),
        -1 <= dx <= 1,
        -1 <= dy <= 1,
    ensures
        c == nb(g@, x + dx, y + dy, b),
{
    let h = g.height();
    let w = g.width();
    let in_y: bool = if dy < 0 {
        y >= 1
    } else if dy > 0 {
        y + 1 < h
    } else {
        true
    };
    let in_x: bool = if dx < 0 {
        x >= 1
    } else if dx > 0 {
        x + 1 < w
    } else {
        true
    };
    if in_y && in_x {
        let ny: usize = if dy < 0 {
            y - 1
        } else if dy > 0 {
            y + 1
        } else {
            y
        };
        let nx: usize = if dx < 0 {
            x - 1
        } else if dx > 0 {
            x + 1
        } else {
            x
        };
        if g.get(nx, ny) == b {
            1
        } else {
            0
        }
    } else {
        0
    }
}

/// Counts the neighbours of `(x, y)` holding biome `b`.
pub fn neighbor_count(g: &Grid<Biome>, x: usize, y: usize, b: Biome) -> (c: u8)
    requires
        g.wf(),
        x < g.spec_width(),
        y < g.spec_height(),
    ensures
        c == spec_neighbor_count(g@, x as int, y as int, b),
        c <= 8,
{
    let mut c: u8 = neighbor_vote(g, x, y, -1, -1, b);
    c = c + neighbor_vote(g, x, y, 0, -1, b);
    c = c + neighbor_vote(g, x, y, 1, -1, b);
    c = c + neighbor_vote(g, x, y, -1, 0, b);
    c = c + neighbor_vote(g, x, y, 1, 0, b);
    c = c + neighbor_vote(g, x, y, -1, 1, b);
    c = c + neighbor_vote(g, x, y, 0, 1, b);
    c = c + neighbor_vote(g, x, y, 1, 1, b);
    c
}

/// Finds the most frequent neighbouring biome of `(x, y)`: returns its
/// position in the enumeration order and its tally. Ties go to the
/// earliest position.
pub fn most_common_neighbor(g: &Grid<Biome>, x: usize, y: usize) -> (r: (usize, u8))
    requires
        g.wf(),
        x < g.spec_width(),
        y < g.spec_height(),
    ensures
        r.0 == spec_argmax_prefix(spec_counts(g@, x as int, y as int), BIOME_COUNT as int),
        r.1 == spec_counts(g@, x as int, y as int)[r.0 as int],
        r.0 < BIOME_COUNT,
{
    let mut best_i: usize = 0;
    let mut best_c: u8 = neighbor_count(g, x, y, Biome::of_index(0));
    let mut i: usize = 1;
    while i < BIOME_COUNT
        invariant
            g.wf(),
            x < g.spec_width(),
            y < g.spec_height(),
            1 <= i <= BIOME_COUNT,
            best_i < i,
            best_i == spec_argmax_prefix(spec_counts(g@, x as int, y as int), i as int),
            best_c == spec_counts(g@, x as int, y as int)[best_i as int],
        decreases BIOME_COUNT - i,
    {
        let c = neighbor_count(g, x, y, Biome::of_index(i));
        if c > best_c {
            best_i = i;
            best_c = c;
        }
        i = i + 1;
    }
    (best_i, best_c)
}

/// What one relaxation pass leaves at `(x, y)`, reading the pre-pass
/// grid `g`.
pub fn smoothed_cell(g: &Grid<Biome>, x: usize, y: usize) -> (b: Biome)
    requires
        g.wf(),
        x < g.spec_width(),
        y < g.spec_height(),
    ensures
        b == spec_smoothed_cell(g@, x as int, y as int),
{
    let cur = g.get(x, y);
    let (best_i, best_c) = most_common_neighbor(g, x, y);
    if best_c == 0 {
        cur
    } else {
        let mc = Biome::of_index(best_i);
        if mc != cur {
            let cur_c = neighbor_count(g, x, y, cur);
            if cur_c < KEEP_THRESHOLD {
                mc
            } else {
                cur
            }
        } else {
            cur
        }
    }
}

/// One in-place relaxation pass over the whole grid. Every replacement
/// is decided from the pre-pass grid, so the result does not depend on
/// the order in which cells are visited.
pub fn smooth_pass(biomes: &mut Grid<Biome>)
    requires
        old(biomes).wf(),
    ensures
        final(biomes).wf(),
        final(biomes).spec_height() == old(biomes).spec_height(),
        final(biomes).spec_width() == old(biomes).spec_width(),
        forall|y: int, x: int|
            0 <= y < old(biomes).spec_height() && 0 <= x < old(biomes).spec_width()
                ==> final(biomes)@[y][x] == spec_smoothed_cell(old(biomes)@, x, y),
{
    let w = biomes.width();
    let h = biomes.height();
    let ghost g0 = biomes@;
    let mut out: Grid<Biome> = Grid::new(w, h, Biome::Ocean);
    let mut y: usize = 0;
    while y < h
        invariant
            biomes.wf(),
            biomes@ == g0,
            w == biomes.spec_width(),
            h == biomes.spec_height(),
            y <= h,
            out.wf(),
            out.spec_width() == w,
            out.spec_height() == h,
            forall|j: int, i: int|
                0 <= j < y && 0 <= i < w ==> out@[j][i] == spec_smoothed_cell(g0, i, j),
        decreases h - y,
    {
        let mut x: usize = 0;
        while x < w
            invariant
                biomes.wf(),
                biomes@ == g0,
                w == biomes.spec_width(),
                h == biomes.spec_height(),
                y < h,
                x <= w,
                out.wf(),
                out.spec_width() == w,
                out.spec_height() == h,
                forall|j: int, i: int|
                    0 <= j < y && 0 <= i < w ==> out@[j][i] == spec_smoothed_cell(g0, i, j),
                forall|i: int| 0 <= i < x ==> out@[y as int][i] == spec_smoothed_cell(g0, i, y as int),
            decreases w - x,
        {
            let b = smoothed_cell(biomes, x, y);
            out.set(x, y, b);
            x = x + 1;
        }
        y = y + 1;
    }
    *biomes = out;
}

/// A cell that shares its biome with at least `KEEP_THRESHOLD` of its
/// neighbours is never replaced, even when some other biome has a
/// strictly higher tally.
pub proof fn lemma_smooth_keeps_dominant(g: Seq<Seq<Biome>>, x: int, y: int)
    requires
        rect(g),
        0 <= y < g.len(),
        0 <= x < g[y].len(),
        spec_neighbor_count(g, x, y, g[y][x]) >= KEEP_THRESHOLD,
    ensures
        spec_smoothed_cell(g, x, y) == g[y][x],
{
    let cur = g[y][x];
    let counts = spec_counts(g, x, y);
    lemma_argmax_prefix_props(counts, BIOME_COUNT as int);
    lemma_biome_index_roundtrip(cur);
    assert(counts[spec_biome_index(cur)] == spec_neighbor_count(g, x, y, cur));
    let m = spec_argmax_prefix(counts, BIOME_COUNT as int);
    assert(counts[m] >= counts[spec_biome_index(cur)]);
}

/// The corner cell `(0, 0)` has exactly 3 in-bounds neighbours, and its
/// replacement decision counts only their votes.
pub proof fn lemma_corner_votes(g: Seq<Seq<Biome>>, b: Biome)
    requires
        rect(g),
        g.len() >= 2,
        g[0].len() >= 2,
    ensures
        spec_neighbor_count(g, 0, 0, b) == (if g[0][1] == b {
            1int
        } else {
            0int
        }) + (if g[1][0] == b {
            1int
        } else {
            0int
        }) + (if g[1][1] == b {
            1int
        } else {
            0int
        }),
        spec_neighbor_count(g, 0, 0, b) <= 3,
{
}

} // verus!
