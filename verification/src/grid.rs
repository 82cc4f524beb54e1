//! A fixed-size rectangular raster, row-major, 0-indexed, with `(0, 0)`
//! at the top-left corner. Every row has the same length; the dimensions
//! are fixed at construction and never change.

use vstd::prelude::*;

verus! {

/// A `width x height` rectangular array of `T`.
pub struct Grid<T> {
    rows: Vec<Vec<T>>,
}

/// Whether a sequence of rows is rectangular and non-empty: at least one
/// row, at least one column, and every row of the same length.
pub open spec fn rect<T>(rows: Seq<Seq<T>>) -> bool {
    &&& rows.len() >= 1
    &&& rows[0].len() >= 1
    &&& forall|y: int| 0 <= y < rows.len() ==> #[trigger] rows[y].len() == rows[0].len()
}

impl<T> Grid<T> {
    /// The rows of the grid, as a sequence of equally long sequences.
    pub closed spec fn view(&self) -> Seq<Seq<T>> {
        self.rows@.map_values(|r: Vec<T>| r@)
    }

    /// The shape invariant: the grid is rectangular and non-empty.
    pub open spec fn wf(&self) -> bool {
        rect(self@)
    }

    /// The number of rows.
    pub open spec fn spec_height(&self) -> int {
        self@.len() as int
    }

    /// The number of columns.
    pub open spec fn spec_width(&self) -> int {
        self@[0].len() as int
    }

    /// Wraps an already rectangular set of rows as a grid.
    pub fn from_rows(rows: Vec<Vec<T>>) -> (g: Grid<T>)
        requires
            rows@.len() >= 1,
            rows@[0]@.len() >= 1,
            forall|y: int|
                0 <= y < rows@.len() ==> #[trigger] rows@[y]@.len() == rows@[0]@.len(),
        ensures
            g.wf(),
            g@.len() == rows@.len(),
            forall|y: int| 0 <= y < rows@.len() ==> #[trigger] g@[y] == rows@[y]@,
    {
        let g = Grid { rows };
        proof {
            assert(g@.len() == g.rows@.len());
            assert(forall|y: int|
                0 <= y < g.rows@.len() ==> #[trigger] g@[y] == g.rows@[y]@);
        }
        g
    }

    /// The number of rows.
    pub fn height(&self) -> (h: usize)
        ensures
            h == self.spec_height(),
    {
        proof {
            assert(self@.len() == self.rows@.len());
        }
        self.rows.len()
    }

    /// The number of columns.
    pub fn width(&self) -> (w: usize)
        requires
            self.wf(),
        ensures
            w == self.spec_width(),
    {
        proof {
            assert(self@.len() == self.rows@.len());
            assert(self@[0int] == self.rows@[0int]@);
        }
        self.rows[0].len()
    }

    /// Replaces the cell in column `x` of row `y` with `v`.
    pub fn set(&mut self, x: usize, y: usize, v: T)
        requires
            old(self).wf(),
            y < old(self).spec_height(),
            x < old(self).spec_width(),
        ensures
            final(self).wf(),
            final(self)@ == old(self)@.update(
                y as int,
                old(self)@[y as int].update(x as int, v),
            ),
            final(self).spec_width() == old(self).spec_width(),
            final(self).spec_height() == old(self).spec_height(),
    {
        proof {
            assert(self@.len() == self.rows@.len());
            assert(self@[y as int] == self.rows@[y as int]@);
        }
        self.rows[y][x] = v;
        proof {
            assert(self@ =~~= old(self)@.update(
                y as int,
                old(self)@[y as int].update(x as int, v),
            ));
        }
    }
}

impl<T: Copy> Grid<T> {
    /// Builds a grid of the given dimensions with every cell set to `fill`.
    pub fn new(width: usize, height: usize, fill: T) -> (g: Grid<T>)
        requires
            width >= 1,
            height >= 1,
        ensures
            g.wf(),
            g.spec_width() == width,
            g.spec_height() == height,
            forall|y: int, x: int|
                0 <= y < height && 0 <= x < width ==> g@[y][x] == fill,
    {
        let mut rows: Vec<Vec<T>> = Vec::new();
        let mut y: usize = 0;
        while y < height
            invariant
                y <= height,
                rows@.len() == y,
                forall|j: int| 0 <= j < y ==> #[trigger] rows@[j]@.len() == width,
                forall|j: int, x: int|
                    0 <= j < y && 0 <= x < width ==> rows@[j]@[x] == fill,
            decreases height - y,
        {
            let mut row: Vec<T> = Vec::new();
            let mut x: usize = 0;
            while x < width
                invariant
                    x <= width,
                    row@.len() == x,
                    forall|i: int| 0 <= i < x ==> row@[i] == fill,
                decreases width - x,
            {
                row.push(fill);
                x = x + 1;
            }
            rows.push(row);
            y = y + 1;
        }
        let g = Grid { rows };
        proof {
            assert(g@.len() == g.rows@.len());
            assert(forall|j: int|
                0 <= j < g.rows@.len() ==> #[trigger] g@[j] == g.rows@[j]@);
        }
        g
    }

    /// Reads the cell in column `x` of row `y`.
    pub fn get(&self, x: usize, y: usize) -> (v: T)
        requires
            self.wf(),
            y < self.spec_height(),
            x < self.spec_width(),
        ensures
            v == self@[y as int][x as int],
    {
        proof {
            assert(self@.len() == self.rows@.len());
            assert(self@[y as int] == self.rows@[y as int]@);
            assert(self@[0int] == self.rows@[0int]@);
        }
        self.rows[y][x]
    }
}

} // verus!
