//! The fixed-size 2D scalar grid ("map"): pure data with bounds-checked
//! access.
//!
//! The grid is an ordered sequence of rows, each an ordered sequence of
//! fixed-point cell values, row-major; both dimensions are immutable
//! after construction. Reads of out-of-range coordinates fail with
//! `OutOfBounds`; writes to out-of-range coordinates are silently
//! ignored, matching the edit path's policy of tolerating stray pointer
//! coordinates rather than failing on them.

use vstd::prelude::*;

use crate::glyph::CELL_MAX;

verus! {

/// A read addressed a coordinate outside the grid dimensions.
#[derive(Clone, Copy, PartialEq, Eq, Structural, Debug)]
pub struct OutOfBounds;

/// Fixed-size 2D grid of fixed-point scalar cells.
pub struct Grid {
    width: usize,
    height: usize,
    cells: Vec<Vec<i32>>,
}

/// The grid with cell `(x, y)` set to `v` when `(x, y)` is within the
/// sequence's own bounds, and unchanged otherwise.
pub open spec fn grid_set(g: Seq<Seq<i32>>, x: int, y: int, v: i32) -> Seq<Seq<i32>> {
    if 0 <= y < g.len() && 0 <= x < g[y].len() {
        g.update(y, g[y].update(x, v))
    } else {
        g
    }
}

impl View for Grid {
    type V = Seq<Seq<i32>>;

    /// The grid as a row-major sequence of rows of cell values.
    closed spec fn view(&self) -> Seq<Seq<i32>> {
        Seq::new(self.cells@.len(), |y: int| self.cells@[y]@)
    }
}

impl Grid {
    /// World-space width, in cells.
    pub closed spec fn spec_width(&self) -> int {
        self.width as int
    }

    /// World-space height, in cells.
    pub closed spec fn spec_height(&self) -> int {
        self.height as int
    }

    /// Shape invariant: exactly `height` rows of exactly `width` cells.
    pub open spec fn wf(&self) -> bool {
        &&& self@.len() == self.spec_height()
        &&& forall|y: int| 0 <= y < self@.len() ==> (#[trigger] self@[y]).len() == self.spec_width()
    }

    /// World-space width, in cells.
    pub fn width(&self) -> (w: usize)
        ensures
            w == self.spec_width(),
    {
        self.width
    }

    /// World-space height, in cells.
    pub fn height(&self) -> (h: usize)
        ensures
            h == self.spec_height(),
    {
        self.height
    }

    /// A grid of the given dimensions with every cell set to `fill`.
    pub fn new(width: usize, height: usize, fill: i32) -> (g: Grid)
        ensures
            g.wf(),
            g.spec_width() == width,
            g.spec_height() == height,
            forall|y: int, x: int|
                0 <= y < height && 0 <= x < width ==> #[trigger] g@[y][x] == fill,
    {
        let mut cells: Vec<Vec<i32>> = Vec::new();
        let mut y: usize = 0;
        while y < height
            invariant
                y <= height,
                cells@.len() == y,
                forall|j: int| 0 <= j < y ==> (#[trigger] cells@[j])@.len() == width,
                forall|j: int, i: int|
                    0 <= j < y && 0 <= i < width ==> #[trigger] cells@[j]@[i] == fill,
            decreases height - y,
        {
            let mut row: Vec<i32> = Vec::new();
            let mut x: usize = 0;
            while x < width
                invariant
                    x <= width,
                    row@.len() == x,
                    forall|i: int| 0 <= i < x ==> #[trigger] row@[i] == fill,
                decreases width - x,
            {
                row.push(fill);
                x = x + 1;
            }
            cells.push(row);
            y = y + 1;
        }
        Grid { width, height, cells }
    }

    /// Bounds-checked read: the cell value at `(x, y)`, or `OutOfBounds`
    /// exactly when the coordinate lies outside the grid dimensions.
    pub fn get(&self, x: usize, y: usize) -> (r: Result<i32, OutOfBounds>)
        requires
            self.wf(),
        ensures
            x < self.spec_width() && y < self.spec_height() ==> r == Ok::<i32, OutOfBounds>(
                self@[y as int][x as int],
            ),
            !(x < self.spec_width() && y < self.spec_height()) ==> r == Err::<i32, OutOfBounds>(
                OutOfBounds,
            ),
    {
        if x < self.width && y < self.height {
            proof {
                assert(self@[y as int] == self.cells@[y as int]@);
                assert(self@[y as int].len() == self.spec_width());
            }
            Ok(self.cells[y][x])
        } else {
            Err(OutOfBounds)
        }
    }

    /// Bounds-checked write: sets the cell at `(x, y)` when the
    /// coordinate is within the grid dimensions, and silently does
    /// nothing otherwise. Dimensions never change.
    pub fn set(&mut self, x: usize, y: usize, value: i32)
        requires
            old(self).wf(),
        ensures
            final(self).wf(),
            final(self).spec_width() == old(self).spec_width(),
            final(self).spec_height() == old(self).spec_height(),
            final(self)@ == grid_set(old(self)@, x as int, y as int, value),
    {
        if x < self.width && y < self.height {
            proof {
                assert(self@[y as int] == self.cells@[y as int]@);
                assert(self@[y as int].len() == self.spec_width());
            }
            self.cells[y][x] = value;
            assert(self@ =~= grid_set(old(self)@, x as int, y as int, value));
        }
    }

    /// Seeds a small fixed set of corner and near-corner landmark cells
    /// with the largest sentinel value, so an otherwise empty map shows
    /// visible reference points. Coordinates that fall outside a small
    /// grid are silently skipped by the bounds-checked write.
    pub fn seed_landmarks(&mut self)
        requires
            old(self).wf(),
        ensures
            final(self).wf(),
            final(self).spec_width() == old(self).spec_width(),
            final(self).spec_height() == old(self).spec_height(),
            final(self)@ == seeded_landmarks(old(self)@, old(self).spec_width(), old(
                self,
            ).spec_height()),
    {
        let w = self.width;
        let h = self.height;
        self.set(0, 0, CELL_MAX);
        self.set(if w >= 1 { w - 1 } else { 0 }, if h >= 1 { h - 1 } else { 0 }, CELL_MAX);
        self.set(if w >= 2 { w - 2 } else { 0 }, if h >= 5 { h - 5 } else { 0 }, CELL_MAX);
        self.set(if w >= 10 { w - 10 } else { 0 }, if h >= 10 { h - 10 } else { 0 }, CELL_MAX);
    }
}

/// A sequence of rows as a sequence of their views.
pub open spec fn rows_view(rows: Seq<Vec<i32>>) -> Seq<Seq<i32>> {
    Seq::new(rows.len(), |y: int| rows[y]@)
}

/// True when every row has exactly as many cells as the first.
pub open spec fn rectangular(rows: Seq<Seq<i32>>) -> bool {
    forall|y: int| 0 <= y < rows.len() ==> (#[trigger] rows[y]).len() == rows[0].len()
}

impl Grid {
    /// A grid adopting rows produced outside the library (procedural
    /// seeding hands its sampled values over in this shape): succeeds
    /// exactly when the rows are rectangular, and the grid then holds
    /// them unchanged.
    pub fn from_rows(rows: Vec<Vec<i32>>) -> (r: Option<Grid>)
        ensures
            r is Some <==> rectangular(rows_view(rows@)),
            r matches Some(g) ==> {
                &&& g.wf()
                &&& g.spec_height() == rows@.len()
                &&& g.spec_width() == (if rows@.len() == 0 {
                    0int
                } else {
                    rows@[0]@.len() as int
                })
                &&& g@ == rows_view(rows@)
            },
    {
        let height = rows.len();
        let width = if height == 0 {
            0
        } else {
            rows[0].len()
        };
        let mut y: usize = 0;
        while y < height
            invariant
                y <= height,
                height == rows@.len(),
                width == (if height == 0 {
                    0int
                } else {
                    rows@[0]@.len() as int
                }),
                forall|k: int| 0 <= k < y ==> (#[trigger] rows@[k])@.len() == width,
            decreases height - y,
        {
            if rows[y].len() != width {
                proof {
                    assert(rows_view(rows@)[y as int] == rows@[y as int]@);
                    assert(rows_view(rows@)[0] == rows@[0]@);
                    assert(rows_view(rows@)[y as int].len() != rows_view(rows@)[0].len());
                }
                return None;
            }
            y = y + 1;
        }
        let g = Grid { width, height, cells: rows };
        proof {
            assert(g@ =~= rows_view(rows@));
        }
        Some(g)
    }
}

/// The four landmark writes of `seed_landmarks`, in order: the origin,
/// the far corner, and two near-corner cells, each write bounds-checked
/// against the sequence itself.
pub open spec fn seeded_landmarks(g: Seq<Seq<i32>>, w: int, h: int) -> Seq<Seq<i32>> {
    grid_set(
        grid_set(
            grid_set(
                grid_set(g, 0, 0, CELL_MAX),
                crate::camera::sat_sub(w, 1),
                crate::camera::sat_sub(h, 1),
                CELL_MAX,
            ),
            crate::camera::sat_sub(w, 2),
            crate::camera::sat_sub(h, 5),
            CELL_MAX,
        ),
        crate::camera::sat_sub(w, 10),
        crate::camera::sat_sub(h, 10),
        CELL_MAX,
    )
}

} // verus!
