//! The grid: a dense, rectangular snapshot of cell states.
//!
//! A [`Space`] owns a fixed-size two-dimensional array of boolean cells,
//! indexed by `(x, y)` with `0 <= x < width` and `0 <= y < height`. It is
//! read through [`Space::get`] and traversed in raster order (x varying
//! fastest, then y) through [`CellIter`].

use vstd::prelude::*;

verus! {

/// A snapshot of automaton state: `width * height` boolean cells.
///
/// Cells are stored column by column: `cells[x][y]` is the state at `(x, y)`.
pub struct Space {
    cells: Vec<Vec<bool>>,
}

impl Space {
    /// The number of columns.
    pub closed spec fn spec_width(&self) -> usize {
        self.cells@.len() as usize
    }

    /// The number of rows.
    pub closed spec fn spec_height(&self) -> usize {
        if self.cells@.len() == 0 {
            0usize
        } else {
            self.cells@[0]@.len() as usize
        }
    }

    /// The state of the cell at `(x, y)`; meaningful only in bounds.
    pub closed spec fn cell(self, x: int, y: int) -> bool {
        self.cells@[x]@[y]
    }

    /// Whether `(x, y)` is a coordinate of this grid.
    pub open spec fn in_bounds(self, x: int, y: int) -> bool {
        0 <= x < self.spec_width() && 0 <= y < self.spec_height()
    }

    /// The storage is rectangular and dense: one column per x coordinate,
    /// and every column holds exactly one cell per y coordinate.
    pub closed spec fn rectangular(self) -> bool {
        &&& self.cells@.len() == self.spec_width()
        &&& forall|i: int|
            0 <= i < self.cells@.len() ==> (#[trigger] self.cells@[i])@.len()
                == self.spec_height()
    }

    /// Well-formedness: at least one column and one row, and every column
    /// has the same length, so every coordinate in bounds has exactly one
    /// state.
    pub open spec fn wf(self) -> bool {
        &&& 1 <= self.spec_width()
        &&& 1 <= self.spec_height()
        &&& self.rectangular()
    }

    /// Constructs an all-dead grid of the given dimensions.
    pub fn new(width: usize, height: usize) -> (s: Space)
        requires
            width >= 1,
            height >= 1,
        ensures
            s.wf(),
            s.spec_width() == width,
            s.spec_height() == height,
            forall|x: int, y: int| s.in_bounds(x, y) ==> !(#[trigger] s.cell(x, y)),
    {
        let mut cells: Vec<Vec<bool>> = Vec::new();
        let mut x: usize = 0;
        while x < width
            invariant
                x <= width,
                height >= 1,
                cells@.len() == x,
                forall|i: int| 0 <= i < x ==> (#[trigger] cells@[i])@.len() == height,
                forall|i: int, j: int|
                    0 <= i < x && 0 <= j < height ==> !(#[trigger] cells@[i]@[j]),
            decreases width - x,
        {
            let mut col: Vec<bool> = Vec::new();
            let mut y: usize = 0;
            while y < height
                invariant
                    y <= height,
                    col@.len() == y,
                    forall|j: int| 0 <= j < y ==> !(#[trigger] col@[j]),
                decreases height - y,
            {
                col.push(false);
                y = y + 1;
            }
            cells.push(col);
            x = x + 1;
        }
        Space { cells }
    }

    /// The number of columns.
    #[verifier::when_used_as_spec(spec_width)]
    pub fn width(&self) -> (w: usize)
        ensures
            w == self.spec_width(),
    {
        self.cells.len()
    }

    /// The number of rows.
    #[verifier::when_used_as_spec(spec_height)]
    pub fn height(&self) -> (h: usize)
        requires
            self.wf(),
        ensures
            h == self.spec_height(),
    {
        self.cells[0].len()
    }

    /// Reads the cell at `(x, y)`. Callers must stay in bounds; the engine's
    /// neighbor lookup checks bounds before calling, rather than this grid
    /// absorbing the check.
    pub fn get(&self, x: usize, y: usize) -> (b: bool)
        requires
            self.wf(),
            x < self.spec_width(),
            y < self.spec_height(),
        ensures
            b == self.cell(x as int, y as int),
    {
        self.cells[x][y]
    }

    /// Writes the cell at `(x, y)`, leaving every other cell unchanged.
    pub fn set_cell(&mut self, x: usize, y: usize, v: bool)
        requires
            old(self).wf(),
            x < old(self).spec_width(),
            y < old(self).spec_height(),
        ensures
            final(self).wf(),
            final(self).spec_width() == old(self).spec_width(),
            final(self).spec_height() == old(self).spec_height(),
            final(self).cell(x as int, y as int) == v,
            forall|i: int, j: int|
                old(self).in_bounds(i, j) && !(i == x && j == y)
                    ==> #[trigger] final(self).cell(i, j) == old(self).cell(i, j),
    {
        self.cells[x][y] = v;
    }

    /// Starts a raster-order traversal of this grid at `(0, 0)`.
    pub fn iter(&self) -> (it: CellIter<'_>)
        requires
            self.wf(),
        ensures
            it.wf(),
            it.space() == *self,
            it.pos() == 0,
    {
        let it = CellIter { space: self, x: 0, y: 0 };
        proof {
            assert(0usize * it.space().spec_width() == 0);
        }
        it
    }
}

/// A cursor over a grid's coordinates in raster order: `(0, 0), (1, 0), ...,
/// (width-1, 0), (0, 1), ...`. It yields every coordinate exactly once,
/// together with its cell state, and then stays exhausted.
pub struct CellIter<'a> {
    space: &'a Space,
    x: usize,
    y: usize,
}

impl<'a> CellIter<'a> {
    /// The grid being traversed.
    pub closed spec fn space(self) -> Space {
        *self.space
    }

    /// The current x coordinate (the one the next call will yield).
    pub closed spec fn cur_x(self) -> usize {
        self.x
    }

    /// The current y coordinate (the one the next call will yield).
    pub closed spec fn cur_y(self) -> usize {
        self.y
    }

    /// How many cells have been yielded so far; also the raster index
    /// `y * width + x` of the coordinate the next call will yield.
    pub open spec fn pos(self) -> int {
        self.cur_y() * self.space().spec_width() + self.cur_x()
    }

    /// The traversal has yielded all `width * height` cells.
    pub open spec fn done(self) -> bool {
        self.cur_y() >= self.space().spec_height()
    }

    /// Well-formedness of the cursor: it sits on a coordinate of the grid,
    /// or just past the last one.
    pub closed spec fn wf(self) -> bool {
        &&& self.space.wf()
        &&& self.x < self.space.spec_width()
        &&& self.y <= self.space.spec_height()
        &&& self.y == self.space.spec_height() ==> self.x == 0
    }

    /// Yields the cell at the current coordinate and advances in raster
    /// order, or returns `None` once every coordinate has been yielded.
    pub fn next(&mut self) -> (r: Option<(usize, usize, bool)>)
        requires
            old(self).wf(),
        ensures
            final(self).wf(),
            final(self).space() == old(self).space(),
            old(self).done() ==> r is None && *final(self) == *old(self),
            !old(self).done() ==> {
                &&& r == Some(
                    (
                        old(self).cur_x(),
                        old(self).cur_y(),
                        old(self).space().cell(old(self).cur_x() as int, old(self).cur_y() as int),
                    ),
                )
                &&& old(self).space().in_bounds(
                    old(self).cur_x() as int,
                    old(self).cur_y() as int,
                )
                &&& final(self).pos() == old(self).pos() + 1
            },
            final(self).done() <==> old(self).done()
                || old(self).pos() + 1 >= old(self).space().spec_width()
                * old(self).space().spec_height(),
    {
        if self.y >= self.space.height() {
            return None;
        }
        let ghost w: int = self.space.spec_width() as int;
        let ghost h: int = self.space.spec_height() as int;
        let ghost x0: int = self.x as int;
        let ghost y0: int = self.y as int;

        let val = self.space.get(self.x, self.y);
        let current = (self.x, self.y, val);

        self.x = self.x + 1;
        if self.x >= self.space.width() {
            self.y = self.y + 1;
            self.x = 0;
        }

        proof {
            if x0 + 1 == w {
                assert((y0 + 1) * w == y0 * w + w) by (nonlinear_arith);
                if y0 + 1 == h {
                    assert(h * w == w * h) by (nonlinear_arith);
                } else {
                    assert((y0 + 1) * w < h * w && h * w == w * h) by (nonlinear_arith)
                        requires
                            y0 + 1 < h,
                            w >= 1,
                    ;
                }
            } else {
                assert(y0 * w + x0 + 1 < w * h) by (nonlinear_arith)
                    requires
                        0 <= x0,
                        x0 + 1 < w,
                        0 <= y0,
                        y0 < h,
                ;
            }
        }
        Some(current)
    }
}

} // verus!
