//! The simulation engine: Conway's rule and the generation transition.
//!
//! [`step`] computes generation N+1 from generation N. Every cell of the new
//! grid is the [`rule`] applied to the old cell and its live-neighbor count
//! over the 8-neighborhood, truncated at the border: offsets that land
//! outside the grid are excluded from the count, not wrapped. The new grid
//! is a pure function of the old grid as a whole; the old grid is never
//! mutated mid-pass.

use crate::grid::Space;
use vstd::prelude::*;

verus! {

/// 1 if `(x, y)` is an in-bounds live cell of `g`, else 0. Out-of-bounds
/// coordinates contribute 0: the bounded-grid (non-wrapping) border policy.
pub open spec fn alive_at(g: Space, x: int, y: int) -> int {
    if g.in_bounds(x, y) && g.cell(x, y) {
        1int
    } else {
        0int
    }
}

/// The number of live cells among the up-to-8 in-bounds neighbors of
/// `(x, y)`: the 8 offsets `(0, ±1), (±1, 0), (±1, ±1)`.
pub open spec fn neighbor_count(g: Space, x: int, y: int) -> int {
    alive_at(g, x - 1, y - 1) + alive_at(g, x, y - 1) + alive_at(g, x + 1, y - 1)
        + alive_at(g, x - 1, y) + alive_at(g, x + 1, y)
        + alive_at(g, x - 1, y + 1) + alive_at(g, x, y + 1) + alive_at(g, x + 1, y + 1)
}

/// Conway's rule table as a total function of (current state, live-neighbor
/// count): a live cell survives exactly with 2 or 3 live neighbors
/// (underpopulation below, overpopulation above); a dead cell becomes alive
/// exactly with 3 (reproduction), and otherwise stays dead (stasis).
pub open spec fn rule(alive: bool, n: int) -> bool {
    if alive {
        2 <= n <= 3
    } else {
        n == 3
    }
}

/// The state of cell `(x, y)` in the generation that follows `g`.
pub open spec fn next_cell(g: Space, x: int, y: int) -> bool {
    rule(g.cell(x, y), neighbor_count(g, x, y))
}

/// `h` is the generation that follows `g`: same dimensions, and every cell
/// of `h` is [`next_cell`] of `g`.
pub open spec fn is_successor(g: Space, h: Space) -> bool {
    &&& h.spec_width() == g.spec_width()
    &&& h.spec_height() == g.spec_height()
    &&& forall|x: int, y: int| g.in_bounds(x, y) ==> #[trigger] h.cell(x, y) == next_cell(g, x, y)
}

/// Counts the live in-bounds neighbors of `(x, y)`, excluding offsets that
/// fall outside the grid.
fn count_alive_neighbours(g: &Space, x: usize, y: usize) -> (n: u8)
    requires
        g.wf(),
        x < g.spec_width(),
        y < g.spec_height(),
    ensures
        n == neighbor_count(*g, x as int, y as int),
        n <= 8,
{
    let w = g.width();
    let h = g.height();
    let mut n: u8 = 0;
    if x > 0 && y > 0 && g.get(x - 1, y - 1) {
        n = n + 1;
    }
    if y > 0 && g.get(x, y - 1) {
        n = n + 1;
    }
    if x + 1 < w && y > 0 && g.get(x + 1, y - 1) {
        n = n + 1;
    }
    if x > 0 && g.get(x - 1, y) {
        n = n + 1;
    }
    if x + 1 < w && g.get(x + 1, y) {
        n = n + 1;
    }
    if x > 0 && y + 1 < h && g.get(x - 1, y + 1) {
        n = n + 1;
    }
    if y + 1 < h && g.get(x, y + 1) {
        n = n + 1;
    }
    if x + 1 < w && y + 1 < h && g.get(x + 1, y + 1) {
        n = n + 1;
    }
    n
}

/// Computes generation N+1 from generation N, reading exclusively from the
/// frozen input grid and writing into a brand-new grid, so the result is a
/// pure function of the input as a whole, independent of traversal order.
pub fn step(g: &Space) -> (next: Space)
    requires
        g.wf(),
    ensures
        next.wf(),
        is_successor(*g, next),
{
    let w = g.width();
    let h = g.height();
    let mut next = Space::new(w, h);
    let mut x: usize = 0;
    while x < w
        invariant
            g.wf(),
            w == g.spec_width(),
            h == g.spec_height(),
            x <= w,
            next.wf(),
            next.spec_width() == w,
            next.spec_height() == h,
            forall|i: int, j: int|
                0 <= i < x && 0 <= j < h ==> #[trigger] next.cell(i, j) == next_cell(*g, i, j),
        decreases w - x,
    {
        let mut y: usize = 0;
        while y < h
            invariant
                g.wf(),
                w == g.spec_width(),
                h == g.spec_height(),
                x < w,
                y <= h,
                next.wf(),
                next.spec_width() == w,
                next.spec_height() == h,
                forall|i: int, j: int|
                    0 <= i < x && 0 <= j < h ==> #[trigger] next.cell(i, j) == next_cell(*g, i, j),
                forall|j: int|
                    0 <= j < y ==> #[trigger] next.cell(x as int, j) == next_cell(*g, x as int, j),
            decreases h - y,
        {
            let alive = g.get(x, y);
            let count = count_alive_neighbours(g, x, y);
            let lives = if alive {
                count == 2 || count == 3
            } else {
                count == 3
            };
            next.set_cell(x, y, lives);
            y = y + 1;
        }
        x = x + 1;
    }
    next
}

impl Space {
    /// Advances this grid by one generation, replacing it with [`step`] of
    /// its old value. The new cells are computed entirely from the old grid
    /// before any cell is replaced.
    pub fn simulate(&mut self)
        requires
            old(self).wf(),
        ensures
            final(self).wf(),
            is_successor(*old(self), *final(self)),
    {
        let next = step(self);
        *self = next;
    }
}

} // verus!
