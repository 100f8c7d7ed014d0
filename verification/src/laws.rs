//! Proved laws of the transition rule: reproduction, death by isolation or
//! overcrowding, border truncation, the block as a fixed point, the blinker
//! as a period-2 oscillator, and uniqueness of raster positions.

use crate::engine::alive_at;
use crate::engine::is_successor;
use crate::engine::neighbor_count;
use crate::engine::next_cell;
use crate::grid::Space;
use vstd::prelude::*;

verus! {

/// Law: a dead cell with exactly 3 live neighbors is alive in the next
/// generation (reproduction).
pub proof fn lemma_reproduction(g: Space, x: int, y: int)
    requires
        !g.cell(x, y),
        neighbor_count(g, x, y) == 3,
    ensures
        next_cell(g, x, y),
{
}

/// Law: a live cell with fewer than 2 or more than 3 live neighbors is dead
/// in the next generation (underpopulation, overpopulation).
pub proof fn lemma_death(g: Space, x: int, y: int)
    requires
        g.cell(x, y),
        neighbor_count(g, x, y) < 2 || neighbor_count(g, x, y) > 3,
    ensures
        !next_cell(g, x, y),
{
}

/// Law: the border truncates. An out-of-bounds coordinate never contributes
/// to a neighbor count, so the corner cell `(0, 0)` counts only its 3
/// in-bounds neighbors; the 5 offsets landing at negative coordinates are
/// excluded.
pub proof fn lemma_border_truncation(g: Space)
    ensures
        forall|x: int, y: int| !g.in_bounds(x, y) ==> alive_at(g, x, y) == 0,
        neighbor_count(g, 0, 0) == alive_at(g, 1, 0) + alive_at(g, 0, 1) + alive_at(g, 1, 1),
{
}

/// The grid holds exactly the classic 2x2 block: cells `(1, 1)`, `(1, 2)`,
/// `(2, 1)`, `(2, 2)` alive, everything else dead, with room for the dead
/// ring around the block.
pub open spec fn is_block(g: Space) -> bool {
    &&& g.wf()
    &&& g.spec_width() >= 4
    &&& g.spec_height() >= 4
    &&& forall|x: int, y: int|
        g.in_bounds(x, y) ==> ((#[trigger] g.cell(x, y)) <==> (1 <= x <= 2 && 1 <= y <= 2))
}

/// Law: the block is a fixed point of the transition. Each live cell of the
/// block has exactly 3 live neighbors and survives; every dead cell sees at
/// most 2 live cells and stays dead.
pub proof fn lemma_block_fixed_point(g: Space)
    requires
        is_block(g),
    ensures
        forall|x: int, y: int|
            g.in_bounds(x, y) ==> #[trigger] next_cell(g, x, y) == g.cell(x, y),
{
    assert forall|x: int, y: int|
        g.in_bounds(x, y) implies #[trigger] next_cell(g, x, y) == g.cell(x, y) by {
        assert(neighbor_count(g, x, y) == alive_at(g, x - 1, y - 1) + alive_at(g, x, y - 1)
            + alive_at(g, x + 1, y - 1) + alive_at(g, x - 1, y) + alive_at(g, x + 1, y)
            + alive_at(g, x - 1, y + 1) + alive_at(g, x, y + 1) + alive_at(g, x + 1, y + 1));
    }
}

/// The grid holds exactly a vertical blinker: cells `(2, 1)`, `(2, 2)`,
/// `(2, 3)` alive, everything else dead, with room for the dead ring around
/// the oscillator's bounding box.
pub open spec fn is_blinker_vertical(g: Space) -> bool {
    &&& g.wf()
    &&& g.spec_width() >= 5
    &&& g.spec_height() >= 5
    &&& forall|x: int, y: int|
        g.in_bounds(x, y) ==> ((#[trigger] g.cell(x, y)) <==> (x == 2 && 1 <= y <= 3))
}

/// The grid holds exactly a horizontal blinker: cells `(1, 2)`, `(2, 2)`,
/// `(3, 2)` alive, everything else dead.
pub open spec fn is_blinker_horizontal(g: Space) -> bool {
    &&& g.wf()
    &&& g.spec_width() >= 5
    &&& g.spec_height() >= 5
    &&& forall|x: int, y: int|
        g.in_bounds(x, y) ==> ((#[trigger] g.cell(x, y)) <==> (y == 2 && 1 <= x <= 3))
}

/// Law: one step turns the vertical blinker into the horizontal one.
pub proof fn lemma_blinker_vertical_to_horizontal(g: Space, h: Space)
    requires
        is_blinker_vertical(g),
        h.wf(),
        is_successor(g, h),
    ensures
        is_blinker_horizontal(h),
{
    assert forall|x: int, y: int|
        h.in_bounds(x, y) implies ((#[trigger] h.cell(x, y)) <==> (y == 2 && 1 <= x <= 3)) by {
        assert(g.in_bounds(x, y));
        assert(h.cell(x, y) == next_cell(g, x, y));
        assert(neighbor_count(g, x, y) == alive_at(g, x - 1, y - 1) + alive_at(g, x, y - 1)
            + alive_at(g, x + 1, y - 1) + alive_at(g, x - 1, y) + alive_at(g, x + 1, y)
            + alive_at(g, x - 1, y + 1) + alive_at(g, x, y + 1) + alive_at(g, x + 1, y + 1));
    }
}

/// Law: one step turns the horizontal blinker into the vertical one.
pub proof fn lemma_blinker_horizontal_to_vertical(g: Space, h: Space)
    requires
        is_blinker_horizontal(g),
        h.wf(),
        is_successor(g, h),
    ensures
        is_blinker_vertical(h),
{
    assert forall|x: int, y: int|
        h.in_bounds(x, y) implies ((#[trigger] h.cell(x, y)) <==> (x == 2 && 1 <= y <= 3)) by {
        assert(g.in_bounds(x, y));
        assert(h.cell(x, y) == next_cell(g, x, y));
        assert(neighbor_count(g, x, y) == alive_at(g, x - 1, y - 1) + alive_at(g, x, y - 1)
            + alive_at(g, x + 1, y - 1) + alive_at(g, x - 1, y) + alive_at(g, x + 1, y)
            + alive_at(g, x - 1, y + 1) + alive_at(g, x, y + 1) + alive_at(g, x + 1, y + 1));
    }
}

/// Law: the blinker oscillates with period exactly 2. Starting from the
/// vertical blinker, two successive steps return every cell to its original
/// state, while the intermediate generation differs from the original (at
/// `(2, 1)` among others).
pub proof fn lemma_blinker_period_two(g0: Space, g1: Space, g2: Space)
    requires
        is_blinker_vertical(g0),
        g1.wf(),
        g2.wf(),
        is_successor(g0, g1),
        is_successor(g1, g2),
    ensures
        g2.spec_width() == g0.spec_width(),
        g2.spec_height() == g0.spec_height(),
        forall|x: int, y: int|
            g0.in_bounds(x, y) ==> #[trigger] g2.cell(x, y) == g0.cell(x, y),
        g0.cell(2, 1) && !g1.cell(2, 1),
{
    lemma_blinker_vertical_to_horizontal(g0, g1);
    lemma_blinker_horizontal_to_vertical(g1, g2);
}

/// Law: the raster traversal visits every coordinate exactly once. Every
/// in-bounds coordinate `(x, y)` of a `w * h` grid has a raster position
/// `y * w + x` inside `[0, w * h)`, and distinct coordinates have distinct
/// positions; since the traversal yields the coordinate at position 0, then
/// 1, and so on up to `w * h`, it yields exactly `w * h` tuples, each
/// coordinate exactly once.
pub proof fn lemma_raster_position_bijective(w: int, h: int, x1: int, y1: int, x2: int, y2: int)
    requires
        0 <= x1 < w,
        0 <= y1 < h,
        0 <= x2 < w,
        0 <= y2 < h,
    ensures
        0 <= y1 * w + x1 < w * h,
        y1 * w + x1 == y2 * w + x2 ==> x1 == x2 && y1 == y2,
{
    assert(0 <= y1 * w + x1 < w * h) by (nonlinear_arith)
        requires
            0 <= x1 < w,
            0 <= y1 < h,
    ;
    if y1 * w + x1 == y2 * w + x2 {
        assert(x1 == x2 && y1 == y2) by (nonlinear_arith)
            requires
                y1 * w + x1 == y2 * w + x2,
                0 <= x1 < w,
                0 <= x2 < w,
        ;
    }
}

} // verus!
