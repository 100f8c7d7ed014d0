//! Randomized initial-state generation.
//!
//! [`initialize_random`] fills a fresh grid cell by cell, making each cell
//! alive with probability `p_num / p_den`, independently of every other
//! cell. The probability is a ratio of plain integers; the random source is
//! `rand`'s thread-local generator, reached through a trusted wrapper.

use crate::grid::Space;
use vstd::prelude::*;

verus! {

/// `rand`'s thread-local random generator, opaque to this library: it is
/// created by the caller and carried through to the coin flips.
#[verifier::external_type_specification]
#[verifier::external_body]
pub struct ExThreadRng(rand::rngs::ThreadRng);

/// Relies on rand's `Rng::random_ratio`: the result is true with
/// probability `num / den`; it is guaranteed false when `num == 0` and
/// guaranteed true when `num == den`, and the call panics only when
/// `den == 0` or `num > den`.
#[verifier::external_body]
fn coin(rng: &mut rand::rngs::ThreadRng, num: u32, den: u32) -> (b: bool)
    requires
        0 < den,
        num <= den,
    ensures
        num == 0 ==> !b,
        num == den ==> b,
{
    rand::Rng::random_ratio(rng, num, den)
}

/// Constructs a fresh `width * height` grid where each cell is
/// independently alive with probability `p_num / p_den`. With probability 0
/// every cell is dead; with probability 1 every cell is alive.
pub fn initialize_random(
    width: usize,
    height: usize,
    p_num: u32,
    p_den: u32,
    rng: &mut rand::rngs::ThreadRng,
) -> (s: Space)
    requires
        width >= 1,
        height >= 1,
        0 < p_den,
        p_num <= p_den,
    ensures
        s.wf(),
        s.spec_width() == width,
        s.spec_height() == height,
        p_num == 0 ==> forall|x: int, y: int| s.in_bounds(x, y) ==> !(#[trigger] s.cell(x, y)),
        p_num == p_den ==> forall|x: int, y: int| s.in_bounds(x, y) ==> #[trigger] s.cell(x, y),
{
    let mut s = Space::new(width, height);
    let mut x: usize = 0;
    while x < width
        invariant
            s.wf(),
            s.spec_width() == width,
            s.spec_height() == height,
            x <= width,
            0 < p_den,
            p_num <= p_den,
            p_num == 0 ==> forall|i: int, j: int|
                s.in_bounds(i, j) ==> !(#[trigger] s.cell(i, j)),
            p_num == p_den ==> forall|i: int, j: int|
                0 <= i < x && 0 <= j < height ==> #[trigger] s.cell(i, j),
        decreases width - x,
    {
        let mut y: usize = 0;
        while y < height
            invariant
                s.wf(),
                s.spec_width() == width,
                s.spec_height() == height,
                x < width,
                y <= height,
                0 < p_den,
                p_num <= p_den,
                p_num == 0 ==> forall|i: int, j: int|
                    s.in_bounds(i, j) ==> !(#[trigger] s.cell(i, j)),
                p_num == p_den ==> forall|i: int, j: int|
                    0 <= i < x && 0 <= j < height ==> #[trigger] s.cell(i, j),
                p_num == p_den ==> forall|j: int|
                    0 <= j < y ==> #[trigger] s.cell(x as int, j),
            decreases height - y,
        {
            if coin(rng, p_num, p_den) {
                s.set_cell(x, y, true);
            }
            y = y + 1;
        }
        x = x + 1;
    }
    s
}

} // verus!
