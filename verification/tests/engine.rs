use game_of_life::engine::step;
use game_of_life::grid::Space;

/// Builds a grid of the given dimensions with exactly the listed cells alive.
fn grid_with(width: usize, height: usize, alive: &[(usize, usize)]) -> Space {
    let mut g = Space::new(width, height);
    for &(x, y) in alive {
        g.set_cell(x, y, true);
    }
    g
}

/// Asserts that the grid holds exactly the listed live cells.
fn assert_cells(g: &Space, width: usize, height: usize, alive: &[(usize, usize)]) {
    assert_eq!(g.width(), width);
    assert_eq!(g.height(), height);
    for x in 0..width {
        for y in 0..height {
            let expected = alive.contains(&(x, y));
            assert_eq!(g.get(x, y), expected, "cell ({}, {})", x, y);
        }
    }
}

#[test]
fn step_preserves_dimensions() {
    let g = grid_with(7, 4, &[(0, 0), (3, 2), (6, 3)]);
    let h = step(&g);
    assert_eq!(h.width(), 7);
    assert_eq!(h.height(), 4);
}

#[test]
fn reproduction_dead_cell_with_three_neighbors_becomes_alive() {
    // L at (0,0), (0,1), (1,0): the dead cell (1,1) has exactly 3 live
    // neighbors and is born.
    let g = grid_with(3, 3, &[(0, 0), (0, 1), (1, 0)]);
    let h = step(&g);
    assert!(h.get(1, 1));
}

#[test]
fn isolated_live_cell_dies() {
    let g = grid_with(5, 5, &[(2, 2)]);
    let h = step(&g);
    assert_cells(&h, 5, 5, &[]);
}

#[test]
fn overpopulation_live_cell_with_four_neighbors_dies() {
    // Center of a plus sign: (2,2) has 4 live neighbors.
    let g = grid_with(5, 5, &[(2, 2), (1, 2), (3, 2), (2, 1), (2, 3)]);
    let h = step(&g);
    assert!(!h.get(2, 2));
}

#[test]
fn survival_live_cell_with_two_neighbors_survives() {
    // Middle of a bent triple: (1,1) touches (0,0) and (1,0).
    let g = grid_with(4, 4, &[(0, 0), (1, 0), (1, 1)]);
    let h = step(&g);
    assert!(h.get(1, 1));
}

#[test]
fn block_is_a_fixed_point() {
    let block = [(1, 1), (1, 2), (2, 1), (2, 2)];
    let g = grid_with(6, 6, &block);
    let h = step(&g);
    assert_cells(&h, 6, 6, &block);
}

#[test]
fn blinker_oscillates_with_period_two() {
    let vertical = [(2, 1), (2, 2), (2, 3)];
    let horizontal = [(1, 2), (2, 2), (3, 2)];
    let g0 = grid_with(5, 5, &vertical);
    let g1 = step(&g0);
    assert_cells(&g1, 5, 5, &horizontal);
    let g2 = step(&g1);
    assert_cells(&g2, 5, 5, &vertical);
}

#[test]
fn corner_cell_counts_only_in_bounds_neighbors() {
    // A lone live cell at (0, 0): its five out-of-bounds offsets contribute
    // nothing, the three in-bounds neighbors are dead, so it dies.
    let g = grid_with(3, 3, &[(0, 0)]);
    let h = step(&g);
    assert_cells(&h, 3, 3, &[]);

    // A fully live 2x2 grid: each corner has exactly 3 in-bounds neighbors,
    // all alive, so everything survives. Wrapping would not change counts
    // here, but a 1x1 live grid separates the policies below.
    let g = grid_with(2, 2, &[(0, 0), (0, 1), (1, 0), (1, 1)]);
    let h = step(&g);
    assert_cells(&h, 2, 2, &[(0, 0), (0, 1), (1, 0), (1, 1)]);

    // On a 1x1 grid a toroidal reading would count the cell as its own
    // neighbor 8 times; bounded truncation counts 0, so the cell dies.
    let g = grid_with(1, 1, &[(0, 0)]);
    let h = step(&g);
    assert_cells(&h, 1, 1, &[]);
}

#[test]
fn simulate_replaces_the_grid_with_its_step() {
    let vertical = [(2, 1), (2, 2), (2, 3)];
    let horizontal = [(1, 2), (2, 2), (3, 2)];
    let mut g = grid_with(5, 5, &vertical);
    g.simulate();
    assert_cells(&g, 5, 5, &horizontal);
}
