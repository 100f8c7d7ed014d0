use game_of_life::grid::Space;

#[test]
fn new_grid_is_all_dead_with_given_dimensions() {
    let g = Space::new(4, 7);
    assert_eq!(g.width(), 4);
    assert_eq!(g.height(), 7);
    for x in 0..4 {
        for y in 0..7 {
            assert!(!g.get(x, y));
        }
    }
}

#[test]
fn set_cell_changes_one_cell_only() {
    let mut g = Space::new(3, 3);
    g.set_cell(1, 2, true);
    for x in 0..3 {
        for y in 0..3 {
            assert_eq!(g.get(x, y), x == 1 && y == 2);
        }
    }
    g.set_cell(1, 2, false);
    assert!(!g.get(1, 2));
}

#[test]
fn iterate_yields_raster_order() {
    let mut g = Space::new(3, 2);
    g.set_cell(2, 0, true);
    let mut it = g.iter();
    assert_eq!(it.next(), Some((0, 0, false)));
    assert_eq!(it.next(), Some((1, 0, false)));
    assert_eq!(it.next(), Some((2, 0, true)));
    assert_eq!(it.next(), Some((0, 1, false)));
    assert_eq!(it.next(), Some((1, 1, false)));
    assert_eq!(it.next(), Some((2, 1, false)));
    assert_eq!(it.next(), None);
    assert_eq!(it.next(), None);
}

#[test]
fn iterate_visits_every_coordinate_exactly_once() {
    let width: usize = 4;
    let height: usize = 3;
    let mut g = Space::new(width, height);
    g.set_cell(0, 0, true);
    g.set_cell(3, 2, true);

    let mut seen = vec![vec![0usize; height]; width];
    let mut count = 0usize;
    let mut it = g.iter();
    while let Some((x, y, alive)) = it.next() {
        assert!(x < width && y < height);
        seen[x][y] += 1;
        assert_eq!(alive, g.get(x, y));
        count += 1;
    }
    assert_eq!(count, width * height);
    for x in 0..width {
        for y in 0..height {
            assert_eq!(seen[x][y], 1, "coordinate ({}, {})", x, y);
        }
    }
}
