use game_of_life::random::initialize_random;

#[test]
fn probability_zero_gives_an_all_dead_grid() {
    let mut rng = rand::rng();
    let g = initialize_random(6, 5, 0, 100, &mut rng);
    assert_eq!(g.width(), 6);
    assert_eq!(g.height(), 5);
    for x in 0..6 {
        for y in 0..5 {
            assert!(!g.get(x, y));
        }
    }
}

#[test]
fn probability_one_gives_an_all_alive_grid() {
    let mut rng = rand::rng();
    let g = initialize_random(5, 6, 100, 100, &mut rng);
    assert_eq!(g.width(), 5);
    assert_eq!(g.height(), 6);
    for x in 0..5 {
        for y in 0..6 {
            assert!(g.get(x, y));
        }
    }
}

#[test]
fn random_grid_has_the_requested_dimensions() {
    let mut rng = rand::rng();
    let g = initialize_random(200, 200, 15, 100, &mut rng);
    assert_eq!(g.width(), 200);
    assert_eq!(g.height(), 200);
    // Every cell is readable and boolean; nothing more is promised of a
    // random outcome.
    let mut live = 0usize;
    for x in 0..200 {
        for y in 0..200 {
            if g.get(x, y) {
                live += 1;
            }
        }
    }
    assert!(live <= 200 * 200);
}
