use life_grid::grid::{GridError, Universe};

/// A grid of the given dimensions with every cell dead and nothing pending.
fn empty_grid(width: u32, height: u32) -> Universe {
    let mut u = Universe::new(width, height).unwrap();
    u.set_size(width, height).unwrap();
    u
}

fn alive(u: &Universe, row: u32, col: u32) -> bool {
    u.get_cells().contains((row * u.width() + col) as usize)
}

#[test]
fn dimension_invariant_after_new() {
    let u = Universe::new(7, 5).unwrap();
    assert_eq!(u.width(), 7);
    assert_eq!(u.height(), 5);
    assert_eq!(u.get_cells().len(), 35);
    assert_eq!(u.cells().len(), 2);
}

#[test]
fn dimension_invariant_after_resize() {
    let mut u = Universe::new(7, 5).unwrap();
    u.set_size(3, 4).unwrap();
    assert_eq!(u.width(), 3);
    assert_eq!(u.height(), 4);
    assert_eq!(u.get_cells().len(), 12);
    assert_eq!(u.cells().len(), 1);
}

#[test]
fn neighbour_count_in_range() {
    let u = Universe::new(6, 6).unwrap();
    for row in 0..6 {
        for col in 0..6 {
            assert!(u.live_neighbours(row, col) <= 8);
        }
    }
}

#[test]
fn toroidal_wraparound_corner() {
    let mut u = empty_grid(4, 4);
    u.toggle_cell(0, 0).unwrap();
    u.tick();
    assert!(alive(&u, 0, 0));
    // the opposite corner sees the toggled cell as a diagonal neighbour
    assert_eq!(u.live_neighbours(3, 3), 1);
    assert_eq!(u.live_neighbours(1, 1), 1);
    assert_eq!(u.live_neighbours(0, 3), 1);
    assert_eq!(u.live_neighbours(3, 0), 1);
    assert_eq!(u.live_neighbours(2, 2), 0);
}

#[test]
fn blinker_oscillates() {
    let mut u = empty_grid(5, 5);
    u.toggle_cell(2, 1).unwrap();
    u.toggle_cell(2, 2).unwrap();
    u.toggle_cell(2, 3).unwrap();
    u.tick();
    // horizontal line at row 2, cols 1..=3
    for row in 0..5 {
        for col in 0..5 {
            assert_eq!(alive(&u, row, col), row == 2 && (1..=3).contains(&col));
        }
    }
    u.tick();
    // vertical line at col 2, rows 1..=3
    for row in 0..5 {
        for col in 0..5 {
            assert_eq!(alive(&u, row, col), col == 2 && (1..=3).contains(&row));
        }
    }
    u.tick();
    // back to the horizontal line: a period-two oscillator
    for row in 0..5 {
        for col in 0..5 {
            assert_eq!(alive(&u, row, col), row == 2 && (1..=3).contains(&col));
        }
    }
}

#[test]
fn block_still_life() {
    let mut u = empty_grid(6, 6);
    u.toggle_cell(1, 1).unwrap();
    u.toggle_cell(1, 2).unwrap();
    u.toggle_cell(2, 1).unwrap();
    u.toggle_cell(2, 2).unwrap();
    u.tick();
    for row in 0..6 {
        for col in 0..6 {
            assert_eq!(alive(&u, row, col), (1..=2).contains(&row) && (1..=2).contains(&col));
        }
    }
    u.tick();
    for row in 0..6 {
        for col in 0..6 {
            assert_eq!(alive(&u, row, col), (1..=2).contains(&row) && (1..=2).contains(&col));
        }
    }
}

#[test]
fn toggle_priority_one_generation() {
    let mut u = empty_grid(5, 5);
    assert!(!alive(&u, 0, 0));
    u.toggle_cell(0, 0).unwrap();
    // the rule alone would leave the dead cell dead; the toggle wins
    u.tick();
    assert!(alive(&u, 0, 0));
    // no residual forcing: the lone cell now dies of underpopulation
    u.tick();
    assert!(!alive(&u, 0, 0));
}

#[test]
fn render_idempotent() {
    let u = Universe::new(4, 4).unwrap();
    let first = u.render();
    let second = u.render();
    assert_eq!(first, second);
}

#[test]
fn render_exact_text() {
    let mut u = empty_grid(2, 2);
    u.toggle_cell(0, 0).unwrap();
    u.tick();
    assert_eq!(u.render(), "◼◻\n◻◻\n");
}

#[test]
fn resize_clears_state() {
    let mut u = Universe::new(3, 3).unwrap();
    u.toggle_cell(1, 1).unwrap();
    u.set_size(4, 5).unwrap();
    assert_eq!(u.width(), 4);
    assert_eq!(u.height(), 5);
    for row in 0..5 {
        for col in 0..4 {
            assert!(!alive(&u, row, col));
        }
    }
    // no pending toggle survived the resize: the advance stays all dead
    u.tick();
    for row in 0..5 {
        for col in 0..4 {
            assert!(!alive(&u, row, col));
        }
    }
}

#[test]
fn new_rejects_zero_dimension() {
    match Universe::new(0, 3) {
        Err(e) => assert_eq!(e, GridError::InvalidDimension),
        Ok(_) => panic!("a zero width must be refused"),
    }
    match Universe::new(3, 0) {
        Err(e) => assert_eq!(e, GridError::InvalidDimension),
        Ok(_) => panic!("a zero height must be refused"),
    }
}

#[test]
fn resize_rejects_zero_dimension() {
    let mut u = Universe::new(3, 3).unwrap();
    assert_eq!(u.set_size(0, 2).unwrap_err(), GridError::InvalidDimension);
    assert_eq!(u.set_size(2, 0).unwrap_err(), GridError::InvalidDimension);
    // the failed resize left the grid unchanged
    assert_eq!(u.width(), 3);
    assert_eq!(u.height(), 3);
}

#[test]
fn toggle_rejects_out_of_range() {
    let mut u = empty_grid(3, 3);
    assert_eq!(u.toggle_cell(3, 0).unwrap_err(), GridError::OutOfRange);
    assert_eq!(u.toggle_cell(0, 3).unwrap_err(), GridError::OutOfRange);
    // nothing was staged by the refused calls
    u.tick();
    for row in 0..3 {
        for col in 0..3 {
            assert!(!alive(&u, row, col));
        }
    }
}

#[test]
fn packed_words_layout() {
    let mut u = empty_grid(5, 5);
    u.toggle_cell(0, 0).unwrap();
    u.toggle_cell(0, 2).unwrap();
    u.tick();
    let words = u.cells();
    assert_eq!(words.len(), 1);
    assert_eq!(words[0], 0b101);
}

#[test]
fn single_row_duplicate_counting() {
    // with one row the wrap revisits cells from several offsets, and each
    // offset counts
    let mut u = empty_grid(3, 1);
    u.toggle_cell(0, 0).unwrap();
    u.tick();
    assert!(alive(&u, 0, 0));
    assert_eq!(u.live_neighbours(0, 1), 3);
    assert_eq!(u.live_neighbours(0, 0), 1);
}
