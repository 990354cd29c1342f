use toroidal_life::grid::GridState;
use toroidal_life::rules::next_state;

/// Collects the whole grid as a vector of rows, for comparisons.
fn snapshot(g: &GridState) -> Vec<Vec<bool>> {
    let n = g.size();
    let mut rows = Vec::new();
    for r in 0..n {
        let mut row = Vec::new();
        for c in 0..n {
            row.push(g.cell_at(r, c));
        }
        rows.push(row);
    }
    rows
}

fn count_live(g: &GridState) -> usize {
    let n = g.size();
    let mut live = 0;
    for r in 0..n {
        for c in 0..n {
            if g.cell_at(r, c) {
                live += 1;
            }
        }
    }
    live
}

#[test]
fn rule_table() {
    // Live cell: survives exactly on 2 or 3 live neighbors.
    for count in 0..=8u8 {
        let expected = count == 2 || count == 3;
        assert_eq!(next_state(true, count), expected);
    }
    // Dead cell: becomes alive exactly on 3 live neighbors.
    for count in 0..=8u8 {
        let expected = count == 3;
        assert_eq!(next_state(false, count), expected);
    }
}

#[test]
fn wraparound_corner_neighbors() {
    let n = 5;
    for &(r, c) in &[(n - 1, n - 1), (n - 1, 0), (0, n - 1)] {
        let mut g = GridState::new(n);
        g.set_cell(r, c, true);
        assert_eq!(g.count_live_neighbors(0, 0), 1);
    }
    let mut g = GridState::new(n);
    g.set_cell(n - 1, n - 1, true);
    g.set_cell(n - 1, 0, true);
    g.set_cell(0, n - 1, true);
    assert_eq!(g.count_live_neighbors(0, 0), 3);
}

#[test]
fn cell_does_not_count_itself() {
    let mut g = GridState::new(5);
    g.set_cell(2, 2, true);
    assert_eq!(g.count_live_neighbors(2, 2), 0);
}

#[test]
fn neighbor_count_in_the_open() {
    let mut g = GridState::new(5);
    g.set_cell(1, 1, true);
    g.set_cell(1, 2, true);
    g.set_cell(3, 3, true);
    assert_eq!(g.count_live_neighbors(2, 2), 3);
    assert_eq!(g.count_live_neighbors(0, 0), 1);
    assert_eq!(g.count_live_neighbors(4, 4), 1);
}

#[test]
fn blinker_oscillates() {
    // A horizontal 3-cell blinker must turn vertical, then horizontal again:
    // the step may read only the old generation.
    let mut g = GridState::new(5);
    g.set_cell(2, 1, true);
    g.set_cell(2, 2, true);
    g.set_cell(2, 3, true);
    let horizontal = snapshot(&g);

    g.step();
    for r in 0..5 {
        for c in 0..5 {
            let expected = c == 2 && (1..=3).contains(&r);
            assert_eq!(g.cell_at(r, c), expected);
        }
    }

    g.step();
    assert_eq!(snapshot(&g), horizontal);
}

#[test]
fn block_still_life() {
    let mut g = GridState::new(6);
    g.set_cell(2, 2, true);
    g.set_cell(2, 3, true);
    g.set_cell(3, 2, true);
    g.set_cell(3, 3, true);
    let before = snapshot(&g);
    g.step();
    assert_eq!(snapshot(&g), before);
    g.step();
    assert_eq!(snapshot(&g), before);
}

#[test]
fn block_still_life_across_the_edge_rows() {
    // A block touching the last row and column is still a still life on the
    // torus: its wrapped neighbors are all dead.
    let n = 6;
    let mut g = GridState::new(n);
    g.set_cell(n - 2, n - 2, true);
    g.set_cell(n - 2, n - 1, true);
    g.set_cell(n - 1, n - 2, true);
    g.set_cell(n - 1, n - 1, true);
    let before = snapshot(&g);
    g.step();
    assert_eq!(snapshot(&g), before);
}

#[test]
fn new_grid_is_all_dead() {
    let g = GridState::new(10);
    assert_eq!(g.size(), 10);
    assert_eq!(count_live(&g), 0);
}

#[test]
fn clear_kills_every_cell() {
    let mut g = GridState::new(8);
    g.set_cell(0, 0, true);
    g.set_cell(3, 5, true);
    g.set_cell(7, 7, true);
    g.clear();
    for r in 0..8 {
        for c in 0..8 {
            assert!(!g.cell_at(r, c));
        }
    }
}

#[test]
fn clear_twice_matches_clear_once() {
    let mut g = GridState::new(8);
    g.set_cell(1, 2, true);
    g.set_cell(6, 4, true);
    g.clear();
    let once = snapshot(&g);
    g.clear();
    assert_eq!(snapshot(&g), once);
}

#[test]
fn randomize_fraction_near_one_over_denominator() {
    // Statistical: on a cleared 200x200 grid with denominator 6, the live
    // fraction should be near 1/6 (about 0.167); the bounds are far wider
    // than the sampling noise.
    let mut g = GridState::new(200);
    g.randomize(6);
    let fraction = count_live(&g) as f64 / (200.0 * 200.0);
    assert!(fraction > 0.10 && fraction < 0.24, "live fraction {}", fraction);
}

#[test]
fn randomize_never_kills_a_live_cell() {
    let mut g = GridState::new(20);
    g.set_cell(4, 4, true);
    g.set_cell(0, 19, true);
    g.randomize(200);
    assert!(g.cell_at(4, 4));
    assert!(g.cell_at(0, 19));
}

#[test]
fn randomize_with_denominator_one_fills_the_grid() {
    // Every byte is divisible by 1, so every cell spawns.
    let mut g = GridState::new(12);
    g.randomize(1);
    assert_eq!(count_live(&g), 12 * 12);
}

#[test]
fn lone_cell_on_tiny_grid_dies() {
    // On a 1x1 torus the cell's eight wrapped neighbors are all the cell
    // itself: a live cell sees count 8 and dies.
    let mut g = GridState::new(1);
    g.set_cell(0, 0, true);
    assert_eq!(g.count_live_neighbors(0, 0), 8);
    g.step();
    assert!(!g.cell_at(0, 0));
}
