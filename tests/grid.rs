use gol_ledstrip::grid::{GameGrid, HEIGHT, WIDTH};
use gol_ledstrip::hash::{hash_array, ArrayHasher};

fn grid3(cells: [u8; 9]) -> GameGrid {
    GameGrid::from_cells(3, 3, cells.iter().map(|&c| c == 1).collect()).unwrap()
}

#[test]
fn dead_grid_step_stays_dead() {
    let mut g = GameGrid::default();
    assert!(!g.update());
    assert!(g.to_bool_array().iter().all(|&c| !c));
    assert_eq!(g.to_bool_array().len(), WIDTH * HEIGHT);
}

#[test]
fn rule_for_every_neighbor_count_and_state() {
    // the eight neighbours of the centre of a 3x3 grid, in row-major order
    let around = [0usize, 1, 2, 3, 5, 6, 7, 8];
    for centre_alive in [false, true] {
        for n in 0..=8usize {
            let mut cells = vec![false; 9];
            cells[4] = centre_alive;
            for &i in around.iter().take(n) {
                cells[i] = true;
            }
            let mut g = GameGrid::from_cells(3, 3, cells).unwrap();
            assert_eq!(g.count_alive_neighbors(1, 1) as usize, n);
            g.update();
            let expected = if centre_alive { n == 2 || n == 3 } else { n == 3 };
            assert_eq!(g.to_bool_array()[4], expected, "alive={} n={}", centre_alive, n);
        }
    }
}

#[test]
fn boundary_counts_on_full_three_by_three() {
    let g = grid3([1; 9]);
    assert_eq!(g.neighbor_counts(), vec![3, 5, 3, 5, 8, 5, 3, 5, 3]);
    assert_eq!(g.count_alive_neighbors(0, 0), 3);
    assert_eq!(g.count_alive_neighbors(2, 2), 3);
    assert_eq!(g.count_alive_neighbors(1, 0), 5);
}

#[test]
fn boundary_counts_on_full_installation_grid() {
    let g = GameGrid::from_cells(WIDTH, HEIGHT, vec![true; WIDTH * HEIGHT]).unwrap();
    let counts = g.neighbor_counts();
    for y in 0..HEIGHT {
        for x in 0..WIDTH {
            let on_x_edge = x == 0 || x == WIDTH - 1;
            let on_y_edge = y == 0 || y == HEIGHT - 1;
            let expected = match (on_x_edge, on_y_edge) {
                (true, true) => 3,
                (true, false) | (false, true) => 5,
                (false, false) => 8,
            };
            assert_eq!(counts[y * WIDTH + x], expected, "x={} y={}", x, y);
            assert_eq!(g.count_alive_neighbors(x, y), expected);
        }
    }
}

#[test]
fn randomize_threshold_zero_kills_all() {
    let mut g = GameGrid::new(3, 3);
    g.randomize(&[0, 1, 2, 100, 200, 254, 255, 7, 0], 0);
    assert_eq!(g.to_bool_array(), vec![false; 9]);
}

#[test]
fn randomize_full_threshold_makes_all_alive() {
    let mut g = GameGrid::new(3, 3);
    g.randomize(&[0, 1, 2, 100, 200, 254, 3, 7, 0], 255);
    assert_eq!(g.to_bool_array(), vec![true; 9]);
}

#[test]
fn randomize_compares_each_byte() {
    let mut g = GameGrid::new(3, 3);
    g.randomize(&[10, 107, 106, 200, 0, 108, 50, 255, 99], 107);
    assert_eq!(
        g.cell_digits(),
        vec![1, 0, 1, 0, 1, 0, 1, 0, 1]
    );
}

#[test]
fn update_reports_change_iff_cells_differ() {
    // a blinker oscillates
    let mut blinker = GameGrid::from_cells(
        5,
        5,
        (0..25).map(|i| i == 11 || i == 12 || i == 13).collect(),
    )
    .unwrap();
    assert!(blinker.update());
    let vertical: Vec<bool> = (0..25).map(|i| i == 7 || i == 12 || i == 17).collect();
    assert_eq!(blinker.to_bool_array(), vertical);
    // a block is a still life
    let mut block = GameGrid::from_cells(4, 4, (0..16).map(|i| [5, 6, 9, 10].contains(&i)).collect())
        .unwrap();
    let before = block.to_bool_array();
    assert!(!block.update());
    assert_eq!(block.to_bool_array(), before);
}

#[test]
fn lone_centre_cell_dies() {
    let mut g = grid3([0, 0, 0, 0, 1, 0, 0, 0, 0]);
    assert!(g.update());
    assert_eq!(g.to_bool_array(), vec![false; 9]);
}

#[test]
fn dead_three_by_three_stays_dead() {
    let mut g = GameGrid::new(3, 3);
    for _ in 0..20 {
        assert!(!g.update());
        assert_eq!(g.to_bool_array(), vec![false; 9]);
    }
}

#[test]
fn from_cells_rejects_wrong_length() {
    assert!(GameGrid::from_cells(3, 3, vec![false; 8]).is_none());
    assert!(GameGrid::from_cells(3, 3, vec![false; 10]).is_none());
    assert!(GameGrid::from_cells(usize::MAX, 2, vec![false; 2]).is_none());
    let g = GameGrid::from_cells(2, 3, vec![false; 6]).unwrap();
    assert_eq!((g.width(), g.height()), (2, 3));
}

#[test]
fn hash_is_rolling_and_order_sensitive() {
    assert_eq!(hash_array(&[]), 0);
    assert_eq!(hash_array(&[1, 0, 1]), 962);
    assert_eq!(hash_array(&[1, 1, 0]), 992);
    let mut h = ArrayHasher::new();
    h.write(&[1, 0]);
    h.write(&[1]);
    assert_eq!(h.finish(), 962);
    let g = grid3([1, 0, 1, 0, 0, 0, 0, 0, 0]);
    assert_eq!(g.get_hash(), 962 * 31u64.pow(6));
}

#[test]
fn hash_wraps_at_64_bits() {
    let long = vec![255u8; 40];
    let mut expected: u64 = 0;
    for b in &long {
        expected = expected.wrapping_mul(31).wrapping_add(*b as u64);
    }
    assert_eq!(hash_array(&long), expected);
}
