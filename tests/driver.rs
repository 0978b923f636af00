use gol_ledstrip::driver::SimulationDriver;
use gol_ledstrip::grid::GameGrid;

#[test]
fn first_tick_seeds_with_seed_threshold() {
    let mut d = SimulationDriver::new(GameGrid::new(3, 3), 128, 10);
    assert_eq!(d.cell_count(), 9);
    let snap = d.tick(&[200, 200, 200, 0, 0, 127, 200, 128, 200]);
    assert_eq!(
        snap,
        vec![false, false, false, true, true, true, false, false, false]
    );
}

#[test]
fn running_tick_steps_the_grid() {
    let mut d = SimulationDriver::new(GameGrid::new(3, 3), 128, 10);
    d.tick(&[200, 200, 200, 0, 0, 0, 200, 200, 200]);
    // the horizontal blinker turns vertical; the random bytes are not used
    let snap = d.tick(&[0; 9]);
    assert_eq!(
        snap,
        vec![false, true, false, false, true, false, false, true, false]
    );
    assert_eq!(d.grid().to_bool_array(), snap);
}

#[test]
fn stagnant_grid_is_reseeded_with_reseed_threshold() {
    let mut d = SimulationDriver::new(GameGrid::new(3, 3), 128, 10);
    let snap = d.tick(&[200; 9]);
    assert_eq!(snap, vec![false; 9]);
    let snap = d.tick(&[5, 50, 9, 10, 0, 11, 200, 3, 10]);
    assert_eq!(
        snap,
        vec![true, false, true, false, true, false, false, true, false]
    );
}
