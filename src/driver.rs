//! The simulation driver: seeds the grid, steps it, and reseeds it when it stagnates.
use vstd::prelude::*;

use crate::grid::{next_generation, seeded, GameGrid};

verus! {

/// Where the driver stands: the grid is yet to be seeded, or it runs.
#[derive(Clone, Copy, Debug, PartialEq, Eq, Structural)]
pub enum Phase {
    Seed,
    Run,
}

/// The grid after one tick from `cells` in `phase`, drawing on `random` when it seeds.
pub open spec fn tick_result(
    phase: Phase,
    cells: Seq<bool>,
    width: int,
    height: int,
    random: Seq<u8>,
    seed_threshold: u8,
    reseed_threshold: u8,
) -> Seq<bool> {
    match phase {
        Phase::Seed => seeded(random, seed_threshold),
        Phase::Run => {
            let next = next_generation(cells, width, height);
            if next != cells {
                next
            } else {
                seeded(random, reseed_threshold)
            }
        },
    }
}

/// Owns the grid and decides, tick by tick, what becomes of it.
pub struct SimulationDriver {
    grid: GameGrid,
    phase: Phase,
    seed_threshold: u8,
    reseed_threshold: u8,
}

impl SimulationDriver {
    /// The grid the driver owns.
    pub closed spec fn spec_grid(&self) -> GameGrid {
        self.grid
    }

    /// The current phase.
    pub closed spec fn spec_phase(&self) -> Phase {
        self.phase
    }

    /// Threshold of the first seeding.
    pub closed spec fn spec_seed_threshold(&self) -> u8 {
        self.seed_threshold
    }

    /// Threshold of a reseeding after stagnation.
    pub closed spec fn spec_reseed_threshold(&self) -> u8 {
        self.reseed_threshold
    }

    /// The owned grid is well formed.
    pub open spec fn wf(&self) -> bool {
        self.spec_grid().wf()
    }

    /// A driver that will seed `grid` at its first tick. A cell is seeded alive
    /// when its random byte is below `seed_threshold`, reseeded alive when below
    /// `reseed_threshold`.
    pub fn new(grid: GameGrid, seed_threshold: u8, reseed_threshold: u8) -> (r: Self)
        requires
            grid.wf(),
        ensures
            r.wf(),
            r.spec_grid() == grid,
            r.spec_phase() == Phase::Seed,
            r.spec_seed_threshold() == seed_threshold,
            r.spec_reseed_threshold() == reseed_threshold,
    {
        SimulationDriver { grid, phase: Phase::Seed, seed_threshold, reseed_threshold }
    }

    /// The grid the driver owns.
    pub fn grid(&self) -> (g: &GameGrid)
        ensures
            *g == self.spec_grid(),
    {
        &self.grid
    }

    /// Number of random bytes a tick may draw on: one per cell.
    pub fn cell_count(&self) -> (n: usize)
        ensures
            n == self.spec_grid()@.len(),
    {
        self.grid.cell_count()
    }

    /// One tick. In the seed phase the grid is seeded and the driver starts running.
    /// While running, the grid steps; if the step changed nothing, the grid is
    /// reseeded instead. Returns the snapshot to publish.
    pub fn tick(&mut self, random: &[u8]) -> (snapshot: Vec<bool>)
        requires
            old(self).wf(),
            random@.len() == old(self).spec_grid()@.len(),
        ensures
            final(self).wf(),
            final(self).spec_phase() == Phase::Run,
            final(self).spec_seed_threshold() == old(self).spec_seed_threshold(),
            final(self).spec_reseed_threshold() == old(self).spec_reseed_threshold(),
            final(self).spec_grid().spec_width() == old(self).spec_grid().spec_width(),
            final(self).spec_grid().spec_height() == old(self).spec_grid().spec_height(),
            final(self).spec_grid()@ == tick_result(
                old(self).spec_phase(),
                old(self).spec_grid()@,
                old(self).spec_grid().spec_width(),
                old(self).spec_grid().spec_height(),
                random@,
                old(self).spec_seed_threshold(),
                old(self).spec_reseed_threshold(),
            ),
            snapshot@ == final(self).spec_grid()@,
    {
        match self.phase {
            Phase::Seed => {
                self.grid.randomize(random, self.seed_threshold);
                self.phase = Phase::Run;
            },
            Phase::Run => {
                let changed = self.grid.update();
                if !changed {
                    self.grid.randomize(random, self.reseed_threshold);
                }
            },
        }
        self.grid.to_bool_array()
    }
}

} // verus!
