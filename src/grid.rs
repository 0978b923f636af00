//! The bounded Game of Life grid.
use vstd::prelude::*;

use crate::hash::{hash_array, hash_fold};

verus! {

/// Number of columns of the installation's grid.
pub const WIDTH: usize = 17;

/// Number of rows of the installation's grid.
pub const HEIGHT: usize = 8;

/// Whether the cell at column `x`, row `y` of a row-major grid is alive.
/// Coordinates outside the grid denote dead cells.
pub open spec fn alive_at(cells: Seq<bool>, width: int, height: int, x: int, y: int) -> bool {
    0 <= x < width && 0 <= y < height && cells[y * width + x]
}

/// One for a live cell, zero otherwise.
pub open spec fn count_of(alive: bool) -> nat {
    if alive {
        1
    } else {
        0
    }
}

/// Number of live cells among the eight neighbours of `(x, y)`, without wrapping at the edges.
pub open spec fn neighbor_count(cells: Seq<bool>, width: int, height: int, x: int, y: int) -> nat {
    count_of(alive_at(cells, width, height, x - 1, y - 1))
        + count_of(alive_at(cells, width, height, x, y - 1))
        + count_of(alive_at(cells, width, height, x + 1, y - 1))
        + count_of(alive_at(cells, width, height, x - 1, y))
        + count_of(alive_at(cells, width, height, x + 1, y))
        + count_of(alive_at(cells, width, height, x - 1, y + 1))
        + count_of(alive_at(cells, width, height, x, y + 1))
        + count_of(alive_at(cells, width, height, x + 1, y + 1))
}

/// The rule of life: a live cell survives with two or three live neighbours,
/// a dead cell is born with exactly three, every other cell is dead.
pub open spec fn next_state(alive: bool, neighbors: nat) -> bool {
    if alive {
        neighbors == 2 || neighbors == 3
    } else {
        neighbors == 3
    }
}

/// The generation that follows `cells`, every cell judged on the old generation only.
pub open spec fn next_generation(cells: Seq<bool>, width: int, height: int) -> Seq<bool> {
    Seq::new(
        cells.len(),
        |i: int| next_state(cells[i], neighbor_count(cells, width, height, i % width, i / width)),
    )
}

/// A grid of the given size with every cell dead.
pub open spec fn all_dead(n: nat) -> Seq<bool> {
    Seq::new(n, |i: int| false)
}

/// A grid of the given size with every cell alive.
pub open spec fn all_alive(n: nat) -> Seq<bool> {
    Seq::new(n, |i: int| true)
}

/// The grid reached from `cells` after `steps` generations.
pub open spec fn generations(cells: Seq<bool>, width: int, height: int, steps: nat) -> Seq<bool>
    decreases steps,
{
    if steps == 0 {
        cells
    } else {
        next_generation(generations(cells, width, height, (steps - 1) as nat), width, height)
    }
}

/// The cells that random bytes seed: a cell is alive iff its byte is below `threshold`.
pub open spec fn seeded(random: Seq<u8>, threshold: u8) -> Seq<bool> {
    Seq::new(random.len(), |i: int| random[i] < threshold)
}

/// A cell as a digit: 1 for alive, 0 for dead.
pub open spec fn digit_of(alive: bool) -> u8 {
    if alive {
        1
    } else {
        0
    }
}

/// The cells as a sequence of 0/1 digits.
pub open spec fn digits(cells: Seq<bool>) -> Seq<u8> {
    Seq::new(cells.len(), |i: int| digit_of(cells[i]))
}

/// Row-major position of `(x, y)`, and its inverse.
pub proof fn lemma_cell_index(width: int, height: int, x: int, y: int)
    requires
        0 <= x < width,
        0 <= y < height,
    ensures
        0 <= y * width + x < width * height,
        (y * width + x) % width == x,
        (y * width + x) / width == y,
{
    assert(0 <= y * width) by (nonlinear_arith)
        requires
            0 <= y,
            0 < width,
    ;
    assert(y * width + x < width * height) by (nonlinear_arith)
        requires
            0 <= x < width,
            0 <= y < height,
    ;
    vstd::arithmetic::div_mod::lemma_fundamental_div_mod_converse(y * width + x, width, y, x);
}

/// Neighbour counting reads only cells inside the grid: two grids that agree on
/// every cell of the `width * height` area give every cell the same count, and
/// no count exceeds eight.
pub proof fn lemma_neighbors_read_inside(
    a: Seq<bool>,
    b: Seq<bool>,
    width: int,
    height: int,
    x: int,
    y: int,
)
    requires
        forall|i: int| 0 <= i < width * height ==> a[i] == b[i],
    ensures
        neighbor_count(a, width, height, x, y) == neighbor_count(b, width, height, x, y),
        neighbor_count(a, width, height, x, y) <= 8,
{
    assert forall|u: int, v: int|
        alive_at(a, width, height, u, v) == alive_at(b, width, height, u, v) by {
        if 0 <= u < width && 0 <= v < height {
            lemma_cell_index(width, height, u, v);
        }
    }
}

/// The rule of life, cell by cell: after a step, the cell at `(x, y)` is alive iff
/// it was alive with two or three live neighbours, or dead with exactly three.
pub proof fn lemma_step_rule(cells: Seq<bool>, width: int, height: int, x: int, y: int)
    requires
        cells.len() == width * height,
        0 <= x < width,
        0 <= y < height,
    ensures
        ({
            let n = neighbor_count(cells, width, height, x, y);
            let before = cells[y * width + x];
            let after = next_generation(cells, width, height)[y * width + x];
            &&& before && (n == 2 || n == 3) ==> after
            &&& before && n < 2 ==> !after
            &&& before && n > 3 ==> !after
            &&& !before && n == 3 ==> after
            &&& !before && n != 3 ==> !after
        }),
{
    lemma_cell_index(width, height, x, y);
}

/// A step on an all-dead grid leaves it all dead.
pub proof fn lemma_dead_grid_stays_dead(width: int, height: int)
    requires
        0 <= width,
        0 <= height,
    ensures
        next_generation(all_dead((width * height) as nat), width, height) == all_dead(
            (width * height) as nat,
        ),
{
    let dead = all_dead((width * height) as nat);
    assert forall|u: int, v: int| !alive_at(dead, width, height, u, v) by {
        if 0 <= u < width && 0 <= v < height {
            lemma_cell_index(width, height, u, v);
        }
    }
    assert(next_generation(dead, width, height) =~= dead);
}

/// An all-dead grid stays all dead for any number of steps, and each step leaves
/// it unchanged.
pub proof fn lemma_dead_grid_stays_dead_forever(width: int, height: int, steps: nat)
    requires
        0 <= width,
        0 <= height,
    ensures
        generations(all_dead((width * height) as nat), width, height, steps) == all_dead(
            (width * height) as nat,
        ),
        next_generation(
            generations(all_dead((width * height) as nat), width, height, steps),
            width,
            height,
        ) == generations(all_dead((width * height) as nat), width, height, steps),
    decreases steps,
{
    lemma_dead_grid_stays_dead(width, height);
    if steps > 0 {
        lemma_dead_grid_stays_dead_forever(width, height, (steps - 1) as nat);
    }
}

/// Seeding with threshold zero kills every cell; seeding with threshold 255 makes
/// every cell alive whose byte is below 255.
pub proof fn lemma_seeded_extremes(random: Seq<u8>)
    ensures
        seeded(random, 0) == all_dead(random.len()),
        (forall|i: int| 0 <= i < random.len() ==> random[i] < 255) ==> seeded(random, 255)
            == all_alive(random.len()),
{
    assert(seeded(random, 0) =~= all_dead(random.len()));
    if forall|i: int| 0 <= i < random.len() ==> random[i] < 255 {
        assert(seeded(random, 255) =~= all_alive(random.len()));
    }
}

/// A Game of Life grid of fixed size, stored in row-major order.
pub struct GameGrid {
    width: usize,
    height: usize,
    cells: Vec<bool>,
}

impl View for GameGrid {
    type V = Seq<bool>;

    closed spec fn view(&self) -> Seq<bool> {
        self.cells@
    }
}

impl GameGrid {
    /// Number of columns.
    pub closed spec fn spec_width(&self) -> int {
        self.width as int
    }

    /// Number of rows.
    pub closed spec fn spec_height(&self) -> int {
        self.height as int
    }

    /// The grid holds exactly one cell per column and row.
    pub open spec fn wf(&self) -> bool {
        self@.len() == self.spec_width() * self.spec_height()
    }

    /// A grid of `width` columns and `height` rows, every cell dead.
    pub fn new(width: usize, height: usize) -> (r: Self)
        requires
            width * height <= usize::MAX,
        ensures
            r.wf(),
            r.spec_width() == width,
            r.spec_height() == height,
            r@ == all_dead((width * height) as nat),
    {
        let n: usize = width * height;
        let cells: Vec<bool> = vec![false; n];
        let r = GameGrid { width, height, cells };
        assert(r@ =~= all_dead(n as nat));
        r
    }

    /// A grid of `width` columns and `height` rows holding `cells` in row-major order,
    /// or `None` when the number of cells is not `width * height`.
    pub fn from_cells(width: usize, height: usize, cells: Vec<bool>) -> (r: Option<Self>)
        ensures
            r.is_some() <==> cells@.len() == width * height,
            r matches Some(g) ==> g.wf() && g.spec_width() == width && g.spec_height() == height
                && g@ == cells@,
    {
        let len = cells.len();
        match width.checked_mul(height) {
            Some(n) => {
                if len == n {
                    Some(GameGrid { width, height, cells })
                } else {
                    None
                }
            },
            None => None,
        }
    }

    /// Number of columns.
    pub fn width(&self) -> (r: usize)
        ensures
            r == self.spec_width(),
    {
        self.width
    }

    /// Number of rows.
    pub fn height(&self) -> (r: usize)
        ensures
            r == self.spec_height(),
    {
        self.height
    }

    /// Number of cells.
    pub fn cell_count(&self) -> (r: usize)
        ensures
            r == self@.len(),
    {
        self.cells.len()
    }

    /// The cells in row-major order.
    pub fn to_bool_array(&self) -> (r: Vec<bool>)
        ensures
            r@ == self@,
    {
        self.cells.clone()
    }

    /// Sets every cell from one random byte: the cell at index `i` becomes
    /// alive iff `random[i] < threshold`.
    pub fn randomize(&mut self, random: &[u8], threshold: u8)
        requires
            old(self).wf(),
            random@.len() == old(self)@.len(),
        ensures
            final(self).wf(),
            final(self).spec_width() == old(self).spec_width(),
            final(self).spec_height() == old(self).spec_height(),
            final(self)@ == seeded(random@, threshold),
    {
        let n = random.len();
        let mut cells: Vec<bool> = Vec::with_capacity(n);
        let mut i: usize = 0;
        while i < n
            invariant
                n == random@.len(),
                i <= n,
                cells@ =~= seeded(random@, threshold).subrange(0, i as int),
            decreases n - i,
        {
            cells.push(random[i] < threshold);
            i = i + 1;
        }
        assert(cells@ =~= seeded(random@, threshold));
        self.cells = cells;
    }

    /// The cells as 0/1 digits, in row-major order.
    pub fn cell_digits(&self) -> (r: Vec<u8>)
        ensures
            r@ == digits(self@),
    {
        let n = self.cells.len();
        let mut r: Vec<u8> = Vec::with_capacity(n);
        let mut i: usize = 0;
        while i < n
            invariant
                n == self@.len(),
                i <= n,
                r@ =~= digits(self@).subrange(0, i as int),
            decreases n - i,
        {
            r.push(if self.cells[i] { 1 } else { 0 });
            i = i + 1;
        }
        assert(r@ =~= digits(self@));
        r
    }

    /// Order-sensitive fingerprint of the grid: the rolling hash of its 0/1 digits.
    pub fn get_hash(&self) -> (r: u64)
        ensures
            r == hash_fold(0, digits(self@)),
    {
        let bytes = self.cell_digits();
        hash_array(bytes.as_slice())
    }

    /// The number of live neighbours of every cell, in row-major order.
    pub fn neighbor_counts(&self) -> (r: Vec<u8>)
        requires
            self.wf(),
        ensures
            r@.len() == self@.len(),
            forall|x: int, y: int|
                0 <= x < self.spec_width() && 0 <= y < self.spec_height() ==> r@[y
                    * self.spec_width() + x] == neighbor_count(
                    self@,
                    self.spec_width(),
                    self.spec_height(),
                    x,
                    y,
                ),
    {
        let n = self.cells.len();
        let mut r: Vec<u8> = Vec::with_capacity(n);
        let mut x: usize = 0;
        let mut y: usize = 0;
        assert(self.width == 0 ==> n == 0) by (nonlinear_arith)
            requires
                n == self.width * self.height,
        ;
        while r.len() < n
            invariant
                self.wf(),
                n == self@.len(),
                r@.len() <= n,
                r@.len() == y * self.width + x,
                x < self.width || r@.len() == n,
                forall|j: int|
                    0 <= j < r@.len() ==> r@[j] == neighbor_count(
                        self@,
                        self.spec_width(),
                        self.spec_height(),
                        j % self.spec_width(),
                        j / self.spec_width(),
                    ),
            decreases n - r@.len(),
        {
            assert(y < self.height) by (nonlinear_arith)
                requires
                    y * self.width + x < self.width * self.height,
                    x < self.width,
            ;
            proof {
                lemma_cell_index(self.spec_width(), self.spec_height(), x as int, y as int);
            }
            let count = self.count_alive_neighbors(x, y);
            r.push(count);
            x = x + 1;
            if x == self.width {
                x = 0;
                y = y + 1;
                assert(r@.len() == y * self.width) by (nonlinear_arith)
                    requires
                        r@.len() == (y - 1) * self.width + self.width,
                ;
            }
        }
        assert forall|x: int, y: int|
            0 <= x < self.spec_width() && 0 <= y < self.spec_height() implies r@[y
                * self.spec_width() + x] == neighbor_count(
                self@,
                self.spec_width(),
                self.spec_height(),
                x,
                y,
            ) by {
            lemma_cell_index(self.spec_width(), self.spec_height(), x, y);
        }
        r
    }

    /// Whether the neighbour at offset `(dx - 1, dy - 1)` from `(x, y)` is alive.
    /// Every candidate coordinate is range-checked before the cell is read.
    fn neighbor_alive(&self, x: usize, y: usize, dx: usize, dy: usize) -> (r: bool)
        requires
            self.wf(),
            x < self.spec_width(),
            y < self.spec_height(),
            dx <= 2,
            dy <= 2,
        ensures
            r == alive_at(self@, self.spec_width(), self.spec_height(), x + dx - 1, y + dy - 1),
    {
        let in_columns = if dx == 0 {
            x > 0
        } else if dx == 1 {
            true
        } else {
            x + 1 < self.width
        };
        let in_rows = if dy == 0 {
            y > 0
        } else if dy == 1 {
            true
        } else {
            y + 1 < self.height
        };
        if in_columns && in_rows {
            let nx: usize = x + dx - 1;
            let ny: usize = y + dy - 1;
            proof {
                lemma_cell_index(self.spec_width(), self.spec_height(), nx as int, ny as int);
            }
            let n = self.cells.len();
            assert(ny * self.width + nx < n);
            self.cells[ny * self.width + nx]
        } else {
            false
        }
    }

    /// Number of live neighbours of the cell at `(x, y)`.
    pub fn count_alive_neighbors(&self, x: usize, y: usize) -> (r: u8)
        requires
            self.wf(),
            x < self.spec_width(),
            y < self.spec_height(),
        ensures
            r == neighbor_count(self@, self.spec_width(), self.spec_height(), x as int, y as int),
    {
        let mut count: u8 = 0;
        if self.neighbor_alive(x, y, 0, 0) {
            count = count + 1;
        }
        if self.neighbor_alive(x, y, 1, 0) {
            count = count + 1;
        }
        if self.neighbor_alive(x, y, 2, 0) {
            count = count + 1;
        }
        if self.neighbor_alive(x, y, 0, 1) {
            count = count + 1;
        }
        if self.neighbor_alive(x, y, 2, 1) {
            count = count + 1;
        }
        if self.neighbor_alive(x, y, 0, 2) {
            count = count + 1;
        }
        if self.neighbor_alive(x, y, 1, 2) {
            count = count + 1;
        }
        if self.neighbor_alive(x, y, 2, 2) {
            count = count + 1;
        }
        count
    }

    /// The generation that follows this one, computed into a fresh buffer.
    fn next_cells(&self) -> (r: Vec<bool>)
        requires
            self.wf(),
        ensures
            r@ == next_generation(self@, self.spec_width(), self.spec_height()),
    {
        let n = self.cells.len();
        let ghost next_gen = next_generation(self@, self.spec_width(), self.spec_height());
        let mut next: Vec<bool> = Vec::with_capacity(n);
        let mut x: usize = 0;
        let mut y: usize = 0;
        let mut i: usize = 0;
        while i < n
            invariant
                self.wf(),
                n == self@.len(),
                next_gen == next_generation(self@, self.spec_width(), self.spec_height()),
                i <= n,
                next@.len() == i,
                i == y * self.width + x,
                x < self.width || i == n,
                forall|j: int| 0 <= j < i ==> next@[j] == next_gen[j],
            decreases n - i,
        {
            assert(y < self.height) by (nonlinear_arith)
                requires
                    y * self.width + x < self.width * self.height,
                    x < self.width,
            ;
            proof {
                lemma_cell_index(self.spec_width(), self.spec_height(), x as int, y as int);
            }
            let neighbors = self.count_alive_neighbors(x, y);
            let alive = self.cells[i];
            let next_alive = if alive {
                neighbors == 2 || neighbors == 3
            } else {
                neighbors == 3
            };
            assert(next_gen[i as int] == next_alive);
            next.push(next_alive);
            i = i + 1;
            x = x + 1;
            if x == self.width {
                x = 0;
                y = y + 1;
                assert(i == y * self.width) by (nonlinear_arith)
                    requires
                        i == (y - 1) * self.width + self.width,
                ;
            }
        }
        assert(next@ =~= next_gen);
        next
    }

    /// Replaces the grid by its next generation.
    /// Returns whether any cell changed.
    pub fn update(&mut self) -> (changed: bool)
        requires
            old(self).wf(),
        ensures
            final(self).wf(),
            final(self).spec_width() == old(self).spec_width(),
            final(self).spec_height() == old(self).spec_height(),
            final(self)@ == next_generation(
                old(self)@,
                old(self).spec_width(),
                old(self).spec_height(),
            ),
            changed == (final(self)@ != old(self)@),
    {
        let next = self.next_cells();
        let changed = differ(&next, &self.cells);
        self.cells = next;
        changed
    }
}

impl Default for GameGrid {
    /// The installation's grid, every cell dead.
    fn default() -> (r: Self)
        ensures
            r.wf(),
            r.spec_width() == WIDTH,
            r.spec_height() == HEIGHT,
            r@ == all_dead((WIDTH * HEIGHT) as nat),
    {
        GameGrid::new(WIDTH, HEIGHT)
    }
}

/// Whether two equally long sequences of cells differ in some position.
fn differ(a: &Vec<bool>, b: &Vec<bool>) -> (r: bool)
    requires
        a@.len() == b@.len(),
    ensures
        r == (a@ != b@),
{
    let mut i: usize = 0;
    while i < a.len()
        invariant
            a@.len() == b@.len(),
            i <= a@.len(),
            forall|j: int| 0 <= j < i ==> a@[j] == b@[j],
        decreases a@.len() - i,
    {
        if a[i] != b[i] {
            return true;
        }
        i = i + 1;
    }
    assert(a@ =~= b@);
    false
}

} // verus!
