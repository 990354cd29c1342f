//! The automaton's state: a square grid of cells on a torus, with clearing,
//! randomized seeding, single-cell access, and the generation step.

use rand::Rng;
use vstd::prelude::*;

use crate::rules::next_state_spec;

verus! {

/// Relies on rand::thread_rng and rand::Rng::gen::<u8>: draws one byte from
/// the thread-local generator, seeded by the system. Nothing is promised of
/// its value.
#[verifier::external_body]
fn random_byte() -> u8 {
    rand::thread_rng().gen()
}

/// The row or column just before `i` on a torus of side `n`: `i - 1`, wrapping
/// from `0` to `n - 1`.
pub open spec fn wrap_dec(i: int, n: int) -> int {
    if i == 0 {
        n - 1
    } else {
        i - 1
    }
}

/// The row or column just after `i` on a torus of side `n`: `i + 1`, wrapping
/// from `n - 1` to `0`.
pub open spec fn wrap_inc(i: int, n: int) -> int {
    if i + 1 == n {
        0
    } else {
        i + 1
    }
}

/// A dead cell contributes 0 to a neighbor count, a live one 1.
pub open spec fn live_count(alive: bool) -> int {
    if alive {
        1
    } else {
        0
    }
}

/// The number of live cells among the eight neighbors of `(r, c)`, with
/// coordinates wrapped around the grid's edges. The cell itself is not
/// counted, though on very small grids it can appear in its own wrapped
/// neighborhood and is then counted like any other neighbor.
pub open spec fn neighbor_count(g: GridState, r: int, c: int) -> int {
    let n = g.spec_size();
    live_count(g.spec_cell(wrap_dec(r, n), wrap_dec(c, n))) + live_count(
        g.spec_cell(wrap_dec(r, n), c),
    ) + live_count(g.spec_cell(wrap_dec(r, n), wrap_inc(c, n))) + live_count(
        g.spec_cell(r, wrap_dec(c, n)),
    ) + live_count(g.spec_cell(r, wrap_inc(c, n))) + live_count(
        g.spec_cell(wrap_inc(r, n), wrap_dec(c, n)),
    ) + live_count(g.spec_cell(wrap_inc(r, n), c)) + live_count(
        g.spec_cell(wrap_inc(r, n), wrap_inc(c, n)),
    )
}

/// A square grid of live/dead cells with wraparound (toroidal) edges.
/// The dimensions are fixed at construction; every cell is exactly alive
/// (`true`) or dead (`false`).
pub struct GridState {
    cells: Vec<Vec<bool>>,
    size: usize,
}

impl GridState {
    /// The grid's side length.
    pub closed spec fn spec_size(self) -> int {
        self.size as int
    }

    /// Liveness of the cell at row `r`, column `c`.
    pub closed spec fn spec_cell(self, r: int, c: int) -> bool {
        self.cells@[r]@[c]
    }

    /// The grid really is a square matrix of its stated size.
    pub closed spec fn wf(self) -> bool {
        &&& self.cells@.len() == self.size
        &&& forall|r: int| 0 <= r < self.size ==> #[trigger] self.cells@[r]@.len() == self.size
    }

    /// Every cell of the grid is dead.
    pub open spec fn all_dead(self) -> bool {
        forall|r: int, c: int|
            0 <= r < self.spec_size() && 0 <= c < self.spec_size() ==> !self.spec_cell(r, c)
    }

    /// Allocates a `size` x `size` grid with every cell dead.
    pub fn new(size: usize) -> (grid: GridState)
        ensures
            grid.wf(),
            grid.spec_size() == size,
            grid.all_dead(),
    {
        let cells = dead_matrix(size);
        GridState { cells, size }
    }

    /// Sets every cell to dead; the dimensions are unchanged.
    pub fn clear(&mut self)
        requires
            old(self).wf(),
        ensures
            final(self).wf(),
            final(self).spec_size() == old(self).spec_size(),
            final(self).all_dead(),
    {
        self.cells = dead_matrix(self.size);
    }

    /// The side length of the grid.
    pub fn size(&self) -> (n: usize)
        ensures
            n == self.spec_size(),
    {
        self.size
    }

    /// Reads one cell's liveness.
    pub fn cell_at(&self, row: usize, col: usize) -> (alive: bool)
        requires
            self.wf(),
            row < self.spec_size(),
            col < self.spec_size(),
        ensures
            alive == self.spec_cell(row as int, col as int),
    {
        self.cells[row][col]
    }

    /// Counts the live cells among the eight toroidally-wrapped neighbors of
    /// `(row, col)`.
    pub fn count_live_neighbors(&self, row: usize, col: usize) -> (count: u8)
        requires
            self.wf(),
            row < self.spec_size(),
            col < self.spec_size(),
        ensures
            count <= 8,
            count as int == neighbor_count(*self, row as int, col as int),
    {
        let n = self.size;
        let rm = if row == 0 {
            n - 1
        } else {
            row - 1
        };
        let rp = if row + 1 == n {
            0
        } else {
            row + 1
        };
        let cm = if col == 0 {
            n - 1
        } else {
            col - 1
        };
        let cp = if col + 1 == n {
            0
        } else {
            col + 1
        };
        let mut count: u8 = 0;
        if self.cells[rm][cm] {
            count += 1;
        }
        if self.cells[rm][col] {
            count += 1;
        }
        if self.cells[rm][cp] {
            count += 1;
        }
        if self.cells[row][cm] {
            count += 1;
        }
        if self.cells[row][cp] {
            count += 1;
        }
        if self.cells[rp][cm] {
            count += 1;
        }
        if self.cells[rp][col] {
            count += 1;
        }
        if self.cells[rp][cp] {
            count += 1;
        }
        count
    }

    /// Replaces the grid by the next generation. Every cell of the new grid is
    /// computed by the standard rule from the old generation alone: no cell
    /// written during the step is read by it.
    pub fn step(&mut self)
        requires
            old(self).wf(),
        ensures
            final(self).wf(),
            final(self).spec_size() == old(self).spec_size(),
            forall|r: int, c: int|
                0 <= r < final(self).spec_size() && 0 <= c < final(self).spec_size()
                    ==> final(self).spec_cell(r, c) == next_state_spec(
                    old(self).spec_cell(r, c),
                    neighbor_count(*old(self), r, c),
                ),
    {
        let n = self.size;
        let mut next: Vec<Vec<bool>> = Vec::new();
        for i in 0..n
            invariant
                self == old(self),
                self.wf(),
                n == self.size,
                next@.len() == i,
                forall|r: int| 0 <= r < i ==> #[trigger] next@[r]@.len() == n,
                forall|r: int, c: int|
                    0 <= r < i && 0 <= c < n ==> #[trigger] next@[r]@[c] == next_state_spec(
                        old(self).spec_cell(r, c),
                        neighbor_count(*old(self), r, c),
                    ),
        {
            let mut next_row: Vec<bool> = Vec::new();
            for j in 0..n
                invariant
                    self == old(self),
                    self.wf(),
                    n == self.size,
                    i < n,
                    next_row@.len() == j,
                    forall|c: int|
                        0 <= c < j ==> #[trigger] next_row@[c] == next_state_spec(
                            old(self).spec_cell(i as int, c),
                            neighbor_count(*old(self), i as int, c),
                        ),
            {
                let current = self.cells[i][j];
                let count = self.count_live_neighbors(i, j);
                next_row.push(crate::rules::next_state(current, count));
            }
            next.push(next_row);
        }
        self.cells = next;
    }

    /// Seeds the grid: each cell is independently set alive with probability
    /// about `1/denominator` (a fresh random byte is drawn per cell and the
    /// cell is set alive when the byte is divisible by `denominator`). Cells
    /// not selected keep their previous state, so a live cell never turns
    /// dead here: for a clean random pattern, call `clear` first. With
    /// denominator 1 every byte is divisible, so every cell comes out alive.
    pub fn randomize(&mut self, denominator: u8)
        requires
            old(self).wf(),
            denominator >= 1,
        ensures
            final(self).wf(),
            final(self).spec_size() == old(self).spec_size(),
            forall|r: int, c: int|
                0 <= r < final(self).spec_size() && 0 <= c < final(self).spec_size() && old(
                    self,
                ).spec_cell(r, c) ==> final(self).spec_cell(r, c),
            denominator == 1 ==> forall|r: int, c: int|
                0 <= r < final(self).spec_size() && 0 <= c < final(self).spec_size()
                    ==> final(self).spec_cell(r, c),
    {
        let n = self.size;
        let mut next: Vec<Vec<bool>> = Vec::new();
        for i in 0..n
            invariant
                self == old(self),
                self.wf(),
                n == self.size,
                next@.len() == i,
                forall|r: int| 0 <= r < i ==> #[trigger] next@[r]@.len() == n,
                forall|r: int, c: int|
                    0 <= r < i && 0 <= c < n && old(self).spec_cell(r, c)
                        ==> #[trigger] next@[r]@[c],
                denominator == 1 ==> forall|r: int, c: int|
                    0 <= r < i && 0 <= c < n ==> #[trigger] next@[r]@[c],
                denominator >= 1,
        {
            let mut next_row: Vec<bool> = Vec::new();
            for j in 0..n
                invariant
                    self == old(self),
                    self.wf(),
                    n == self.size,
                    i < n,
                    next_row@.len() == j,
                    forall|c: int|
                        0 <= c < j && old(self).spec_cell(i as int, c) ==> #[trigger] next_row@[c],
                    denominator == 1 ==> forall|c: int| 0 <= c < j ==> #[trigger] next_row@[c],
                    denominator >= 1,
            {
                let spawn = random_byte() % denominator == 0;
                next_row.push(self.cells[i][j] || spawn);
            }
            next.push(next_row);
        }
        self.cells = next;
    }

    /// Sets one cell's liveness; every other cell is unchanged.
    pub fn set_cell(&mut self, row: usize, col: usize, alive: bool)
        requires
            old(self).wf(),
            row < old(self).spec_size(),
            col < old(self).spec_size(),
        ensures
            final(self).wf(),
            final(self).spec_size() == old(self).spec_size(),
            final(self).spec_cell(row as int, col as int) == alive,
            forall|r: int, c: int|
                0 <= r < final(self).spec_size() && 0 <= c < final(self).spec_size() && !(r
                    == row as int && c == col as int)
                    ==> final(self).spec_cell(r, c) == old(self).spec_cell(r, c),
    {
        let mut new_row: Vec<bool> = Vec::new();
        let n = self.size;
        for j in 0..n
            invariant
                old(self).wf(),
                self == old(self),
                n == self.size,
                row < n,
                col < n,
                new_row@.len() == j,
                forall|k: int|
                    0 <= k < j ==> new_row@[k] == (if k == col as int {
                        alive
                    } else {
                        old(self).spec_cell(row as int, k)
                    }),
        {
            if j == col {
                new_row.push(alive);
            } else {
                new_row.push(self.cells[row][j]);
            }
        }
        self.cells.set(row, new_row);
    }
}

/// `g` holds a 2x2 block of live cells whose top-left corner is `(r0, c0)`,
/// and every cell outside the block is dead.
pub open spec fn lone_block(g: GridState, r0: int, c0: int) -> bool {
    forall|r: int, c: int|
        0 <= r < g.spec_size() && 0 <= c < g.spec_size() ==> g.spec_cell(r, c) == (r0 <= r <= r0
            + 1 && c0 <= c <= c0 + 1)
}

/// Law: the neighborhood wraps around the grid's edges. The neighbor count of
/// the corner cell `(0, 0)` is exactly the sum of the liveness of the eight
/// cells at wrapped offsets, among them `(n-1, n-1)`, `(n-1, 0)` and
/// `(0, n-1)`: a live cell at any of those is counted as adjacent to the
/// corner.
pub proof fn lemma_toroidal_wraparound(g: GridState)
    requires
        g.wf(),
        g.spec_size() >= 2,
    ensures
        neighbor_count(g, 0, 0) == live_count(
            g.spec_cell(g.spec_size() - 1, g.spec_size() - 1),
        ) + live_count(g.spec_cell(g.spec_size() - 1, 0)) + live_count(
            g.spec_cell(g.spec_size() - 1, 1),
        ) + live_count(g.spec_cell(0, g.spec_size() - 1)) + live_count(g.spec_cell(0, 1))
            + live_count(g.spec_cell(1, g.spec_size() - 1)) + live_count(g.spec_cell(1, 0))
            + live_count(g.spec_cell(1, 1)),
{
}

/// Law: a 2x2 block of live cells with every other cell dead is a still life.
/// The rule maps every cell of such a grid to its current state, so `step`
/// leaves the grid unchanged: each block cell sees exactly three live
/// neighbors and survives, and no dead cell sees exactly three.
pub proof fn lemma_block_still_life(g: GridState, r0: int, c0: int)
    requires
        g.wf(),
        g.spec_size() >= 3,
        0 <= r0,
        r0 + 1 < g.spec_size(),
        0 <= c0,
        c0 + 1 < g.spec_size(),
        lone_block(g, r0, c0),
    ensures
        forall|r: int, c: int|
            0 <= r < g.spec_size() && 0 <= c < g.spec_size() ==> next_state_spec(
                g.spec_cell(r, c),
                neighbor_count(g, r, c),
            ) == g.spec_cell(r, c),
{
    let n = g.spec_size();
    assert forall|r: int, c: int| 0 <= r < n && 0 <= c < n implies next_state_spec(
        g.spec_cell(r, c),
        neighbor_count(g, r, c),
    ) == g.spec_cell(r, c) by {
        assert(0 <= wrap_dec(r, n) < n && 0 <= wrap_inc(r, n) < n);
        assert(0 <= wrap_dec(c, n) < n && 0 <= wrap_inc(c, n) < n);
    }
}

/// Law: clearing is idempotent. Any two well-formed grids of the same size in
/// which every cell is dead agree on every cell, so clearing twice in a row
/// yields the same all-dead state as clearing once.
pub proof fn lemma_clear_idempotent(once: GridState, twice: GridState)
    requires
        once.wf(),
        twice.wf(),
        once.spec_size() == twice.spec_size(),
        once.all_dead(),
        twice.all_dead(),
    ensures
        forall|r: int, c: int|
            0 <= r < once.spec_size() && 0 <= c < once.spec_size() ==> once.spec_cell(r, c)
                == twice.spec_cell(r, c),
{
}

/// Builds a `size` x `size` matrix of dead cells.
fn dead_matrix(size: usize) -> (m: Vec<Vec<bool>>)
    ensures
        m@.len() == size,
        forall|r: int| 0 <= r < size ==> #[trigger] m@[r]@.len() == size,
        forall|r: int, c: int| 0 <= r < size && 0 <= c < size ==> !m@[r]@[c],
{
    let mut m: Vec<Vec<bool>> = Vec::new();
    for i in 0..size
        invariant
            m@.len() == i,
            forall|r: int| 0 <= r < i ==> #[trigger] m@[r]@.len() == size,
            forall|r: int, c: int| 0 <= r < i && 0 <= c < size ==> !m@[r]@[c],
    {
        let mut row: Vec<bool> = Vec::new();
        for j in 0..size
            invariant
                row@.len() == j,
                forall|c: int| 0 <= c < j ==> !row@[c],
        {
            row.push(false);
        }
        m.push(row);
    }
    m
}

} // verus!
