//! One generation of Conway's rule on the bounded grid.
//!
//! A dead cell with exactly three live neighbors is born, a live cell with
//! two or three live neighbors survives, and every other cell is dead in the
//! next generation. The grid does not wrap: the cells of its outer band are
//! updated as if they had no live neighbor at all, so the band is dead after
//! every step. The band is one cell thick at the left and top edges and two
//! cells thick at the right and bottom edges.
use crate::grid::{in_bounds, CellState, Grid, HEIGHT, WIDTH};
use vstd::prelude::*;

verus! {

/// 1 if `(c, r)` is live, 0 otherwise.
pub open spec fn alive_at(live: Set<(int, int)>, c: int, r: int) -> int {
    if live.contains((c, r)) {
        1
    } else {
        0
    }
}

/// Number of live cells among the eight cells around `(c, r)`.
pub open spec fn live_neighbors(live: Set<(int, int)>, c: int, r: int) -> int {
    alive_at(live, c - 1, r - 1) + alive_at(live, c, r - 1) + alive_at(live, c + 1, r - 1)
        + alive_at(live, c - 1, r) + alive_at(live, c + 1, r) + alive_at(live, c - 1, r + 1)
        + alive_at(live, c, r + 1) + alive_at(live, c + 1, r + 1)
}

/// The cells whose neighbors are counted.
pub open spec fn in_interior(c: int, r: int) -> bool {
    0 < c < WIDTH - 2 && 0 < r < HEIGHT - 2
}

/// The cells of the grid's outer band.
pub open spec fn in_frozen_border(c: int, r: int) -> bool {
    in_bounds(c, r) && (c == 0 || r == 0 || c >= WIDTH - 2 || r >= HEIGHT - 2)
}

/// The neighbor count that the update of `(c, r)` goes by: the true count
/// inside the grid, zero on the outer band.
pub open spec fn counted_neighbors(live: Set<(int, int)>, c: int, r: int) -> int {
    if in_interior(c, r) {
        live_neighbors(live, c, r)
    } else {
        0
    }
}

/// Conway's rule: whether a cell that is `alive` now and has `n` live
/// neighbors is alive in the next generation.
pub open spec fn lives_on(alive: bool, n: int) -> bool {
    if alive {
        n == 2 || n == 3
    } else {
        n == 3
    }
}

/// The live cells of the generation that follows `live`.
pub open spec fn next_generation(live: Set<(int, int)>) -> Set<(int, int)> {
    Set::new(
        |p: (int, int)|
            in_bounds(p.0, p.1) && lives_on(live.contains(p), counted_neighbors(live, p.0, p.1)),
    )
}

impl Grid {
    /// The neighbor count by which the cell at `(c, r)` is updated.
    pub fn counted_neighbors(&self, c: usize, r: usize) -> (n: u8)
        requires
            in_bounds(c as int, r as int),
        ensures
            n == counted_neighbors(self@, c as int, r as int),
    {
        let mut n: u8 = 0;
        if c > 0 && r > 0 && c < WIDTH - 2 && r < HEIGHT - 2 {
            if self.get(c - 1, r - 1) == CellState::Alive {
                n += 1;
            }
            if self.get(c, r - 1) == CellState::Alive {
                n += 1;
            }
            if self.get(c + 1, r - 1) == CellState::Alive {
                n += 1;
            }
            if self.get(c - 1, r) == CellState::Alive {
                n += 1;
            }
            if self.get(c + 1, r) == CellState::Alive {
                n += 1;
            }
            if self.get(c - 1, r + 1) == CellState::Alive {
                n += 1;
            }
            if self.get(c, r + 1) == CellState::Alive {
                n += 1;
            }
            if self.get(c + 1, r + 1) == CellState::Alive {
                n += 1;
            }
        }
        n
    }

    /// The grid one generation later. Every cell is updated from `self`,
    /// never from a cell that this step has already written.
    pub fn step(&self) -> (next: Grid)
        ensures
            next@ == next_generation(self@),
    {
        let mut next = *self;
        proof {
            self.lemma_live_cells_in_bounds();
        }
        let mut c: usize = 0;
        while c < WIDTH
            invariant
                c <= WIDTH,
                forall|p: (int, int)| #[trigger] self@.contains(p) ==> in_bounds(p.0, p.1),
                forall|p: (int, int)|
                    #[trigger] next@.contains(p) == if p.0 < c {
                        next_generation(self@).contains(p)
                    } else {
                        self@.contains(p)
                    },
            decreases WIDTH - c,
        {
            let mut r: usize = 0;
            while r < HEIGHT
                invariant
                    c < WIDTH,
                    r <= HEIGHT,
                    forall|p: (int, int)| #[trigger] self@.contains(p) ==> in_bounds(p.0, p.1),
                    forall|p: (int, int)|
                        #[trigger] next@.contains(p) == if p.0 < c || (p.0 == c && p.1 < r) {
                            next_generation(self@).contains(p)
                        } else {
                            self@.contains(p)
                        },
                decreases HEIGHT - r,
            {
                let n = self.counted_neighbors(c, r);
                match self.get(c, r) {
                    CellState::Dead => {
                        if n == 3 {
                            next.set(c, r, CellState::Alive);
                        }
                    },
                    CellState::Alive => {
                        if n < 2 || n > 3 {
                            next.set(c, r, CellState::Dead);
                        } else {
                            next.set(c, r, CellState::Alive);
                        }
                    },
                }
                r += 1;
            }
            c += 1;
        }
        next
    }
}

/// Stepping is a function of the grid: whatever two runs of `step` return for
/// one grid is the same grid.
pub proof fn lemma_step_is_deterministic(grid: Grid, first: Grid, second: Grid)
    requires
        first@ == next_generation(grid@),
        second@ == next_generation(grid@),
    ensures
        first == second,
{
    Grid::lemma_view_determines_grid(first, second);
}

/// A cell without a live neighbor is dead in the next generation, whatever
/// its own state.
pub proof fn lemma_isolated_cell_is_dead(grid: Grid, c: int, r: int)
    requires
        live_neighbors(grid@, c, r) == 0,
    ensures
        !next_generation(grid@).contains((c, r)),
{
}

/// Strictly inside the outer band the next state of a cell is the one that
/// Conway's rule gives for its state and its number of live neighbors.
pub proof fn lemma_interior_follows_rule(grid: Grid, c: int, r: int)
    requires
        1 <= c <= WIDTH - 3,
        1 <= r <= HEIGHT - 3,
    ensures
        next_generation(grid@).contains((c, r)) == lives_on(
            grid@.contains((c, r)),
            live_neighbors(grid@, c, r),
        ),
        next_generation(grid@).contains((c, r)) == (live_neighbors(grid@, c, r) == 3 || (
            grid@.contains((c, r)) && live_neighbors(grid@, c, r) == 2)),
{
}

/// After a step every cell of the outer band is dead.
pub proof fn lemma_border_is_dead_after_step(grid: Grid, c: int, r: int)
    requires
        in_frozen_border(c, r),
    ensures
        !next_generation(grid@).contains((c, r)),
{
}

} // verus!
