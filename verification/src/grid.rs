//! The bounded field of cells that holds the simulation's state.
use vstd::prelude::*;

verus! {

/// Number of columns of every grid.
pub const WIDTH: usize = 200;

/// Number of rows of every grid.
pub const HEIGHT: usize = 150;

/// State of one cell.
#[derive(Clone, Copy, Debug, PartialEq, Eq, Structural)]
pub enum CellState {
    Alive,
    Dead,
}

/// Whether `(c, r)` addresses a cell of the grid.
pub open spec fn in_bounds(c: int, r: int) -> bool {
    0 <= c < WIDTH && 0 <= r < HEIGHT
}

/// A `WIDTH` x `HEIGHT` field of cells, addressed by `(column, row)`.
///
/// Its view is the set of coordinates of its live cells.
#[derive(Clone, Copy, Debug)]
pub struct Grid {
    cells: [[CellState; HEIGHT]; WIDTH],
}

impl Grid {
    /// The coordinates of the live cells.
    pub closed spec fn view(&self) -> Set<(int, int)> {
        Set::new(|p: (int, int)| in_bounds(p.0, p.1) && self.cells[p.0][p.1] == CellState::Alive)
    }

    /// Every live cell lies inside the grid.
    pub proof fn lemma_live_cells_in_bounds(&self)
        ensures
            forall|p: (int, int)| #[trigger] self@.contains(p) ==> in_bounds(p.0, p.1),
    {
    }

    /// A grid is determined by its live cells.
    pub proof fn lemma_view_determines_grid(a: Grid, b: Grid)
        requires
            a@ == b@,
        ensures
            a == b,
    {
        assert forall|c: int| 0 <= c < WIDTH implies a.cells[c] == b.cells[c] by {
            assert forall|r: int| 0 <= r < HEIGHT implies a.cells[c][r] == b.cells[c][r] by {
                assert(a@.contains((c, r)) == (a.cells[c][r] == CellState::Alive));
                assert(b@.contains((c, r)) == (b.cells[c][r] == CellState::Alive));
            }
            assert(a.cells[c] =~= b.cells[c]);
        }
        assert(a.cells =~= b.cells);
    }

    /// A grid whose cells are all dead.
    pub fn new() -> (grid: Grid)
        ensures
            grid@ == Set::<(int, int)>::empty(),
    {
        Grid { cells: [[CellState::Dead; HEIGHT]; WIDTH] }
    }

    /// The state of the cell at column `c`, row `r`.
    pub fn get(&self, c: usize, r: usize) -> (state: CellState)
        requires
            in_bounds(c as int, r as int),
        ensures
            state == if self@.contains((c as int, r as int)) {
                CellState::Alive
            } else {
                CellState::Dead
            },
    {
        self.cells[c][r]
    }

    /// Writes `state` into the cell at column `c`, row `r`.
    pub fn set(&mut self, c: usize, r: usize, state: CellState)
        requires
            in_bounds(c as int, r as int),
        ensures
            final(self)@ == if state == CellState::Alive {
                old(self)@.insert((c as int, r as int))
            } else {
                old(self)@.remove((c as int, r as int))
            },
    {
        self.cells[c][r] = state;
    }

    /// Resets every cell to dead.
    pub fn clear(&mut self)
        ensures
            final(self)@ == Set::<(int, int)>::empty(),
    {
        self.cells = [[CellState::Dead; HEIGHT]; WIDTH];
    }
}

impl PartialEq for Grid {
    /// Whether the two grids have the same live cells.
    fn eq(&self, other: &Grid) -> (equal: bool) {
        let mut c: usize = 0;
        while c < WIDTH
            invariant
                c <= WIDTH,
                forall|p: (int, int)| p.0 < c ==> self@.contains(p) == other@.contains(p),
            decreases WIDTH - c,
        {
            let mut r: usize = 0;
            while r < HEIGHT
                invariant
                    c < WIDTH,
                    r <= HEIGHT,
                    forall|p: (int, int)|
                        p.0 < c || (p.0 == c && p.1 < r) ==> self@.contains(p) == other@.contains(
                            p,
                        ),
                decreases HEIGHT - r,
            {
                if self.cells[c][r] != other.cells[c][r] {
                    assert(self@.contains((c as int, r as int)) != other@.contains(
                        (c as int, r as int),
                    ));
                    return false;
                }
                r += 1;
            }
            c += 1;
        }
        assert(self@ =~= other@);
        true
    }
}

impl Eq for Grid {

}

impl vstd::std_specs::cmp::PartialEqSpecImpl for Grid {
    open spec fn obeys_eq_spec() -> bool {
        true
    }

    open spec fn eq_spec(&self, other: &Grid) -> bool {
        self@ == other@
    }
}

} // verus!
