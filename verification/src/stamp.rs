//! The pattern catalogue, and the stamp: a pattern held at an offset until it
//! is committed into a grid.
use crate::grid::{in_bounds, CellState, Grid, HEIGHT, WIDTH};
use vstd::prelude::*;

verus! {

/// The patterns that can be stamped.
#[derive(Clone, Copy, Debug, PartialEq, Eq, Structural)]
pub enum PatternKind {
    Blinker,
    Glider,
    GliderGun,
}

/// Live cells of the blinker, as `(column, row)`.
pub const BLINKER: [(usize, usize); 3] = [(0, 0), (1, 0), (2, 0)];

/// Live cells of the glider, as `(column, row)`.
pub const GLIDER: [(usize, usize); 5] = [(0, 0), (2, 0), (2, 1), (1, 1), (1, 2)];

/// Live cells of the glider gun, as `(column, row)`.
pub const GLIDER_GUN: [(usize, usize); 36] = [
    (0, 4),
    (0, 5),
    (1, 4),
    (1, 5),
    (11, 3),
    (12, 2),
    (13, 2),
    (10, 4),
    (10, 5),
    (10, 6),
    (14, 5),
    (15, 3),
    (16, 4),
    (16, 5),
    (17, 5),
    (16, 6),
    (15, 7),
    (11, 7),
    (12, 8),
    (13, 8),
    (20, 2),
    (20, 3),
    (20, 4),
    (21, 2),
    (21, 3),
    (21, 4),
    (22, 1),
    (24, 1),
    (24, 0),
    (22, 5),
    (24, 5),
    (24, 6),
    (34, 2),
    (34, 3),
    (35, 2),
    (35, 3),
];

/// The entries of a coordinate table as mathematical pairs.
pub open spec fn coords(table: Seq<(usize, usize)>) -> Seq<(int, int)> {
    Seq::new(table.len(), |i: int| (table[i].0 as int, table[i].1 as int))
}

/// The live cells of a pattern, in the order of the catalogue.
pub open spec fn pattern_cells(kind: PatternKind) -> Seq<(int, int)> {
    match kind {
        PatternKind::Blinker => coords(BLINKER@),
        PatternKind::Glider => coords(GLIDER@),
        PatternKind::GliderGun => coords(GLIDER_GUN@),
    }
}

/// The live cells of a pattern as a set.
pub open spec fn pattern_set(kind: PatternKind) -> Set<(int, int)> {
    pattern_cells(kind).to_set()
}

/// Whether `cells` is the cell set of one of the catalogue's patterns.
pub open spec fn is_pattern(cells: Set<(int, int)>) -> bool {
    exists|kind: PatternKind| cells == #[trigger] pattern_set(kind)
}

/// What a stamp is: the live cells of its buffer and its offset.
pub struct StampView {
    pub cells: Set<(int, int)>,
    pub pos_x: int,
    pub pos_y: int,
}

impl StampView {
    /// The grid cells that the stamp covers: its live cells moved by the
    /// offset, without those that fall outside the grid.
    pub open spec fn footprint(self) -> Set<(int, int)> {
        Set::new(
            |p: (int, int)|
                in_bounds(p.0, p.1) && self.cells.contains((p.0 - self.pos_x, p.1 - self.pos_y)),
        )
    }

    /// The stamp at another offset.
    pub open spec fn at(self, x: int, y: int) -> StampView {
        StampView { cells: self.cells, pos_x: x, pos_y: y }
    }
}

/// A pattern in a buffer of its own, with the offset at which it would be
/// written into a grid.
#[derive(Clone, Copy, Debug)]
pub struct CellStruct {
    cells: Grid,
    pos_x: usize,
    pos_y: usize,
}

impl Grid {
    /// Makes every cell of `table` live.
    fn raise<const N: usize>(&mut self, table: &[(usize, usize); N])
        requires
            forall|i: int| 0 <= i < N ==> in_bounds(#[trigger] table[i].0 as int, table[i].1 as int),
        ensures
            final(self)@ == old(self)@.union(coords(table@).to_set()),
    {
        let mut i: usize = 0;
        while i < N
            invariant
                i <= N,
                forall|j: int| 0 <= j < N ==> in_bounds(#[trigger] table[j].0 as int, table[j].1 as int),
                forall|p: (int, int)|
                    #[trigger] self@.contains(p) == (old(self)@.contains(p) || exists|j: int|
                        0 <= j < i && #[trigger] coords(table@)[j] == p),
            decreases N - i,
        {
            let ghost before = self@;
            let (c, r) = table[i];
            self.set(c, r, CellState::Alive);
            proof {
                let q = (c as int, r as int);
                assert(coords(table@)[i as int] == q);
                assert forall|p: (int, int)|
                    #[trigger] self@.contains(p) == (old(self)@.contains(p) || exists|j: int|
                        0 <= j < i + 1 && #[trigger] coords(table@)[j] == p) by {
                    if p == q {
                    } else if before.contains(p) {
                    } else {
                        assert forall|j: int| 0 <= j < i + 1 implies #[trigger] coords(table@)[j]
                            != p by {
                            if j == i {
                            }
                        }
                    }
                }
            }
            i += 1;
        }
        proof {
            let shape = coords(table@).to_set();
            assert forall|p: (int, int)|
                self@.contains(p) == old(self)@.union(shape).contains(p) by {
                if coords(table@).contains(p) {
                    let j = choose|j: int| 0 <= j < coords(table@).len() && coords(table@)[j] == p;
                    assert(coords(table@)[j] == p);
                }
            }
            assert(self@ =~= old(self)@.union(shape));
        }
    }
}

/// `pos + delta`, where that is an offset.
fn shifted(pos: usize, delta: isize) -> (moved: usize)
    requires
        0 <= pos + delta <= usize::MAX,
    ensures
        moved == pos + delta,
{
    if delta >= 0 {
        pos + (delta as usize)
    } else {
        pos - ((-(delta + 1)) as usize) - 1
    }
}

impl CellStruct {
    #[verifier::type_invariant]
    spec fn holds_a_pattern(self) -> bool {
        is_pattern(self.cells@)
    }

    /// The stamp's live cells and offset.
    pub closed spec fn view(&self) -> StampView {
        StampView { cells: self.cells@, pos_x: self.pos_x as int, pos_y: self.pos_y as int }
    }

    /// A fresh stamp of the pattern `s` at offset `(x, y)`.
    pub fn new(s: PatternKind, x: usize, y: usize) -> (stamp: CellStruct)
        ensures
            stamp@ == (StampView { cells: pattern_set(s), pos_x: x as int, pos_y: y as int }),
    {
        let mut cells = Grid::new();
        match s {
            PatternKind::Blinker => cells.raise(&BLINKER),
            PatternKind::Glider => cells.raise(&GLIDER),
            PatternKind::GliderGun => cells.raise(&GLIDER_GUN),
        }
        assert(cells@ =~= pattern_set(s));
        CellStruct { cells, pos_x: x, pos_y: y }
    }

    /// Puts the stamp at offset `(x, y)`.
    pub fn update_pos(&mut self, x: usize, y: usize)
        ensures
            final(self)@ == old(self)@.at(x as int, y as int),
    {
        proof {
            use_type_invariant(&*self);
        }
        self.pos_x = x;
        self.pos_y = y;
    }

    /// Moves the stamp by `(dx, dy)`. The offsets are never negative: a move
    /// that would take one below zero is an error of the caller.
    pub fn move_by(&mut self, dx: isize, dy: isize)
        requires
            0 <= old(self)@.pos_x + dx <= usize::MAX,
            0 <= old(self)@.pos_y + dy <= usize::MAX,
        ensures
            final(self)@ == old(self)@.at(old(self)@.pos_x + dx, old(self)@.pos_y + dy),
    {
        proof {
            use_type_invariant(&*self);
        }
        self.pos_x = shifted(self.pos_x, dx);
        self.pos_y = shifted(self.pos_y, dy);
    }

    /// Column offset of the stamp.
    pub fn pos_x(&self) -> (x: usize)
        ensures
            x == self@.pos_x,
    {
        self.pos_x
    }

    /// Row offset of the stamp.
    pub fn pos_y(&self) -> (y: usize)
        ensures
            y == self@.pos_y,
    {
        self.pos_y
    }

    /// The stamp's buffer, which holds one pattern of the catalogue at its
    /// own coordinates.
    pub fn cells(&self) -> (cells: &Grid)
        ensures
            cells@ == self@.cells,
            is_pattern(cells@),
    {
        proof {
            use_type_invariant(self);
        }
        &self.cells
    }
}

/// Writes the stamp into the grid: every cell of the stamp's footprint
/// becomes live, and no other cell changes. Cells of the stamp that the
/// offset carries outside the grid are dropped.
pub fn commit(grid: &mut Grid, stamp: &CellStruct)
    ensures
        final(grid)@ == old(grid)@.union(stamp@.footprint()),
        old(grid)@.subset_of(final(grid)@),
        forall|p: (int, int)| #[trigger] final(grid)@.contains(p) ==> in_bounds(p.0, p.1),
{
    let source = stamp.cells();
    let pos_x = stamp.pos_x();
    let pos_y = stamp.pos_y();
    proof {
        source.lemma_live_cells_in_bounds();
    }
    let mut c: usize = 0;
    while c < WIDTH
        invariant
            c <= WIDTH,
            source@ == stamp@.cells,
            forall|q: (int, int)| #[trigger] source@.contains(q) ==> in_bounds(q.0, q.1),
            pos_x == stamp@.pos_x,
            pos_y == stamp@.pos_y,
            forall|p: (int, int)|
                #[trigger] grid@.contains(p) == (old(grid)@.contains(p) || (
                stamp@.footprint().contains(p) && p.0 - pos_x < c)),
        decreases WIDTH - c,
    {
        let mut r: usize = 0;
        while r < HEIGHT
            invariant
                c < WIDTH,
                r <= HEIGHT,
                source@ == stamp@.cells,
                forall|q: (int, int)| #[trigger] source@.contains(q) ==> in_bounds(q.0, q.1),
                pos_x == stamp@.pos_x,
                pos_y == stamp@.pos_y,
                forall|p: (int, int)|
                    #[trigger] grid@.contains(p) == (old(grid)@.contains(p) || (
                    stamp@.footprint().contains(p) && (p.0 - pos_x < c || (p.0 - pos_x == c
                        && p.1 - pos_y < r)))),
            decreases HEIGHT - r,
        {
            if source.get(c, r) == CellState::Alive {
                if pos_x < WIDTH && c < WIDTH - pos_x && pos_y < HEIGHT && r < HEIGHT - pos_y {
                    grid.set(c + pos_x, r + pos_y, CellState::Alive);
                }
            }
            r += 1;
        }
        c += 1;
    }
    proof {
        grid.lemma_live_cells_in_bounds();
        assert(grid@ =~= old(grid)@.union(stamp@.footprint()));
    }
}

} // verus!
