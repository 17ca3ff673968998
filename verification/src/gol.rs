//! The controller: the grid, the stamp that is being placed, if any, and the
//! view settings, with the transitions that key events and ticks cause.
//!
//! The state has two modes. Without a pending stamp, Space asks for one
//! generation (unless the ticker already steps on its own). With a pending
//! stamp, the arrow keys move it and Space commits it into the grid. The
//! zoom, the two toggles and the choice of a pattern work in both modes.
use crate::grid::Grid;
use crate::life::next_generation;
use crate::stamp::{commit, pattern_set, CellStruct, PatternKind, StampView};
use vstd::prelude::*;

verus! {

/// Pixel sizes of a cell, by zoom index.
pub const COMMON_DIVISORS: [usize; 11] = [2, 4, 5, 8, 10, 20, 25, 40, 50, 100, 200];

/// Smallest zoom index that the controller takes.
pub const MIN_ZOOM: usize = 1;

/// Largest zoom index.
pub const MAX_ZOOM: usize = 10;

/// The keys that the controller knows. Every other key is `Other`.
#[derive(Clone, Copy, Debug, PartialEq, Eq, Structural)]
pub enum Key {
    PageUp,
    PageDown,
    A,
    G,
    Key1,
    Key2,
    Key3,
    Up,
    Down,
    Left,
    Right,
    Space,
    Other,
}

/// What a controller is: its settings, the live cells of its grid, and its
/// pending stamp.
pub struct GolView {
    pub auto_step: bool,
    pub display_grid: bool,
    pub zoom: int,
    pub cells: Set<(int, int)>,
    pub building_cells: Option<StampView>,
}

/// The stamp after an arrow key: one cell further in the key's direction,
/// or where it was if that would leave the range of offsets.
pub open spec fn nudged(stamp: StampView, key: Key) -> StampView {
    match key {
        Key::Up => if stamp.pos_y > 0 {
            stamp.at(stamp.pos_x, stamp.pos_y - 1)
        } else {
            stamp
        },
        Key::Down => if stamp.pos_y < usize::MAX {
            stamp.at(stamp.pos_x, stamp.pos_y + 1)
        } else {
            stamp
        },
        Key::Left => if stamp.pos_x > 0 {
            stamp.at(stamp.pos_x - 1, stamp.pos_y)
        } else {
            stamp
        },
        Key::Right => if stamp.pos_x < usize::MAX {
            stamp.at(stamp.pos_x + 1, stamp.pos_y)
        } else {
            stamp
        },
        _ => stamp,
    }
}

impl GolView {
    /// The state at startup: an empty grid, no stamp, the overlay shown,
    /// manual stepping, zoom index 1.
    pub open spec fn initial() -> GolView {
        GolView {
            auto_step: false,
            display_grid: true,
            zoom: 1,
            cells: Set::empty(),
            building_cells: None,
        }
    }

    /// The zoom index is one that the controller takes.
    pub open spec fn zoom_in_range(self) -> bool {
        MIN_ZOOM <= self.zoom <= MAX_ZOOM
    }

    /// One zoom index up, unless the index is the last of the table.
    pub open spec fn zoom_in(self) -> GolView {
        GolView { zoom: if self.zoom < MAX_ZOOM { self.zoom + 1 } else { self.zoom }, ..self }
    }

    /// One zoom index down, unless the index is 1.
    pub open spec fn zoom_off(self) -> GolView {
        GolView { zoom: if self.zoom > MIN_ZOOM { self.zoom - 1 } else { self.zoom }, ..self }
    }

    /// Automatic stepping switched over.
    pub open spec fn toggle_auto_step(self) -> GolView {
        GolView { auto_step: !self.auto_step, ..self }
    }

    /// The overlay switched over.
    pub open spec fn toggle_display_grid(self) -> GolView {
        GolView { display_grid: !self.display_grid, ..self }
    }

    /// One generation on the grid; nothing else changes.
    pub open spec fn next_step(self) -> GolView {
        GolView { cells: next_generation(self.cells), ..self }
    }

    /// A fresh stamp of `kind` becomes the pending stamp. It takes the
    /// offset of the stamp it replaces, or `(0, 0)` if there was none.
    pub open spec fn start_building(self, kind: PatternKind) -> GolView {
        let (x, y) = match self.building_cells {
            Some(stamp) => (stamp.pos_x, stamp.pos_y),
            None => (0, 0),
        };
        GolView {
            building_cells: Some(StampView { cells: pattern_set(kind), pos_x: x, pos_y: y }),
            ..self
        }
    }

    /// The pending stamp, if any, is committed into the grid and dropped.
    pub open spec fn build(self) -> GolView {
        match self.building_cells {
            Some(stamp) => GolView {
                cells: self.cells.union(stamp.footprint()),
                building_cells: None,
                ..self
            },
            None => self,
        }
    }

    /// One tick of the host loop: a generation if stepping is automatic.
    pub open spec fn update(self) -> GolView {
        if self.auto_step {
            self.next_step()
        } else {
            self
        }
    }

    /// The state after `key` went down. The arrow keys act only on a pending
    /// stamp. Space commits the pending stamp if there is one; without one it
    /// asks for a generation, which is refused while stepping is automatic.
    pub open spec fn key_down_event(self, key: Key) -> GolView {
        match key {
            Key::PageUp => self.zoom_in(),
            Key::PageDown => self.zoom_off(),
            Key::A => self.toggle_auto_step(),
            Key::G => self.toggle_display_grid(),
            Key::Key1 => self.start_building(PatternKind::Blinker),
            Key::Key2 => self.start_building(PatternKind::Glider),
            Key::Key3 => self.start_building(PatternKind::GliderGun),
            Key::Up | Key::Down | Key::Left | Key::Right => match self.building_cells {
                Some(stamp) => GolView { building_cells: Some(nudged(stamp, key)), ..self },
                None => self,
            },
            Key::Space => if self.building_cells is Some {
                self.build()
            } else if !self.auto_step {
                self.next_step()
            } else {
                self
            },
            Key::Other => self,
        }
    }

    /// The state after the keys of `keys` went down one after the other.
    pub open spec fn after_keys(self, keys: Seq<Key>) -> GolView
        decreases keys.len(),
    {
        if keys.len() == 0 {
            self
        } else {
            self.after_keys(keys.drop_last()).key_down_event(keys.last())
        }
    }
}

/// Whatever keys go down, and in whatever order, the zoom index stays between
/// `MIN_ZOOM` and `MAX_ZOOM`: PageUp stops at the top of the table and
/// PageDown stops at index 1, not 0.
pub proof fn lemma_zoom_stays_in_range(state: GolView, keys: Seq<Key>)
    requires
        state.zoom_in_range(),
    ensures
        state.after_keys(keys).zoom_in_range(),
    decreases keys.len(),
{
    if keys.len() > 0 {
        lemma_zoom_stays_in_range(state, keys.drop_last());
    }
}

/// The controller.
#[derive(Debug)]
pub struct Gol {
    auto_step: bool,
    display_grid: bool,
    zoom: usize,
    cells: Grid,
    building_cells: Option<CellStruct>,
}

impl Gol {
    #[verifier::type_invariant]
    spec fn zoom_is_valid(self) -> bool {
        MIN_ZOOM <= self.zoom <= MAX_ZOOM
    }

    /// The controller's state.
    pub closed spec fn view(&self) -> GolView {
        GolView {
            auto_step: self.auto_step,
            display_grid: self.display_grid,
            zoom: self.zoom as int,
            cells: self.cells@,
            building_cells: match self.building_cells {
                Some(stamp) => Some(stamp@),
                None => None,
            },
        }
    }

    /// The controller at startup.
    pub fn new() -> (gol: Gol)
        ensures
            gol@ == GolView::initial(),
    {
        Gol {
            auto_step: false,
            display_grid: true,
            zoom: 1,
            cells: Grid::new(),
            building_cells: None,
        }
    }

    /// Advances the grid by one generation.
    pub fn next_step(&mut self)
        ensures
            final(self)@ == old(self)@.next_step(),
    {
        proof {
            use_type_invariant(&*self);
        }
        self.cells = self.cells.step();
    }

    /// Starts placing a stamp of the pattern `s`, in place of the pending
    /// one if there is one.
    pub fn start_building(&mut self, s: PatternKind)
        ensures
            final(self)@ == old(self)@.start_building(s),
    {
        proof {
            use_type_invariant(&*self);
        }
        let (x, y) = match self.building_cells {
            Some(stamp) => (stamp.pos_x(), stamp.pos_y()),
            None => (0, 0),
        };
        self.building_cells = Some(CellStruct::new(s, x, y));
    }

    /// Commits the pending stamp, if any, and leaves stamp mode.
    pub fn build(&mut self)
        ensures
            final(self)@ == old(self)@.build(),
    {
        proof {
            use_type_invariant(&*self);
        }
        match self.building_cells {
            Some(stamp) => {
                let mut cells = self.cells;
                commit(&mut cells, &stamp);
                self.cells = cells;
                self.building_cells = None;
            },
            None => {},
        }
    }

    /// One zoom step in; at the last index nothing changes.
    pub fn zoom_in(&mut self)
        ensures
            final(self)@ == old(self)@.zoom_in(),
    {
        proof {
            use_type_invariant(&*self);
        }
        if self.zoom < COMMON_DIVISORS.len() - 1 {
            self.zoom += 1;
        }
    }

    /// One zoom step out; at index 1 nothing changes.
    pub fn zoom_off(&mut self)
        ensures
            final(self)@ == old(self)@.zoom_off(),
    {
        proof {
            use_type_invariant(&*self);
        }
        if self.zoom > 1 {
            self.zoom -= 1;
        }
    }

    /// Switches automatic stepping on or off.
    pub fn toggle_auto_step(&mut self)
        ensures
            final(self)@ == old(self)@.toggle_auto_step(),
    {
        proof {
            use_type_invariant(&*self);
        }
        self.auto_step = !self.auto_step;
    }

    /// Switches the overlay of grid lines on or off.
    pub fn toggle_display_grid(&mut self)
        ensures
            final(self)@ == old(self)@.toggle_display_grid(),
    {
        proof {
            use_type_invariant(&*self);
        }
        self.display_grid = !self.display_grid;
    }

    /// Pixel size of a cell at the current zoom.
    pub fn grid_width(&self) -> (width: usize)
        ensures
            self@.zoom_in_range(),
            width == COMMON_DIVISORS[self@.zoom],
    {
        proof {
            use_type_invariant(self);
        }
        COMMON_DIVISORS[self.zoom]
    }

    /// One tick of the host loop: a generation if the ticker steps on its
    /// own, nothing otherwise.
    pub fn update(&mut self)
        ensures
            final(self)@ == old(self)@.update(),
    {
        if self.auto_step {
            self.next_step();
        }
    }

    /// Takes a key that went down.
    pub fn key_down_event(&mut self, key: Key)
        ensures
            final(self)@ == old(self)@.key_down_event(key),
    {
        proof {
            use_type_invariant(&*self);
        }
        match key {
            Key::PageUp => self.zoom_in(),
            Key::PageDown => self.zoom_off(),
            Key::A => self.toggle_auto_step(),
            Key::G => self.toggle_display_grid(),
            Key::Key1 => self.start_building(PatternKind::Blinker),
            Key::Key2 => self.start_building(PatternKind::Glider),
            Key::Key3 => self.start_building(PatternKind::GliderGun),
            _ => {},
        }
        match self.building_cells {
            Some(stamp) => {
                let mut moved = stamp;
                let (x, y) = (stamp.pos_x(), stamp.pos_y());
                match key {
                    Key::Up => if y > 0 {
                        moved.move_by(0, -1);
                    },
                    Key::Down => if y < usize::MAX {
                        moved.move_by(0, 1);
                    },
                    Key::Right => if x < usize::MAX {
                        moved.move_by(1, 0);
                    },
                    Key::Left => if x > 0 {
                        moved.move_by(-1, 0);
                    },
                    Key::Space => {
                        self.build();
                        return ;
                    },
                    _ => {},
                }
                self.building_cells = Some(moved);
            },
            None => {
                match key {
                    Key::Space => {
                        if !self.auto_step {
                            self.next_step();
                        }
                    },
                    _ => {},
                }
            },
        }
    }

    /// Whether every tick steps the grid.
    pub fn auto_step(&self) -> (on: bool)
        ensures
            on == self@.auto_step,
    {
        self.auto_step
    }

    /// Whether the overlay of grid lines is shown.
    pub fn display_grid(&self) -> (on: bool)
        ensures
            on == self@.display_grid,
    {
        self.display_grid
    }

    /// The zoom index.
    pub fn zoom(&self) -> (zoom: usize)
        ensures
            zoom == self@.zoom,
            MIN_ZOOM <= zoom <= MAX_ZOOM,
    {
        proof {
            use_type_invariant(self);
        }
        self.zoom
    }

    /// The grid.
    pub fn cells(&self) -> (cells: &Grid)
        ensures
            cells@ == self@.cells,
    {
        &self.cells
    }

    /// The pending stamp, if there is one.
    pub fn building_cells(&self) -> (stamp: Option<&CellStruct>)
        ensures
            match stamp {
                Some(s) => self@.building_cells == Some(s@),
                None => self@.building_cells is None,
            },
    {
        self.building_cells.as_ref()
    }
}

} // verus!
