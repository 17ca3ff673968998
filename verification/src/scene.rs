//! What a frame shows, as plain geometry in window pixels: the lines of the
//! overlay and one square for each live cell and each cell of the pending
//! stamp. Painting it is left to the host.
use crate::gol::{Gol, GolView, COMMON_DIVISORS};
use crate::grid::{CellState, HEIGHT, WIDTH};
use vstd::arithmetic::div_mod::lemma_fundamental_div_mod_converse;
use vstd::prelude::*;

verus! {

/// Width of the window in pixels.
pub const SCREEN_WIDTH: usize = 800;

/// Height of the window in pixels.
pub const SCREEN_HEIGHT: usize = 600;

/// What a square stands for.
#[derive(Clone, Copy, Debug, PartialEq, Eq, Structural)]
pub enum Layer {
    /// A live cell of the grid.
    Live,
    /// A cell of the pending stamp.
    Stamp,
}

/// A filled square: its top left corner, the length of its side, and what
/// it stands for.
#[derive(Clone, Copy, Debug, PartialEq, Eq, Structural)]
pub struct Rect {
    pub x: i128,
    pub y: i128,
    pub side: usize,
    pub layer: Layer,
}

/// The content of one frame.
#[derive(Debug)]
pub struct Scene {
    /// Horizontal positions of the overlay's vertical lines.
    pub columns: Vec<usize>,
    /// Vertical positions of the overlay's horizontal lines.
    pub rows: Vec<usize>,
    /// The squares, in the order in which they are painted.
    pub rects: Vec<Rect>,
}

/// Distance between two lines of the overlay: half a cell.
pub open spec fn line_step(zoom: int) -> int {
    COMMON_DIVISORS[zoom] as int / 2
}

/// The multiples of `step` from 0 up to, and without, `extent`.
pub open spec fn line_offsets(extent: int, step: int) -> Seq<usize> {
    Seq::new(((extent + step - 1) / step) as nat, |k: int| (k * step) as usize)
}

/// The square of the cell in column `c`, row `r`, at `width` pixels a cell.
pub open spec fn rect_at(c: int, r: int, width: int, layer: Layer) -> Rect {
    Rect {
        x: (c * width - 1) as i128,
        y: (r * width - 1) as i128,
        side: (width + 1) as usize,
        layer,
    }
}

/// The squares that the cell at `(c, r)` of the buffers adds to the frame:
/// one if the grid's cell is live, then one if the stamp's cell is live, the
/// latter moved by the stamp's offset.
pub open spec fn cell_rects(state: GolView, c: int, r: int) -> Seq<Rect> {
    let width = COMMON_DIVISORS[state.zoom] as int;
    let live = if state.cells.contains((c, r)) {
        seq![rect_at(c, r, width, Layer::Live)]
    } else {
        Seq::empty()
    };
    let pending = match state.building_cells {
        Some(stamp) if stamp.cells.contains((c, r)) => seq![
            rect_at(c + stamp.pos_x, r + stamp.pos_y, width, Layer::Stamp),
        ],
        _ => Seq::empty(),
    };
    live + pending
}

/// The squares of the first `n` cells, column by column and from the top of
/// each column down.
pub open spec fn rects_before(state: GolView, n: int) -> Seq<Rect>
    decreases n,
{
    if n <= 0 {
        Seq::empty()
    } else {
        rects_before(state, n - 1) + cell_rects(state, (n - 1) / (HEIGHT as int), (n - 1) % (
        HEIGHT as int))
    }
}

/// Every cell size of the table is between 2 and 200 pixels.
pub proof fn lemma_divisors_are_bounded(zoom: int)
    requires
        0 <= zoom < COMMON_DIVISORS.len(),
    ensures
        2 <= COMMON_DIVISORS[zoom] <= 200,
{
    if zoom == 0 {
    } else if zoom == 1 {
    } else if zoom == 2 {
    } else if zoom == 3 {
    } else if zoom == 4 {
    } else if zoom == 5 {
    } else if zoom == 6 {
    } else if zoom == 7 {
    } else if zoom == 8 {
    } else if zoom == 9 {
    } else {
    }
}

/// The multiples of `step` below `extent`, in rising order.
fn multiples_below(extent: usize, step: usize) -> (offsets: Vec<usize>)
    requires
        step > 0,
        extent + step <= usize::MAX,
    ensures
        offsets@ == line_offsets(extent as int, step as int),
{
    let mut offsets: Vec<usize> = Vec::new();
    let mut p: usize = 0;
    assert(offsets.len() * step == 0) by (nonlinear_arith)
        requires
            offsets.len() == 0,
    ;
    while p < extent
        invariant
            step > 0,
            extent + step <= usize::MAX,
            p == offsets.len() * step,
            p < extent + step,
            forall|k: int| 0 <= k < offsets.len() ==> offsets[k] == k * step,
        decreases extent + step - p,
    {
        offsets.push(p);
        assert((offsets.len() - 1) * step + step == offsets.len() * step) by (nonlinear_arith);
        p += step;
    }
    proof {
        let n = offsets.len() as int;
        let x = extent + step - 1;
        lemma_fundamental_div_mod_converse(x, step as int, n, x - n * step);
        assert(offsets@ =~= line_offsets(extent as int, step as int));
    }
    offsets
}

/// The square of a cell, from its column and row counted in cells.
fn square(c: usize, off_x: usize, r: usize, off_y: usize, width: usize, layer: Layer) -> (rect:
    Rect)
    requires
        c < WIDTH,
        r < HEIGHT,
        width <= 200,
    ensures
        rect == rect_at(c + off_x, r + off_y, width as int, layer),
{
    let col = c as i128 + off_x as i128;
    let row = r as i128 + off_y as i128;
    let w = width as i128;
    // A column or row with its offset is below 2^64 + 256.
    assert(0 <= col * w <= 0x1_0000_0000_0000_0100 * 200) by (nonlinear_arith)
        requires
            0 <= col <= 0x1_0000_0000_0000_0100,
            0 <= w <= 200,
    ;
    assert(0 <= row * w <= 0x1_0000_0000_0000_0100 * 200) by (nonlinear_arith)
        requires
            0 <= row <= 0x1_0000_0000_0000_0100,
            0 <= w <= 200,
    ;
    Rect { x: col * w - 1, y: row * w - 1, side: width + 1, layer }
}

impl Gol {
    /// The overlay: where its vertical lines cross the top edge and where its
    /// horizontal lines cross the left edge. Two lines are half a cell apart.
    pub fn draw_grid(&self) -> (lines: (Vec<usize>, Vec<usize>))
        ensures
            lines.0@ == line_offsets(SCREEN_WIDTH as int, line_step(self@.zoom)),
            lines.1@ == line_offsets(SCREEN_HEIGHT as int, line_step(self@.zoom)),
    {
        let width = self.grid_width();
        proof {
            lemma_divisors_are_bounded(self@.zoom);
        }
        let step = width / 2;
        (multiples_below(SCREEN_WIDTH, step), multiples_below(SCREEN_HEIGHT, step))
    }

    /// The squares of the frame, in painting order.
    pub fn draw_cells(&self) -> (rects: Vec<Rect>)
        ensures
            rects@ == rects_before(self@, WIDTH * HEIGHT),
    {
        let width = self.grid_width();
        let grid = self.cells();
        let stamp = self.building_cells();
        proof {
            lemma_divisors_are_bounded(self@.zoom);
        }
        let mut rects: Vec<Rect> = Vec::new();
        let mut c: usize = 0;
        while c < WIDTH
            invariant
                c <= WIDTH,
                width == COMMON_DIVISORS[self@.zoom],
                width <= 200,
                grid@ == self@.cells,
                match stamp {
                    Some(s) => self@.building_cells == Some(s@),
                    None => self@.building_cells is None,
                },
                rects@ == rects_before(self@, c * HEIGHT),
            decreases WIDTH - c,
        {
            let mut r: usize = 0;
            while r < HEIGHT
                invariant
                    c < WIDTH,
                    r <= HEIGHT,
                    width == COMMON_DIVISORS[self@.zoom],
                    width <= 200,
                    grid@ == self@.cells,
                    match stamp {
                        Some(s) => self@.building_cells == Some(s@),
                        None => self@.building_cells is None,
                    },
                    rects@ == rects_before(self@, c * HEIGHT + r),
                decreases HEIGHT - r,
            {
                let ghost before = rects@;
                if grid.get(c, r) == CellState::Alive {
                    rects.push(square(c, 0, r, 0, width, Layer::Live));
                }
                if let Some(s) = stamp {
                    if s.cells().get(c, r) == CellState::Alive {
                        rects.push(square(c, s.pos_x(), r, s.pos_y(), width, Layer::Stamp));
                    }
                }
                proof {
                    let n = c * HEIGHT + r + 1;
                    assert((n - 1) / (HEIGHT as int) == c);
                    assert((n - 1) % (HEIGHT as int) == r);
                    assert(rects@ =~= before + cell_rects(self@, c as int, r as int));
                }
                r += 1;
            }
            c += 1;
        }
        rects
    }

    /// The frame for the current state: the overlay if it is switched on,
    /// and the squares.
    pub fn draw(&self) -> (scene: Scene)
        ensures
            scene.columns@ == if self@.display_grid {
                line_offsets(SCREEN_WIDTH as int, line_step(self@.zoom))
            } else {
                Seq::empty()
            },
            scene.rows@ == if self@.display_grid {
                line_offsets(SCREEN_HEIGHT as int, line_step(self@.zoom))
            } else {
                Seq::empty()
            },
            scene.rects@ == rects_before(self@, WIDTH * HEIGHT),
    {
        let (columns, rows) = if self.display_grid() {
            self.draw_grid()
        } else {
            (Vec::new(), Vec::new())
        };
        Scene { columns, rows, rects: self.draw_cells() }
    }
}

} // verus!
