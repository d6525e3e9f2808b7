//! The universe: a grid of cells with its generation counter, and the
//! operations that build it, advance it by one generation and show it.

use crate::cell::Cell;
use crate::grid::{glyph, lemma_ring, Grid};
use crate::random::gen_range;
use rand::thread_rng;
use vstd::prelude::*;

verus! {

/// Why a universe could not be built.
#[derive(Clone, Copy, Debug, PartialEq, Eq, Structural)]
pub enum UniverseError {
    /// The width or the height is zero, or the grid would have more cells
    /// than a buffer can hold.
    InvalidDimensions,
    /// The number of cells given is not the width times the height.
    LengthMismatch,
}

/// Whether a grid of this width and height has at least one cell and no more
/// cells than a buffer can hold, which is `isize::MAX`.
pub open spec fn valid_dimensions(width: usize, height: usize) -> bool {
    width > 0 && height > 0 && width * height <= isize::MAX
}

/// What a universe is: its grid and the number of generations it has gone
/// through.
pub struct UniverseView {
    pub generation: nat,
    pub grid: Grid,
}

impl UniverseView {
    /// The universe one generation later.
    pub open spec fn tick(self) -> UniverseView {
        UniverseView { generation: self.generation + 1, grid: self.grid.step() }
    }

    /// The universe after `ticks` advancements.
    pub open spec fn after(self, ticks: nat) -> UniverseView
        decreases ticks,
    {
        if ticks == 0 {
            self
        } else {
            self.tick().after((ticks - 1) as nat)
        }
    }
}

/// A grid of cells on a torus together with the count of generations that it
/// has gone through.
pub struct Universe {
    generation: usize,
    width: usize,
    height: usize,
    cells: Vec<Cell>,
}

impl View for Universe {
    type V = UniverseView;

    closed spec fn view(&self) -> UniverseView {
        UniverseView {
            generation: self.generation as nat,
            grid: Grid {
                width: self.width as nat,
                height: self.height as nat,
                cells: self.cells@,
            },
        }
    }
}

/// The place before `i` on a ring of `n` places.
fn ring_prev(i: usize, n: usize) -> (j: usize)
    requires
        i < n,
    ensures
        j < n,
        j == (i - 1) % (n as int),
{
    proof {
        lemma_ring(i as int, n as int);
    }
    if i == 0 {
        n - 1
    } else {
        i - 1
    }
}

/// The place after `i` on a ring of `n` places.
fn ring_next(i: usize, n: usize) -> (j: usize)
    requires
        i < n,
    ensures
        j < n,
        j == (i + 1) % (n as int),
{
    proof {
        lemma_ring(i as int, n as int);
    }
    if i == n - 1 {
        0
    } else {
        i + 1
    }
}

/// The number of cells of a grid of this width and height, where the
/// dimensions are valid.
fn cell_count(width: usize, height: usize) -> (count: Option<usize>)
    ensures
        count is Some <==> valid_dimensions(width, height),
        count matches Some(n) ==> n == width * height,
{
    if width == 0 || height == 0 {
        None
    } else {
        match width.checked_mul(height) {
            Some(count) if count <= isize::MAX as usize => Some(count),
            _ => None,
        }
    }
}

/// The glyph of a cell as a string of one character.
fn symbol(cell: Cell) -> (text: &'static str)
    ensures
        text@ == seq![glyph(cell)],
{
    proof {
        reveal_strlit("\u{25fb}");
        reveal_strlit("\u{25fc}");
    }
    match cell {
        Cell::Dead => "\u{25fb}",
        Cell::Alive => "\u{25fc}",
    }
}

impl Universe {
    /// The universe holds a grid with at least one cell and one cell for each
    /// place.
    pub open spec fn wf(&self) -> bool {
        self@.grid.wf()
    }

    /// Builds a universe at generation 0 and seeds it at random: for each cell
    /// a number is drawn from 0 up to 99, and the cell is alive where the draw
    /// is even.
    pub fn new(width: usize, height: usize) -> (made: Result<Universe, UniverseError>)
        ensures
            made is Ok <==> valid_dimensions(width, height),
            made matches Ok(universe) ==> {
                &&& universe.wf()
                &&& universe@.generation == 0
                &&& universe@.grid.width == width
                &&& universe@.grid.height == height
                &&& universe@.grid.cells.len() == width * height
                &&& forall|i: int|
                    0 <= i < universe@.grid.cells.len() ==> {
                        let cell = #[trigger] universe@.grid.cells[i];
                        cell == Cell::Dead || cell == Cell::Alive
                    }
            },
            made matches Err(error) ==> error == UniverseError::InvalidDimensions,
    {
        let count = match cell_count(width, height) {
            Some(count) => count,
            None => {
                return Err(UniverseError::InvalidDimensions);
            },
        };
        let mut rng = thread_rng();
        let mut cells: Vec<Cell> = Vec::with_capacity(count);
        let mut seeded: usize = 0;
        while seeded < count
            invariant
                seeded <= count,
                cells.len() == seeded,
            decreases count - seeded,
        {
            let draw = gen_range(&mut rng, 0, 100);
            cells.push(Cell::from_draw(draw));
            seeded += 1;
        }
        Universe::from_cells(width, height, cells)
    }

    /// Builds a universe at generation 0 from the cells of its grid, given
    /// row by row.
    pub fn from_cells(width: usize, height: usize, cells: Vec<Cell>) -> (made: Result<
        Universe,
        UniverseError,
    >)
        ensures
            made is Ok <==> valid_dimensions(width, height) && cells.len() == width * height,
            made matches Ok(universe) ==> universe.wf() && universe@ == (UniverseView {
                generation: 0,
                grid: Grid { width: width as nat, height: height as nat, cells: cells@ },
            }),
            made matches Err(error) ==> error == (if valid_dimensions(width, height) {
                UniverseError::LengthMismatch
            } else {
                UniverseError::InvalidDimensions
            }),
    {
        match cell_count(width, height) {
            None => Err(UniverseError::InvalidDimensions),
            Some(count) => {
                if cells.len() == count {
                    Ok(Universe { generation: 0, width, height, cells })
                } else {
                    Err(UniverseError::LengthMismatch)
                }
            },
        }
    }

    /// Advances the universe by one generation and returns the new count of
    /// generations. Every cell takes its next state at once: each is computed
    /// from the grid as it was before the call.
    pub fn tick(&mut self) -> (generation: usize)
        requires
            old(self).wf(),
            old(self)@.generation < usize::MAX,
        ensures
            final(self).wf(),
            final(self)@ == old(self)@.tick(),
            generation == final(self)@.generation,
    {
        let ghost before = self@.grid;
        let mut next = self.cells.clone();
        let mut row: usize = 0;
        while row < self.height
            invariant
                self.wf(),
                self@.grid == before,
                row <= self.height,
                next.len() == self.cells.len(),
                forall|i: int| 0 <= i < row * self.width ==> next@[i] == before.step().cells[i],
            decreases self.height - row,
        {
            let mut col: usize = 0;
            while col < self.width
                invariant
                    self.wf(),
                    self@.grid == before,
                    row < self.height,
                    col <= self.width,
                    next.len() == self.cells.len(),
                    forall|i: int|
                        0 <= i < row * self.width + col ==> next@[i] == before.step().cells[i],
                decreases self.width - col,
            {
                let idx = self.get_idx(row, col);
                let cell = self.cells[idx];
                let live_neighbours = self.live_neighbour_cnt(row, col);
                let next_cell = cell.next(live_neighbours);
                proof {
                    before.lemma_index(row as int, col as int);
                }
                next[idx] = next_cell;
                col += 1;
            }
            proof {
                assert(row * self.width + self.width == (row + 1) * self.width)
                    by (nonlinear_arith);
            }
            row += 1;
        }
        proof {
            assert(row * self.width == self.width * self.height) by (nonlinear_arith)
                requires
                    row == self.height,
            ;
            assert(next@ =~= before.step().cells);
        }
        self.cells = next;
        self.generation += 1;
        self.generation
    }

    /// Shows the grid as text: one line for each row, a glyph for each cell,
    /// and a line feed after every row, the last one too. The universe is not
    /// changed.
    pub fn render(&self) -> (text: String)
        requires
            self.wf(),
        ensures
            text@ == self@.grid.text(),
    {
        let ghost grid = self@.grid;
        let mut text = String::new();
        let mut row: usize = 0;
        while row < self.height
            invariant
                self.wf(),
                self@.grid == grid,
                row <= self.height,
                text@ == grid.text().take(row * grid.line_len()),
            decreases self.height - row,
        {
            let mut col: usize = 0;
            while col < self.width
                invariant
                    self.wf(),
                    self@.grid == grid,
                    row < self.height,
                    col <= self.width,
                    text@ == grid.text().take(row * grid.line_len() + col),
                decreases self.width - col,
            {
                let cell = self.cells[self.get_idx(row, col)];
                proof {
                    grid.lemma_text(row as int, col as int);
                }
                text.append(symbol(cell));
                col += 1;
            }
            proof {
                grid.lemma_text(row as int, col as int);
                reveal_strlit("\n");
                assert((row + 1) * grid.line_len() == row * grid.line_len() + self.width + 1)
                    by (nonlinear_arith)
                    requires
                        grid.line_len() == self.width + 1,
                ;
            }
            text.append("\n");
            row += 1;
        }
        text
    }

    /// The number of columns of the grid.
    pub fn width(&self) -> (width: usize)
        ensures
            width == self@.grid.width,
    {
        self.width
    }

    /// The number of rows of the grid.
    pub fn height(&self) -> (height: usize)
        ensures
            height == self@.grid.height,
    {
        self.height
    }

    /// The number of generations that the universe has gone through.
    pub fn generation(&self) -> (generation: usize)
        ensures
            generation == self@.generation,
    {
        self.generation
    }

    /// The cells of the grid, row by row.
    pub fn cells(&self) -> (cells: &Vec<Cell>)
        ensures
            cells@ == self@.grid.cells,
    {
        &self.cells
    }

    /// The index in the row-by-row buffer of the cell at `(row, col)`.
    pub fn get_idx(&self, row: usize, col: usize) -> (idx: usize)
        requires
            self.wf(),
            self@.grid.contains(row as int, col as int),
        ensures
            idx == self@.grid.index(row as int, col as int),
            idx < self@.grid.cells.len(),
    {
        proof {
            self@.grid.lemma_index(row as int, col as int);
            assert(self.cells@.len() == self.cells.len());
        }
        row * self.width + col
    }

    /// Counts the live cells among the eight cells around `(row, col)` on the
    /// torus.
    pub fn live_neighbour_cnt(&self, row: usize, col: usize) -> (count: u8)
        requires
            self.wf(),
            self@.grid.contains(row as int, col as int),
        ensures
            count == self@.grid.live_neighbours(row as int, col as int),
            count <= 8,
    {
        let up = ring_prev(row, self.height);
        let down = ring_next(row, self.height);
        let left = ring_prev(col, self.width);
        let right = ring_next(col, self.width);
        proof {
            lemma_ring(row as int, self.height as int);
            lemma_ring(col as int, self.width as int);
        }
        let mut count: u8 = 0;
        count += self.cells[self.get_idx(up, left)].value();
        count += self.cells[self.get_idx(up, col)].value();
        count += self.cells[self.get_idx(up, right)].value();
        count += self.cells[self.get_idx(row, left)].value();
        count += self.cells[self.get_idx(row, right)].value();
        count += self.cells[self.get_idx(down, left)].value();
        count += self.cells[self.get_idx(down, col)].value();
        count += self.cells[self.get_idx(down, right)].value();
        count
    }
}

} // verus!
