//! The mathematical model of the grid: a torus of cells stored row by row,
//! the count of live neighbours, the step from one generation to the next,
//! and the text that shows a grid.

use crate::cell::Cell;
use vstd::arithmetic::div_mod::{
    lemma_fundamental_div_mod_converse, lemma_mod_add_multiples_vanish, lemma_small_mod,
};
use vstd::arithmetic::mul::lemma_mul_inequality;
use vstd::prelude::*;

verus! {

/// A grid of `height` rows and `width` columns. The cell in row `row` and
/// column `col` is `cells[row * width + col]`.
pub struct Grid {
    pub width: nat,
    pub height: nat,
    pub cells: Seq<Cell>,
}

/// The character that shows a cell in the text of a grid.
pub open spec fn glyph(cell: Cell) -> char {
    match cell {
        Cell::Dead => '\u{25fb}',
        Cell::Alive => '\u{25fc}',
    }
}

/// One step back and one step on from place `i` of a ring of `n` places:
/// the step back from the first place is the last place, and the step on from
/// the last place is the first.
pub proof fn lemma_ring(i: int, n: int)
    requires
        0 <= i < n,
    ensures
        i % n == i,
        (i - 1) % n == (if i == 0 {
            n - 1
        } else {
            i - 1
        }),
        (i + 1) % n == (if i == n - 1 {
            0
        } else {
            i + 1
        }),
{
    lemma_small_mod(i as nat, n as nat);
    if i == 0 {
        lemma_mod_add_multiples_vanish(-1, n);
        lemma_small_mod((n - 1) as nat, n as nat);
    } else {
        lemma_small_mod((i - 1) as nat, n as nat);
    }
    if i == n - 1 {
        lemma_mod_add_multiples_vanish(0, n);
        lemma_small_mod(0, n as nat);
    } else {
        lemma_small_mod((i + 1) as nat, n as nat);
    }
}

impl Grid {
    /// A grid has at least one cell, and one cell for each place.
    pub open spec fn wf(self) -> bool {
        &&& self.width > 0
        &&& self.height > 0
        &&& self.cells.len() == self.width * self.height
    }

    /// Whether `(row, col)` is a place of the grid.
    pub open spec fn contains(self, row: int, col: int) -> bool {
        0 <= row < self.height && 0 <= col < self.width
    }

    /// Where the cell at `(row, col)` stands in `cells`.
    pub open spec fn index(self, row: int, col: int) -> int {
        row * self.width + col
    }

    /// The cell at `(row, col)`.
    pub open spec fn at(self, row: int, col: int) -> Cell {
        self.cells[self.index(row, col)]
    }

    /// The cell at `(row, col)` on the torus: a row or column one past an
    /// edge is the first or last one on the other side.
    pub open spec fn around(self, row: int, col: int) -> Cell {
        self.at(row % (self.height as int), col % (self.width as int))
    }

    /// How many of the eight cells around `(row, col)` on the torus are alive.
    /// On a grid with fewer than three rows or columns one cell can stand at
    /// several of the eight places, the cell at `(row, col)` itself too, and
    /// counts once for each.
    pub open spec fn live_neighbours(self, row: int, col: int) -> nat {
        self.around(row - 1, col - 1).weight() + self.around(row - 1, col).weight()
            + self.around(row - 1, col + 1).weight() + self.around(row, col - 1).weight()
            + self.around(row, col + 1).weight() + self.around(row + 1, col - 1).weight()
            + self.around(row + 1, col).weight() + self.around(row + 1, col + 1).weight()
    }

    /// Whether `(other_row, other_col)` is one of the places around
    /// `(row, col)` on the torus, one step away along a row, a column or a
    /// diagonal, and not `(row, col)` itself.
    pub open spec fn adjacent(self, row: int, col: int, other_row: int, other_col: int) -> bool {
        &&& row != other_row || col != other_col
        &&& other_row == (row - 1) % (self.height as int) || other_row == row || other_row == (row
            + 1) % (self.height as int)
        &&& other_col == (col - 1) % (self.width as int) || other_col == col || other_col == (col
            + 1) % (self.width as int)
    }

    /// The state of the cell at `(row, col)` in the next generation.
    pub open spec fn next_at(self, row: int, col: int) -> Cell {
        self.at(row, col).evolved(self.live_neighbours(row, col))
    }

    /// The next generation: every cell takes its next state at once, each
    /// computed from this grid alone.
    pub open spec fn step(self) -> Grid {
        Grid {
            width: self.width,
            height: self.height,
            cells: Seq::new(
                self.cells.len(),
                |i: int| self.next_at(i / (self.width as int), i % (self.width as int)),
            ),
        }
    }

    /// The grid `generations` steps later.
    pub open spec fn after(self, generations: nat) -> Grid
        decreases generations,
    {
        if generations == 0 {
            self
        } else {
            self.step().after((generations - 1) as nat)
        }
    }

    /// The length of one line of the text: the cells of a row and a line feed.
    pub open spec fn line_len(self) -> int {
        self.width as int + 1
    }

    /// The text of the grid: one line for each row, each made of the glyphs of
    /// the row's cells and ended by a line feed.
    pub open spec fn text(self) -> Seq<char> {
        Seq::new(
            (self.height * self.line_len()) as nat,
            |i: int|
                if i % self.line_len() == self.width {
                    '\n'
                } else {
                    glyph(self.at(i / self.line_len(), i % self.line_len()))
                },
        )
    }

    /// A place of the grid has its cell in `cells`, and the index gives the
    /// place back.
    pub proof fn lemma_index(self, row: int, col: int)
        requires
            self.wf(),
            self.contains(row, col),
        ensures
            0 <= self.index(row, col) < self.cells.len(),
            self.index(row, col) / (self.width as int) == row,
            self.index(row, col) % (self.width as int) == col,
    {
        let w = self.width as int;
        let h = self.height as int;
        lemma_mul_inequality(row + 1, h, w);
        assert((row + 1) * w == row * w + w) by (nonlinear_arith);
        lemma_fundamental_div_mod_converse(self.index(row, col), w, row, col);
    }

    /// Where the glyph of a place and the line feed of a row stand in the
    /// text.
    pub proof fn lemma_text(self, row: int, col: int)
        requires
            self.wf(),
            0 <= row < self.height,
            0 <= col <= self.width,
        ensures
            0 <= row * self.line_len() + col < self.text().len(),
            col < self.width ==> self.text()[row * self.line_len() + col] == glyph(
                self.at(row, col),
            ),
            col == self.width ==> self.text()[row * self.line_len() + col] == '\n',
    {
        let len = self.line_len();
        let h = self.height as int;
        lemma_mul_inequality(row + 1, h, len);
        assert((row + 1) * len == row * len + len) by (nonlinear_arith);
        lemma_fundamental_div_mod_converse(row * len + col, len, row, col);
    }

    /// A step keeps the size of the grid and gives each place its next state.
    pub proof fn lemma_step(self)
        requires
            self.wf(),
        ensures
            self.step().wf(),
            self.step().width == self.width,
            self.step().height == self.height,
            forall|row: int, col: int|
                self.contains(row, col) ==> #[trigger] self.step().at(row, col) == self.next_at(
                    row,
                    col,
                ),
    {
        assert forall|row: int, col: int| self.contains(row, col) implies #[trigger] self.step().at(
            row,
            col,
        ) == self.next_at(row, col) by {
            self.lemma_index(row, col);
        }
    }
}

} // verus!
