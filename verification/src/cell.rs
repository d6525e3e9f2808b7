//! The state of one cell and the rule that gives its next state.

use vstd::prelude::*;

verus! {

/// One cell of the grid: dead or alive.
#[derive(Clone, Copy, Debug, PartialEq, Eq, Structural)]
pub enum Cell {
    Dead,
    Alive,
}

impl Cell {
    /// What the cell adds to a count of live cells: 0 when dead, 1 when alive.
    pub open spec fn weight(self) -> nat {
        match self {
            Cell::Dead => 0,
            Cell::Alive => 1,
        }
    }

    /// The state that a cell in state `self` takes in the next generation when
    /// `live_neighbours` of the cells around it are alive: a live cell stays
    /// alive with two or three live neighbours, a dead cell comes alive with
    /// exactly three, and every other cell is dead.
    pub open spec fn evolved(self, live_neighbours: nat) -> Cell {
        match self {
            Cell::Alive => if live_neighbours == 2 || live_neighbours == 3 {
                Cell::Alive
            } else {
                Cell::Dead
            },
            Cell::Dead => if live_neighbours == 3 {
                Cell::Alive
            } else {
                Cell::Dead
            },
        }
    }

    /// The state that a seeding draw stands for: alive for an even number,
    /// dead for an odd one.
    pub open spec fn of_draw(draw: int) -> Cell {
        if draw % 2 == 0 {
            Cell::Alive
        } else {
            Cell::Dead
        }
    }

    /// The cell as a number that can be summed: 0 when dead, 1 when alive.
    pub fn value(self) -> (n: u8)
        ensures
            n == self.weight(),
    {
        match self {
            Cell::Dead => 0,
            Cell::Alive => 1,
        }
    }

    /// Applies the transition rule to one cell.
    pub fn next(self, live_neighbours: u8) -> (cell: Cell)
        ensures
            cell == self.evolved(live_neighbours as nat),
    {
        match (self, live_neighbours) {
            // A live cell with fewer than two live neighbours dies.
            (Cell::Alive, x) if x < 2 => Cell::Dead,
            // A live cell with two or three live neighbours lives on.
            (Cell::Alive, 2) | (Cell::Alive, 3) => Cell::Alive,
            // A live cell with more than three live neighbours dies.
            (Cell::Alive, x) if x > 3 => Cell::Dead,
            // A dead cell with exactly three live neighbours comes alive.
            (Cell::Dead, 3) => Cell::Alive,
            // Every other cell keeps its state.
            (otherwise, _) => otherwise,
        }
    }

    /// Turns one seeding draw into a cell: an even draw gives a live cell, an
    /// odd draw a dead one.
    pub fn from_draw(draw: i32) -> (cell: Cell)
        ensures
            cell == Cell::of_draw(draw as int),
    {
        if draw % 2 == 0 {
            Cell::Alive
        } else {
            Cell::Dead
        }
    }
}

} // verus!
