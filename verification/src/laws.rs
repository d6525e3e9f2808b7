//! What holds of every grid and every universe: the size and the generation
//! count over any number of ticks, and the fate of a cell by the count of its
//! live neighbours.

use crate::cell::Cell;
use crate::grid::{lemma_ring, Grid};
use crate::universe::UniverseView;
use vstd::arithmetic::div_mod::{lemma_mod_add_multiples_vanish, lemma_small_mod};
use vstd::prelude::*;

verus! {

/// A universe that starts at generation 0 is at generation `ticks` after
/// `ticks` advancements; in general each advancement adds exactly one to the
/// count. The grid is then the one reached by that many steps.
pub proof fn lemma_generation_counts_ticks(universe: UniverseView, ticks: nat)
    ensures
        universe.after(ticks).generation == universe.generation + ticks,
        universe.generation == 0 ==> universe.after(ticks).generation == ticks,
        universe.after(ticks).grid == universe.grid.after(ticks),
    decreases ticks,
{
    if ticks > 0 {
        lemma_generation_counts_ticks(universe.tick(), (ticks - 1) as nat);
    }
}

/// The grid keeps its width and height, and one cell for each place, over any
/// number of steps.
pub proof fn lemma_size_is_kept(grid: Grid, generations: nat)
    requires
        grid.wf(),
    ensures
        grid.after(generations).wf(),
        grid.after(generations).width == grid.width,
        grid.after(generations).height == grid.height,
        grid.after(generations).cells.len() == grid.width * grid.height,
    decreases generations,
{
    if generations > 0 {
        grid.lemma_step();
        lemma_size_is_kept(grid.step(), (generations - 1) as nat);
    }
}

/// The next generation is a function of the grid alone: two universes with
/// the same width, height and cells have the same cells after a tick,
/// whatever their generation counts.
pub proof fn lemma_tick_reads_grid_only(first: UniverseView, second: UniverseView)
    requires
        first.grid.width == second.grid.width,
        first.grid.height == second.grid.height,
        first.grid.cells =~= second.grid.cells,
    ensures
        first.tick().grid == second.tick().grid,
{
}

/// The text of a universe is a function of its grid alone, so two snapshots
/// with no tick between them are the same text.
pub proof fn lemma_text_reads_grid_only(first: UniverseView, second: UniverseView)
    requires
        first.grid.width == second.grid.width,
        first.grid.height == second.grid.height,
        first.grid.cells =~= second.grid.cells,
    ensures
        first.grid.text() == second.grid.text(),
{
}

/// The grid is a torus. A whole turn of `height` rows or of `width` columns
/// comes back to the same cell, so the row before the first is the last and
/// the row after the last is the first, and likewise for the columns; and a
/// place of the grid is its own place on the torus.
pub proof fn lemma_torus(grid: Grid, row: int, col: int)
    requires
        grid.wf(),
    ensures
        grid.around(row + grid.height, col) == grid.around(row, col),
        grid.around(row, col + grid.width) == grid.around(row, col),
        grid.around(-1, col) == grid.around(grid.height - 1, col),
        grid.around(grid.height as int, col) == grid.around(0, col),
        grid.around(row, -1) == grid.around(row, grid.width - 1),
        grid.around(row, grid.width as int) == grid.around(row, 0),
        grid.contains(row, col) ==> grid.around(row, col) == grid.at(row, col),
{
    let h = grid.height as int;
    let w = grid.width as int;
    lemma_mod_add_multiples_vanish(row, h);
    lemma_mod_add_multiples_vanish(col, w);
    lemma_mod_add_multiples_vanish(-1, h);
    lemma_mod_add_multiples_vanish(-1, w);
    lemma_mod_add_multiples_vanish(0, h);
    lemma_mod_add_multiples_vanish(0, w);
    if grid.contains(row, col) {
        lemma_small_mod(row as nat, h as nat);
        lemma_small_mod(col as nat, w as nat);
    }
}

/// On a grid of at least three rows and three columns, a live cell with no
/// other live cell on the grid counts as one live neighbour at each of the
/// eight places around it on the torus, those across an edge too, and as none
/// at every other place, its own among them.
pub proof fn lemma_lone_cell_neighbours(
    grid: Grid,
    live_row: int,
    live_col: int,
    row: int,
    col: int,
)
    requires
        grid.wf(),
        grid.width >= 3,
        grid.height >= 3,
        grid.contains(live_row, live_col),
        grid.contains(row, col),
        forall|r: int, c: int|
            grid.contains(r, c) ==> (#[trigger] grid.at(r, c) == Cell::Alive <==> r == live_row
                && c == live_col),
    ensures
        grid.adjacent(live_row, live_col, row, col) ==> grid.live_neighbours(row, col) == 1,
        !grid.adjacent(live_row, live_col, row, col) ==> grid.live_neighbours(row, col) == 0,
        grid.adjacent(live_row, live_col, row, col) == grid.adjacent(row, col, live_row, live_col),
{
    let h = grid.height as int;
    let w = grid.width as int;
    lemma_ring(row, h);
    lemma_ring(col, w);
    lemma_ring(live_row, h);
    lemma_ring(live_col, w);
    let up = (row - 1) % h;
    let down = (row + 1) % h;
    let left = (col - 1) % w;
    let right = (col + 1) % w;
    assert(grid.contains(up, left) && grid.contains(up, col) && grid.contains(up, right));
    assert(grid.contains(row, left) && grid.contains(row, right));
    assert(grid.contains(down, left) && grid.contains(down, col) && grid.contains(down, right));
}

/// The count of live neighbours is at most eight.
pub proof fn lemma_at_most_eight_neighbours(grid: Grid, row: int, col: int)
    ensures
        grid.live_neighbours(row, col) <= 8,
{
}

/// A live cell with fewer than two live neighbours, such as one with none,
/// is dead in the next generation.
pub proof fn lemma_underpopulation(grid: Grid, row: int, col: int)
    requires
        grid.wf(),
        grid.contains(row, col),
        grid.at(row, col) == Cell::Alive,
        grid.live_neighbours(row, col) < 2,
    ensures
        grid.step().at(row, col) == Cell::Dead,
{
    grid.lemma_step();
}

/// A live cell with more than three live neighbours, such as one with all
/// eight, is dead in the next generation.
pub proof fn lemma_overpopulation(grid: Grid, row: int, col: int)
    requires
        grid.wf(),
        grid.contains(row, col),
        grid.at(row, col) == Cell::Alive,
        grid.live_neighbours(row, col) > 3,
    ensures
        grid.step().at(row, col) == Cell::Dead,
{
    grid.lemma_step();
}

/// A live cell with two or three live neighbours is alive in the next
/// generation.
pub proof fn lemma_survival(grid: Grid, row: int, col: int)
    requires
        grid.wf(),
        grid.contains(row, col),
        grid.at(row, col) == Cell::Alive,
        grid.live_neighbours(row, col) == 2 || grid.live_neighbours(row, col) == 3,
    ensures
        grid.step().at(row, col) == Cell::Alive,
{
    grid.lemma_step();
}

/// A dead cell is alive in the next generation with exactly three live
/// neighbours, and dead with any other count, two and four among them.
pub proof fn lemma_reproduction(grid: Grid, row: int, col: int)
    requires
        grid.wf(),
        grid.contains(row, col),
        grid.at(row, col) == Cell::Dead,
    ensures
        grid.live_neighbours(row, col) == 3 ==> grid.step().at(row, col) == Cell::Alive,
        grid.live_neighbours(row, col) != 3 ==> grid.step().at(row, col) == Cell::Dead,
{
    grid.lemma_step();
}

/// A grid that its own step leaves unchanged stays unchanged over any number
/// of steps.
pub proof fn lemma_still_life(grid: Grid, generations: nat)
    requires
        grid.step() == grid,
    ensures
        grid.after(generations) == grid,
    decreases generations,
{
    if generations > 0 {
        lemma_still_life(grid, (generations - 1) as nat);
    }
}

/// A grid that two steps bring back to itself is itself after every even
/// number of steps and its own step after every odd number.
pub proof fn lemma_period_two(grid: Grid, generations: nat)
    requires
        grid.step().step() == grid,
    ensures
        generations % 2 == 0 ==> grid.after(generations) == grid,
        generations % 2 == 1 ==> grid.after(generations) == grid.step(),
    decreases generations,
{
    if generations >= 2 {
        lemma_period_two(grid, (generations - 2) as nat);
        assert(grid.after(generations) == grid.step().after((generations - 1) as nat));
        assert(grid.step().after((generations - 1) as nat) == grid.step().step().after(
            (generations - 2) as nat,
        ));
    } else if generations == 1 {
        assert(grid.after(1) == grid.step().after(0));
    }
}

} // verus!
