//! The food item and the choice of the cell it moves to.

use rand::rngs::ThreadRng;
use vstd::prelude::*;
use crate::chance::sample_below;
use crate::grid::{in_grid, Cell};
use crate::snake::Snake;

verus! {

/// How many random cells `Food::relocate` draws before it falls back to a
/// scan of the board.
pub const MAX_SAMPLES: u32 = 64;

/// Whether `cell` lies on the grid and outside the body `cells`.
pub open spec fn is_free(cells: Seq<Cell>, cell: Cell, cols: u32, rows: u32) -> bool {
    in_grid(cell, cols, rows) && !cells.contains(cell)
}

/// Whether the grid has a cell outside the body `cells`.
pub open spec fn has_free_cell(cells: Seq<Cell>, cols: u32, rows: u32) -> bool {
    exists|c: Cell| is_free(cells, c, cols, rows)
}

/// Row-major order on cells: `a` comes strictly before `b`.
pub open spec fn precedes(a: Cell, b: Cell) -> bool {
    a.row < b.row || (a.row == b.row && a.col < b.col)
}

/// The food: one cell of the grid.
#[derive(Clone, Copy, Debug, PartialEq, Eq, Structural)]
pub struct Food {
    pub cell: Cell,
}

/// The first free cell of the grid in row-major order, or `None` exactly when
/// the body covers the whole grid.
pub fn first_free(snake: &Snake, cols: u32, rows: u32) -> (r: Option<Cell>)
    ensures
        match r {
            Some(c) => {
                &&& is_free(snake@.cells, c, cols, rows)
                &&& forall|d: Cell|
                    precedes(d, c) ==> !#[trigger] is_free(snake@.cells, d, cols, rows)
            },
            None => !has_free_cell(snake@.cells, cols, rows),
        },
{
    let mut row: u32 = 0;
    while row < rows
        invariant
            row <= rows,
            forall|d: Cell| d.row < row ==> !#[trigger] is_free(snake@.cells, d, cols, rows),
        decreases rows - row,
    {
        let mut col: u32 = 0;
        while col < cols
            invariant
                col <= cols,
                row < rows,
                forall|d: Cell| d.row < row ==> !#[trigger] is_free(snake@.cells, d, cols, rows),
                forall|d: Cell|
                    d.row == row && d.col < col ==> !#[trigger] is_free(
                        snake@.cells,
                        d,
                        cols,
                        rows,
                    ),
            decreases cols - col,
        {
            let here = Cell { col, row };
            if !snake.occupies(here) {
                return Some(here);
            }
            col += 1;
        }
        row += 1;
    }
    None
}

impl Food {
    /// Food at `cell`.
    pub fn at(cell: Cell) -> (f: Food)
        ensures
            f.cell == cell,
    {
        Food { cell }
    }

    /// Whether the snake's head is on the food.
    pub fn was_eaten(&self, snake: &Snake) -> (r: bool)
        requires
            snake@.wf(),
        ensures
            r == (snake@.cells[0] == self.cell),
    {
        snake.head() == self.cell
    }

    /// Whether the snake's head is on the food. The food itself stays as it
    /// is.
    pub fn update(&mut self, snake: &Snake) -> (r: bool)
        requires
            snake@.wf(),
        ensures
            r == (snake@.cells[0] == old(self).cell),
            *final(self) == *old(self),
    {
        self.was_eaten(snake)
    }

    /// Moves the food to `candidate` if that cell is free, and reports
    /// whether it did. A candidate off the grid or on the snake leaves the
    /// food where it was.
    pub fn settle(
        &mut self,
        snake: &Snake,
        cols: u32,
        rows: u32,
        candidate: Cell,
    ) -> (accepted: bool)
        ensures
            accepted == is_free(snake@.cells, candidate, cols, rows),
            final(self).cell == if accepted {
                candidate
            } else {
                old(self).cell
            },
    {
        if candidate.col < cols && candidate.row < rows && !snake.occupies(candidate) {
            self.cell = candidate;
            true
        } else {
            false
        }
    }

    /// Moves the food to a free cell of a `cols` by `rows` grid and reports
    /// whether there was one.
    ///
    /// Cells are drawn at random from the whole grid and the first free one
    /// is taken. After `MAX_SAMPLES` draws that all hit the snake, the first
    /// free cell in row-major order is taken instead. Where the snake covers
    /// the whole grid the food stays and the result is `false`.
    pub fn relocate(
        &mut self,
        snake: &Snake,
        cols: u32,
        rows: u32,
        rng: &mut ThreadRng,
    ) -> (placed: bool)
        requires
            cols > 0,
            rows > 0,
        ensures
            placed == has_free_cell(snake@.cells, cols, rows),
            placed ==> is_free(snake@.cells, final(self).cell, cols, rows),
            !placed ==> final(self).cell == old(self).cell,
    {
        let ghost start = self.cell;
        let mut draws: u32 = 0;
        while draws < MAX_SAMPLES
            invariant
                cols > 0,
                rows > 0,
                self.cell == start,
            decreases MAX_SAMPLES - draws,
        {
            let col = sample_below(rng, cols);
            let row = sample_below(rng, rows);
            if self.settle(snake, cols, rows, Cell { col, row }) {
                return true;
            }
            draws += 1;
        }
        match first_free(snake, cols, rows) {
            Some(c) => {
                self.cell = c;
                true
            },
            None => false,
        }
    }
}

} // verus!
