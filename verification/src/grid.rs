//! Cells, headings, the boundary policy and the arithmetic of one step.

use vstd::prelude::*;
use vstd::arithmetic::div_mod::{lemma_mod_add_multiples_vanish, lemma_mod_bound};

verus! {

/// A grid position: column first, row second. Row 0 is the top row.
#[derive(Clone, Copy, Debug, PartialEq, Eq, Structural)]
pub struct Cell {
    pub col: u32,
    pub row: u32,
}

/// Direction of travel.
#[derive(Clone, Copy, Debug, PartialEq, Eq, Structural)]
pub enum Heading {
    Up,
    Down,
    Left,
    Right,
}

/// What happens when a step would leave the grid.
#[derive(Clone, Copy, Debug, PartialEq, Eq, Structural)]
pub enum BoundaryPolicy {
    /// The step is illegal.
    Wall,
    /// The step re-enters at the opposite edge.
    Wrap,
}

/// Grid dimensions and the edge length of one cell in pixels.
#[derive(Clone, Copy, Debug, PartialEq, Eq, Structural)]
pub struct Board {
    pub cols: u32,
    pub rows: u32,
    pub cell_size: u32,
}

/// The heading that points the other way.
pub open spec fn opposite_of(h: Heading) -> Heading {
    match h {
        Heading::Up => Heading::Down,
        Heading::Down => Heading::Up,
        Heading::Left => Heading::Right,
        Heading::Right => Heading::Left,
    }
}

/// Column change of one step in direction `h`.
pub open spec fn col_delta(h: Heading) -> int {
    match h {
        Heading::Left => -1,
        Heading::Right => 1,
        _ => 0,
    }
}

/// Row change of one step in direction `h`.
pub open spec fn row_delta(h: Heading) -> int {
    match h {
        Heading::Up => -1,
        Heading::Down => 1,
        _ => 0,
    }
}

/// Whether `cell` lies on a grid of `cols` columns and `rows` rows.
pub open spec fn in_grid(cell: Cell, cols: u32, rows: u32) -> bool {
    cell.col < cols && cell.row < rows
}

/// Where coordinate `pos` lands on an axis of length `n` after moving by `d`:
/// under `Wall` the sum itself if it is on the axis, under `Wrap` the sum
/// modulo `n`.
pub open spec fn axis_target(pos: u32, d: int, n: u32, policy: BoundaryPolicy) -> Option<u32> {
    let t = pos + d;
    match policy {
        BoundaryPolicy::Wall => if 0 <= t < n {
            Some(t as u32)
        } else {
            None
        },
        BoundaryPolicy::Wrap => Some((t % (n as int)) as u32),
    }
}

/// The cell one step from `from` in direction `h`, or `None` where the policy
/// forbids the step.
pub open spec fn step_target(
    from: Cell,
    h: Heading,
    policy: BoundaryPolicy,
    cols: u32,
    rows: u32,
) -> Option<Cell> {
    match (
        axis_target(from.col, col_delta(h), cols, policy),
        axis_target(from.row, row_delta(h), rows, policy),
    ) {
        (Some(c), Some(r)) => Some(Cell { col: c, row: r }),
        _ => None,
    }
}

/// A step that is allowed ends on the grid.
pub proof fn lemma_step_lands_in_grid(
    from: Cell,
    h: Heading,
    policy: BoundaryPolicy,
    cols: u32,
    rows: u32,
)
    requires
        cols > 0,
        rows > 0,
    ensures
        step_target(from, h, policy, cols, rows) matches Some(c) ==> in_grid(c, cols, rows),
{
    lemma_mod_bound(from.col + col_delta(h), cols as int);
    lemma_mod_bound(from.row + row_delta(h), rows as int);
}

impl Heading {
    /// The heading that points the other way.
    pub fn opposite(self) -> (r: Heading)
        ensures
            r == opposite_of(self),
    {
        match self {
            Heading::Up => Heading::Down,
            Heading::Down => Heading::Up,
            Heading::Left => Heading::Right,
            Heading::Right => Heading::Left,
        }
    }

    /// Column change of one step, as a machine integer.
    fn col_step(self) -> (d: i8)
        ensures
            d as int == col_delta(self),
    {
        match self {
            Heading::Left => -1i8,
            Heading::Right => 1i8,
            _ => 0i8,
        }
    }

    /// Row change of one step, as a machine integer.
    fn row_step(self) -> (d: i8)
        ensures
            d as int == row_delta(self),
    {
        match self {
            Heading::Up => -1i8,
            Heading::Down => 1i8,
            _ => 0i8,
        }
    }
}

/// Moves one coordinate by `d` on an axis of length `n`. The sum is lifted by
/// `n` so that a step back from zero stays within unsigned arithmetic.
fn shift_axis(pos: u32, d: i8, n: u32, policy: BoundaryPolicy) -> (r: Option<u32>)
    requires
        n > 0,
        -1 <= d <= 1,
    ensures
        r == axis_target(pos, d as int, n, policy),
        r matches Some(t) ==> t < n,
{
    let base: u64 = pos as u64 + n as u64;
    let lifted: u64 = if d < 0 {
        base - 1
    } else if d > 0 {
        base + 1
    } else {
        base
    };
    let len: u64 = n as u64;
    match policy {
        BoundaryPolicy::Wall => {
            if lifted >= len && lifted - len < len {
                Some((lifted - len) as u32)
            } else {
                None
            }
        },
        BoundaryPolicy::Wrap => {
            let wrapped: u64 = lifted % len;
            proof {
                lemma_mod_add_multiples_vanish(pos as int + d as int, n as int);
                lemma_mod_bound(pos as int + d as int, n as int);
            }
            Some(wrapped as u32)
        },
    }
}

impl Default for BoundaryPolicy {
    /// Walls are the default: leaving the grid ends the round.
    fn default() -> (p: BoundaryPolicy)
        ensures
            p == BoundaryPolicy::Wall,
    {
        BoundaryPolicy::Wall
    }
}

impl Cell {
    /// One step from this cell in direction `h` on a `cols` by `rows` grid.
    /// Under `Wall` the result is `None` exactly when the step would leave the
    /// grid; under `Wrap` it re-enters at the opposite edge.
    pub fn step(self, h: Heading, policy: BoundaryPolicy, cols: u32, rows: u32) -> (r: Option<Cell>)
        requires
            cols > 0,
            rows > 0,
        ensures
            r == step_target(self, h, policy, cols, rows),
            r matches Some(c) ==> in_grid(c, cols, rows),
    {
        let col = shift_axis(self.col, h.col_step(), cols, policy);
        let row = shift_axis(self.row, h.row_step(), rows, policy);
        match (col, row) {
            (Some(c), Some(r)) => Some(Cell { col: c, row: r }),
            _ => None,
        }
    }
}

impl Board {
    /// Whether `cell` lies on the board.
    pub fn contains(&self, cell: Cell) -> (r: bool)
        ensures
            r == in_grid(cell, self.cols, self.rows),
    {
        cell.col < self.cols && cell.row < self.rows
    }

    /// Width of the board in pixels.
    pub fn width_px(&self) -> (w: u64)
        ensures
            w == self.cols * self.cell_size,
    {
        assert(self.cols * self.cell_size <= 0xffff_ffff * 0xffff_ffff) by (nonlinear_arith)
            requires
                self.cols <= 0xffff_ffff,
                self.cell_size <= 0xffff_ffff,
        ;
        self.cols as u64 * self.cell_size as u64
    }

    /// Height of the board in pixels.
    pub fn height_px(&self) -> (h: u64)
        ensures
            h == self.rows * self.cell_size,
    {
        assert(self.rows * self.cell_size <= 0xffff_ffff * 0xffff_ffff) by (nonlinear_arith)
            requires
                self.rows <= 0xffff_ffff,
                self.cell_size <= 0xffff_ffff,
        ;
        self.rows as u64 * self.cell_size as u64
    }

    /// Pixel coordinates of the top-left corner of `cell`.
    pub fn origin_px(&self, cell: Cell) -> (p: (u64, u64))
        ensures
            p.0 == cell.col * self.cell_size,
            p.1 == cell.row * self.cell_size,
    {
        assert(cell.col * self.cell_size <= 0xffff_ffff * 0xffff_ffff) by (nonlinear_arith)
            requires
                cell.col <= 0xffff_ffff,
                self.cell_size <= 0xffff_ffff,
        ;
        assert(cell.row * self.cell_size <= 0xffff_ffff * 0xffff_ffff) by (nonlinear_arith)
            requires
                cell.row <= 0xffff_ffff,
                self.cell_size <= 0xffff_ffff,
        ;
        (cell.col as u64 * self.cell_size as u64, cell.row as u64 * self.cell_size as u64)
    }
}

} // verus!
