//! How long a snake can get: no longer than the grid has cells, and exactly
//! that long when it covers the grid.

use vstd::prelude::*;
use vstd::arithmetic::div_mod::{lemma_fundamental_div_mod, lemma_mod_bound};
use vstd::set_lib::{lemma_int_range, lemma_len_subset, lemma_subset_equality, set_int_range};
use crate::food::{has_free_cell, is_free};
use crate::grid::{in_grid, Cell};
use crate::round::RoundModel;
use crate::snake::SnakeModel;

verus! {

/// Position of a cell when the grid is read row by row.
pub open spec fn cell_index(c: Cell, cols: u32) -> int {
    c.row * cols + c.col
}

/// The positions of the cells of a body, in body order.
pub open spec fn body_indices(cells: Seq<Cell>, cols: u32) -> Seq<int> {
    Seq::new(cells.len(), |i: int| cell_index(cells[i], cols))
}

/// A cell on the grid has a position below the number of cells.
proof fn lemma_index_in_range(c: Cell, cols: u32, rows: u32)
    requires
        in_grid(c, cols, rows),
    ensures
        0 <= cell_index(c, cols) < cols * rows,
{
    let (r, k, n, m) = (c.row as int, c.col as int, cols as int, rows as int);
    assert(0 <= r * n + k < n * m) by (nonlinear_arith)
        requires
            0 <= r < m,
            0 <= k < n,
    ;
}

/// Two cells of one grid with the same position are the same cell.
proof fn lemma_index_injective(a: Cell, b: Cell, cols: u32)
    requires
        a.col < cols,
        b.col < cols,
        cell_index(a, cols) == cell_index(b, cols),
    ensures
        a == b,
{
    let (ar, ak, br, bk, n) = (a.row as int, a.col as int, b.row as int, b.col as int, cols as int);
    assert(ar == br) by (nonlinear_arith)
        requires
            0 <= ak < n,
            0 <= bk < n,
            0 <= ar,
            0 <= br,
            ar * n + ak == br * n + bk,
    ;
}

/// Every position below the number of cells belongs to a cell on the grid.
proof fn lemma_index_onto(k: int, cols: u32, rows: u32) -> (c: Cell)
    requires
        0 <= k < cols * rows,
    ensures
        in_grid(c, cols, rows),
        cell_index(c, cols) == k,
{
    let n = cols as int;
    let m = rows as int;
    assert(n > 0) by (nonlinear_arith)
        requires
            0 <= k < n * m,
            n >= 0,
    ;
    lemma_fundamental_div_mod(k, n);
    lemma_mod_bound(k, n);
    let q = k / n;
    let r = k % n;
    assert(0 <= q < m) by (nonlinear_arith)
        requires
            k == n * q + r,
            0 <= r < n,
            0 <= k < n * m,
    ;
    assert(n * q == q * n) by (nonlinear_arith);
    Cell { col: r as u32, row: q as u32 }
}

/// A body of distinct cells on the grid has at most as many cells as the
/// grid, and has exactly as many when, and only when, no cell is free.
pub proof fn lemma_body_fits_grid(m: SnakeModel, cols: u32, rows: u32)
    requires
        m.cells.no_duplicates(),
        m.within(cols, rows),
    ensures
        m.cells.len() <= cols * rows,
        m.cells.len() == cols * rows <==> !has_free_cell(m.cells, cols, rows),
{
    let cells = m.cells;
    let total = cols * rows;
    let ints = body_indices(cells, cols);
    let all = set_int_range(0, total);
    assert(total >= 0) by (nonlinear_arith)
        requires
            total == cols * rows,
    ;
    lemma_int_range(0, total);
    assert forall|i: int, j: int| 0 <= i < ints.len() && 0 <= j < ints.len() && i != j implies ints[i]
        != ints[j] by {
        assert(in_grid(cells[i], cols, rows) && in_grid(cells[j], cols, rows));
        if ints[i] == ints[j] {
            lemma_index_injective(cells[i], cells[j], cols);
        }
    }
    ints.unique_seq_to_set();
    assert forall|k: int| ints.to_set().contains(k) implies all.contains(k) by {
        let i = choose|i: int| 0 <= i < ints.len() && ints[i] == k;
        assert(in_grid(cells[i], cols, rows));
        lemma_index_in_range(cells[i], cols, rows);
    }
    lemma_len_subset(ints.to_set(), all);
    if cells.len() == total {
        lemma_subset_equality(ints.to_set(), all);
        assert forall|c: Cell| !is_free(cells, c, cols, rows) by {
            if in_grid(c, cols, rows) {
                lemma_index_in_range(c, cols, rows);
                assert(all.contains(cell_index(c, cols)));
                assert(ints.to_set().contains(cell_index(c, cols)));
                let i = choose|i: int| 0 <= i < ints.len() && ints[i] == cell_index(c, cols);
                assert(in_grid(cells[i], cols, rows));
                lemma_index_injective(cells[i], c, cols);
                assert(cells.contains(c));
            }
        }
    }
    if !has_free_cell(cells, cols, rows) {
        assert forall|k: int| all.contains(k) implies ints.to_set().contains(k) by {
            let c = lemma_index_onto(k, cols, rows);
            assert(!is_free(cells, c, cols, rows));
            let i = choose|i: int| 0 <= i < cells.len() && cells[i] == c;
            assert(ints[i] == k);
            assert(ints.contains(k));
        }
        assert(ints.to_set() =~= all);
    }
}

/// The score of a round is bounded by the grid: no round scores more points
/// than the grid has cells beyond the two it starts with, less the growth
/// still owed.
pub proof fn lemma_score_bounded_by_grid(r: RoundModel)
    requires
        r.wf(),
    ensures
        r.score + 2 <= r.cols * r.rows + if r.just_ate {
            1nat
        } else {
            0nat
        },
{
    lemma_body_fits_grid(r.snake, r.cols, r.rows);
}

} // verus!
