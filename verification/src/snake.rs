//! The snake: an ordered body of distinct cells and its heading.

use std::collections::VecDeque;
use vstd::prelude::*;
use crate::grid::{
    in_grid, lemma_step_lands_in_grid, opposite_of, step_target, BoundaryPolicy, Cell, Heading,
};

verus! {

/// Result of one attempted move.
#[derive(Clone, Copy, Debug, PartialEq, Eq, Structural)]
pub enum MoveOutcome {
    /// The boundary policy forbids the step.
    Blocked,
    /// The target cell is already part of the body.
    SelfCollision,
    /// The snake moved; the cell is its new head.
    Moved(Cell),
}

/// Mathematical model of a snake.
pub struct SnakeModel {
    /// Body cells, head first.
    pub cells: Seq<Cell>,
    /// Heading used by the most recent move.
    pub applied: Heading,
    /// Heading the next move will use.
    pub pending: Heading,
}

impl SnakeModel {
    /// A snake has a head and no cell twice, and its pending heading never
    /// reverses the applied one.
    pub open spec fn wf(self) -> bool {
        &&& self.cells.len() >= 1
        &&& self.cells.no_duplicates()
        &&& self.pending != opposite_of(self.applied)
    }

    /// Every body cell lies on the grid.
    pub open spec fn within(self, cols: u32, rows: u32) -> bool {
        forall|i: int| 0 <= i < self.cells.len() ==> in_grid(#[trigger] self.cells[i], cols, rows)
    }

    /// The model after a heading request: a request for the opposite of the
    /// applied heading changes nothing, any other becomes the pending heading.
    pub open spec fn with_request(self, requested: Heading) -> SnakeModel {
        if requested == opposite_of(self.applied) {
            self
        } else {
            SnakeModel { pending: requested, ..self }
        }
    }

    /// What the next move yields: the pending heading is applied to the head
    /// under the policy, and the target is tested against the whole body.
    pub open spec fn outcome(self, policy: BoundaryPolicy, cols: u32, rows: u32) -> MoveOutcome {
        match step_target(self.cells[0], self.pending, policy, cols, rows) {
            None => MoveOutcome::Blocked,
            Some(c) => if self.cells.contains(c) {
                MoveOutcome::SelfCollision
            } else {
                MoveOutcome::Moved(c)
            },
        }
    }

    /// The model after the next move. A legal move puts the target in front
    /// and commits the pending heading; the tail stays exactly when `grow` is
    /// set. An illegal move changes nothing.
    pub open spec fn after_move(
        self,
        policy: BoundaryPolicy,
        cols: u32,
        rows: u32,
        grow: bool,
    ) -> SnakeModel {
        match self.outcome(policy, cols, rows) {
            MoveOutcome::Moved(c) => SnakeModel {
                cells: if grow {
                    seq![c] + self.cells
                } else {
                    seq![c] + self.cells.drop_last()
                },
                applied: self.pending,
                pending: self.pending,
            },
            _ => self,
        }
    }
}

/// Whether `cells` holds no cell twice among its first `n` entries.
spec fn distinct_prefix(cells: Seq<Cell>, n: int) -> bool {
    forall|i: int, j: int| 0 <= i < j < n ==> cells[i] != cells[j]
}

/// A move keeps the body free of duplicates, and on the grid if it was there.
pub proof fn lemma_move_keeps_wf(
    m: SnakeModel,
    policy: BoundaryPolicy,
    cols: u32,
    rows: u32,
    grow: bool,
)
    requires
        m.wf(),
        cols > 0,
        rows > 0,
    ensures
        m.after_move(policy, cols, rows, grow).wf(),
        m.within(cols, rows) ==> m.after_move(policy, cols, rows, grow).within(cols, rows),
        m.outcome(policy, cols, rows) matches MoveOutcome::Moved(c) ==> in_grid(c, cols, rows)
            && !m.cells.contains(c),
{
    if let MoveOutcome::Moved(c) = m.outcome(policy, cols, rows) {
        lemma_step_lands_in_grid(m.cells[0], m.pending, policy, cols, rows);
        let before = m.cells;
        let after = m.after_move(policy, cols, rows, grow).cells;
        assert forall|i: int, j: int| 0 <= i < j < after.len() implies after[i] != after[j] by {
            if i == 0 {
                assert(before.contains(before[j - 1]));
            } else {
                assert(after[i] == before[i - 1] && after[j] == before[j - 1]);
            }
        }
        if m.within(cols, rows) {
            assert forall|i: int| 0 <= i < after.len() implies in_grid(
                #[trigger] after[i],
                cols,
                rows,
            ) by {
                if i > 0 {
                    assert(after[i] == before[i - 1]);
                }
            }
        }
    }
}

/// The snake.
pub struct Snake {
    body: VecDeque<Cell>,
    applied: Heading,
    pending: Heading,
}

impl View for Snake {
    type V = SnakeModel;

    closed spec fn view(&self) -> SnakeModel {
        SnakeModel { cells: self.body@, applied: self.applied, pending: self.pending }
    }
}

impl Snake {
    /// Builds a snake from its cells, head first, travelling in `heading`.
    /// Returns `None` exactly when `cells` is empty or holds a cell twice.
    pub fn from_cells(cells: &Vec<Cell>, heading: Heading) -> (r: Option<Snake>)
        ensures
            r.is_some() <==> (cells@.len() >= 1 && cells@.no_duplicates()),
            r matches Some(s) ==> s@.wf() && s@ == (SnakeModel {
                cells: cells@,
                applied: heading,
                pending: heading,
            }),
    {
        if cells.len() == 0 {
            return None;
        }
        let mut body: VecDeque<Cell> = VecDeque::new();
        let mut i: usize = 0;
        while i < cells.len()
            invariant
                0 <= i <= cells.len(),
                body@ == cells@.subrange(0, i as int),
                distinct_prefix(cells@, i as int),
            decreases cells.len() - i,
        {
            let next = cells[i];
            let mut j: usize = 0;
            while j < i
                invariant
                    0 <= j <= i < cells.len(),
                    next == cells@[i as int],
                    forall|k: int| 0 <= k < j ==> cells@[k] != next,
                decreases i - j,
            {
                if cells[j] == next {
                    assert(!cells@.no_duplicates());
                    return None;
                }
                j += 1;
            }
            body.push_back(next);
            assert(body@ =~= cells@.subrange(0, i as int + 1));
            i += 1;
        }
        assert(body@ =~= cells@);
        Some(Snake { body, applied: heading, pending: heading })
    }

    /// Records `requested` as the heading of the next move, unless it is the
    /// opposite of the heading most recently applied; such a request is
    /// ignored. Only the pending heading can change.
    pub fn set_heading(&mut self, requested: Heading)
        ensures
            final(self)@ == old(self)@.with_request(requested),
            old(self)@.wf() ==> final(self)@.wf(),
    {
        if requested != self.applied.opposite() {
            self.pending = requested;
        }
    }

    /// Whether `cell` is part of the body.
    pub fn occupies(&self, cell: Cell) -> (r: bool)
        ensures
            r == self@.cells.contains(cell),
    {
        let mut i: usize = 0;
        while i < self.body.len()
            invariant
                0 <= i <= self.body@.len(),
                forall|k: int| 0 <= k < i ==> self.body@[k] != cell,
            decreases self.body@.len() - i,
        {
            if self.body[i] == cell {
                return true;
            }
            i += 1;
        }
        false
    }

    /// Whether the body covers column `x`, row `y`.
    pub fn collides(&self, x: u32, y: u32) -> (r: bool)
        ensures
            r == self@.cells.contains(Cell { col: x, row: y }),
    {
        self.occupies(Cell { col: x, row: y })
    }

    /// Moves one step in the pending heading on a `cols` by `rows` grid.
    ///
    /// The target is the head's neighbour under `policy`. The move is
    /// `Blocked` where the policy forbids it and a `SelfCollision` where the
    /// target is any body cell, the tail included; the snake is then left as
    /// it was. Otherwise the target becomes the head, the pending heading
    /// becomes the applied one, and the tail is dropped unless `grow` is set.
    pub fn attempt_move(
        &mut self,
        policy: BoundaryPolicy,
        cols: u32,
        rows: u32,
        grow: bool,
    ) -> (outcome: MoveOutcome)
        requires
            old(self)@.wf(),
            cols > 0,
            rows > 0,
        ensures
            outcome == old(self)@.outcome(policy, cols, rows),
            final(self)@ == old(self)@.after_move(policy, cols, rows, grow),
            final(self)@.wf(),
            old(self)@.within(cols, rows) ==> final(self)@.within(cols, rows),
    {
        let head = self.body[0];
        let target = match head.step(self.pending, policy, cols, rows) {
            None => {
                return MoveOutcome::Blocked;
            },
            Some(c) => c,
        };
        if self.occupies(target) {
            return MoveOutcome::SelfCollision;
        }
        let ghost before = self.body@;
        self.body.push_front(target);
        if !grow {
            self.body.pop_back();
            assert(self.body@ =~= seq![target] + before.drop_last());
        }
        self.applied = self.pending;
        proof {
            lemma_move_keeps_wf(old(self)@, policy, cols, rows, grow);
        }
        MoveOutcome::Moved(target)
    }

    /// Moves one step on a walled grid and reports whether the snake moved.
    /// The tail stays exactly when `just_ate` is set.
    pub fn update(&mut self, just_ate: bool, cols: u32, rows: u32) -> (moved: bool)
        requires
            old(self)@.wf(),
            cols > 0,
            rows > 0,
        ensures
            moved == (old(self)@.outcome(BoundaryPolicy::Wall, cols, rows) is Moved),
            final(self)@ == old(self)@.after_move(BoundaryPolicy::Wall, cols, rows, just_ate),
            final(self)@.wf(),
            old(self)@.within(cols, rows) ==> final(self)@.within(cols, rows),
    {
        match self.attempt_move(BoundaryPolicy::Wall, cols, rows, just_ate) {
            MoveOutcome::Moved(_) => true,
            _ => false,
        }
    }

    /// Whether every body cell lies on a `cols` by `rows` grid.
    pub fn fits(&self, cols: u32, rows: u32) -> (r: bool)
        ensures
            r == self@.within(cols, rows),
    {
        let mut i: usize = 0;
        while i < self.body.len()
            invariant
                0 <= i <= self.body@.len(),
                forall|k: int| 0 <= k < i ==> in_grid(#[trigger] self.body@[k], cols, rows),
            decreases self.body@.len() - i,
        {
            let c = self.body[i];
            if c.col >= cols || c.row >= rows {
                assert(!in_grid(self@.cells[i as int], cols, rows));
                return false;
            }
            i += 1;
        }
        true
    }

    /// The body is never longer than a machine word can count.
    pub proof fn lemma_len_bounded(&self)
        ensures
            self@.cells.len() <= usize::MAX,
    {
        let n = self.body.len();
    }

    /// Number of body cells.
    pub fn len(&self) -> (n: usize)
        ensures
            n == self@.cells.len(),
    {
        self.body.len()
    }

    /// The head cell.
    pub fn head(&self) -> (c: Cell)
        requires
            self@.wf(),
        ensures
            c == self@.cells[0],
    {
        self.body[0]
    }

    /// The body cells, head first.
    pub fn cells(&self) -> (v: Vec<Cell>)
        ensures
            v@ == self@.cells,
    {
        let mut v: Vec<Cell> = Vec::new();
        let mut i: usize = 0;
        while i < self.body.len()
            invariant
                0 <= i <= self.body@.len(),
                v@ == self.body@.subrange(0, i as int),
            decreases self.body@.len() - i,
        {
            v.push(self.body[i]);
            assert(v@ =~= self.body@.subrange(0, i as int + 1));
            i += 1;
        }
        assert(v@ =~= self.body@);
        v
    }

    /// The heading used by the most recent move.
    pub fn applied_heading(&self) -> (h: Heading)
        ensures
            h == self@.applied,
    {
        self.applied
    }

    /// The heading the next move will use.
    pub fn pending_heading(&self) -> (h: Heading)
        ensures
            h == self@.pending,
    {
        self.pending
    }
}

} // verus!
