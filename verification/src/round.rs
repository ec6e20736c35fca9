//! One life's worth of play: a snake, the food, the score, and the tick.

use vstd::prelude::*;
use crate::chance::thread_generator;
use crate::food::{has_free_cell, is_free, Food};
use crate::grid::{in_grid, BoundaryPolicy, Cell, Heading};
use crate::snake::{lemma_move_keeps_wf, MoveOutcome, Snake, SnakeModel};

verus! {

/// Result of one tick of a round.
#[derive(Clone, Copy, Debug, PartialEq, Eq, Structural)]
pub enum RoundOutcome {
    /// The snake moved and play goes on.
    Continuing,
    /// The move was illegal; the round ends with this score.
    Failed(u64),
    /// The snake ate and now covers the whole grid, so no food can be
    /// placed; the round ends with this score.
    Cleared(u64),
}

/// What a drawing routine needs: the body cells, head first, and the food.
pub struct Frame {
    pub snake: Vec<Cell>,
    pub food: Cell,
}

/// Mathematical model of a round.
pub struct RoundModel {
    pub cols: u32,
    pub rows: u32,
    pub policy: BoundaryPolicy,
    pub snake: SnakeModel,
    pub food: Cell,
    /// Food was eaten on the last tick; the body grows on the next one.
    pub just_ate: bool,
    pub score: nat,
}

/// The body a round starts with: two cells in the middle column, the head
/// above the tail.
pub open spec fn start_cells(cols: u32, rows: u32) -> Seq<Cell> {
    seq![
        Cell { col: cols / 2, row: rows / 2 },
        Cell { col: cols / 2, row: (rows / 2 + 1) as u32 },
    ]
}

/// Whether a grid can hold the starting body: it needs a column, and a row
/// below the middle one.
pub open spec fn can_start(cols: u32, rows: u32) -> bool {
    cols > 0 && rows >= 3
}

impl RoundModel {
    /// The invariant of a round. The grid is not empty; the snake has at
    /// least two distinct cells, all on the grid; the food is on the grid,
    /// and off the snake unless the snake covers the grid; and every point of
    /// the score is one cell of growth, done or still owed.
    pub open spec fn wf(self) -> bool {
        &&& self.cols > 0
        &&& self.rows > 0
        &&& self.snake.wf()
        &&& self.snake.cells.len() >= 2
        &&& self.snake.within(self.cols, self.rows)
        &&& in_grid(self.food, self.cols, self.rows)
        &&& (self.snake.cells.contains(self.food) ==> !has_free_cell(
            self.snake.cells,
            self.cols,
            self.rows,
        ))
        &&& self.score + 2 == self.snake.cells.len() + if self.just_ate {
            1nat
        } else {
            0nat
        }
    }

    /// A round as `Round::new` makes it, but for where the food lies.
    pub open spec fn is_fresh(self, cols: u32, rows: u32, policy: BoundaryPolicy) -> bool {
        &&& self.cols == cols
        &&& self.rows == rows
        &&& self.policy == policy
        &&& self.snake == (SnakeModel {
            cells: start_cells(cols, rows),
            applied: Heading::Up,
            pending: Heading::Up,
        })
        &&& is_free(self.snake.cells, self.food, cols, rows)
        &&& !self.just_ate
        &&& self.score == 0
    }

    /// What the snake's next move yields.
    pub open spec fn move_outcome(self) -> MoveOutcome {
        self.snake.outcome(self.policy, self.cols, self.rows)
    }

    /// The snake after the next tick: it grows exactly when food was eaten on
    /// the tick before.
    pub open spec fn moved_snake(self) -> SnakeModel {
        self.snake.after_move(self.policy, self.cols, self.rows, self.just_ate)
    }

    /// Whether the next tick moves the head onto the food.
    pub open spec fn eats(self) -> bool {
        self.move_outcome() == MoveOutcome::Moved(self.food)
    }

    /// What the next tick returns.
    pub open spec fn tick_outcome(self) -> RoundOutcome {
        match self.move_outcome() {
            MoveOutcome::Moved(_) => if self.eats() && !has_free_cell(
                self.moved_snake().cells,
                self.cols,
                self.rows,
            ) {
                RoundOutcome::Cleared((self.score + 1) as u64)
            } else {
                RoundOutcome::Continuing
            },
            _ => RoundOutcome::Failed(self.score as u64),
        }
    }

    /// Whether `next` can be the round after the next tick. An illegal move
    /// leaves the round as it is. A legal one moves the snake; if the head
    /// lands on the food, the score goes up by one, growth is owed, and the
    /// food goes to some free cell, or stays where no cell is free. Which
    /// free cell is the only thing left open.
    pub open spec fn steps_to(self, next: RoundModel) -> bool {
        match self.move_outcome() {
            MoveOutcome::Moved(_) => {
                &&& next.cols == self.cols
                &&& next.rows == self.rows
                &&& next.policy == self.policy
                &&& next.snake == self.moved_snake()
                &&& next.just_ate == self.eats()
                &&& next.score == self.score + if self.eats() {
                    1nat
                } else {
                    0nat
                }
                &&& if self.eats() && has_free_cell(next.snake.cells, self.cols, self.rows) {
                    is_free(next.snake.cells, next.food, self.cols, self.rows)
                } else {
                    next.food == self.food
                }
            },
            _ => next == self,
        }
    }

    /// The round after a heading request.
    pub open spec fn with_request(self, requested: Heading) -> RoundModel {
        RoundModel { snake: self.snake.with_request(requested), ..self }
    }
}

/// A tick keeps the invariant of a round; in particular the body never holds
/// a cell twice.
pub proof fn lemma_tick_keeps_wf(a: RoundModel, b: RoundModel)
    requires
        a.wf(),
        a.steps_to(b),
    ensures
        b.wf(),
        b.snake.cells.no_duplicates(),
{
    if let MoveOutcome::Moved(c) = a.move_outcome() {
        lemma_move_keeps_wf(a.snake, a.policy, a.cols, a.rows, a.just_ate);
        let before = a.snake.cells;
        let after = b.snake.cells;
        assert(is_free(before, c, a.cols, a.rows));
        assert(!before.contains(a.food));
        if c != a.food && after.contains(a.food) {
            let i = choose|i: int| 0 <= i < after.len() && after[i] == a.food;
            assert(i > 0);
            assert(before[i - 1] == a.food);
            assert(before.contains(a.food));
        }
    }
}

/// A round.
pub struct Round {
    cols: u32,
    rows: u32,
    policy: BoundaryPolicy,
    snake: Snake,
    food: Food,
    just_ate: bool,
    score: u64,
}

impl View for Round {
    type V = RoundModel;

    closed spec fn view(&self) -> RoundModel {
        RoundModel {
            cols: self.cols,
            rows: self.rows,
            policy: self.policy,
            snake: self.snake@,
            food: self.food.cell,
            just_ate: self.just_ate,
            score: self.score as nat,
        }
    }
}

impl Round {
    /// Starts a round on a `cols` by `rows` grid: the starting body heading
    /// up, the food on a free cell, no score. Returns `None` exactly when the
    /// grid cannot hold the starting body.
    pub fn new(cols: u32, rows: u32, policy: BoundaryPolicy) -> (r: Option<Round>)
        ensures
            r.is_some() == can_start(cols, rows),
            r matches Some(round) ==> round@.wf() && round@.is_fresh(cols, rows, policy),
    {
        if cols == 0 || rows < 3 {
            return None;
        }
        let head = Cell { col: cols / 2, row: rows / 2 };
        let tail = Cell { col: cols / 2, row: rows / 2 + 1 };
        let mut cells: Vec<Cell> = Vec::new();
        cells.push(head);
        cells.push(tail);
        assert(cells@ =~= start_cells(cols, rows));
        let snake = match Snake::from_cells(&cells, Heading::Up) {
            Some(s) => s,
            // Not taken: the two starting cells differ.
            None => {
                return None;
            },
        };
        let mut food = Food::at(head);
        let mut rng = thread_generator();
        proof {
            let corner = Cell { col: 0, row: 0 };
            assert(is_free(snake@.cells, corner, cols, rows));
        }
        // With three rows or more the top row is free, so the food is placed.
        if !food.relocate(&snake, cols, rows, &mut rng) {
            return None;
        }
        Some(Round { cols, rows, policy, snake, food, just_ate: false, score: 0 })
    }

    /// Builds a round from a given snake and food cell, with no growth owed
    /// and one point scored for each body cell beyond the second. Returns
    /// `None` unless the grid is not empty, the snake has at least two cells,
    /// all on the grid, and the food cell is free.
    pub fn with_layout(
        cols: u32,
        rows: u32,
        policy: BoundaryPolicy,
        snake: Snake,
        food: Cell,
    ) -> (r: Option<Round>)
        requires
            snake@.wf(),
        ensures
            r.is_some() == (cols > 0 && rows > 0 && snake@.cells.len() >= 2 && snake@.within(
                cols,
                rows,
            ) && is_free(snake@.cells, food, cols, rows)),
            r matches Some(round) ==> round@.wf() && round@ == (RoundModel {
                cols,
                rows,
                policy,
                snake: snake@,
                food,
                just_ate: false,
                score: (snake@.cells.len() - 2) as nat,
            }),
    {
        if cols == 0 || rows == 0 || snake.len() < 2 || !snake.fits(cols, rows) {
            return None;
        }
        if food.col >= cols || food.row >= rows || snake.occupies(food) {
            return None;
        }
        let score: u64 = (snake.len() - 2) as u64;
        Some(Round { cols, rows, policy, snake, food: Food::at(food), just_ate: false, score })
    }

    /// Advances the round by one step.
    ///
    /// The snake moves in its pending heading and grows if food was eaten on
    /// the tick before. An illegal move ends the round with `Failed` and
    /// changes nothing. If the head lands on the food, the score goes up by
    /// one, growth is owed to the next tick, and the food moves to a free
    /// cell; if none is free the round ends with `Cleared`.
    pub fn tick(&mut self) -> (outcome: RoundOutcome)
        requires
            old(self)@.wf(),
        ensures
            outcome == old(self)@.tick_outcome(),
            old(self)@.steps_to(final(self)@),
            final(self)@.wf(),
    {
        let grow = self.just_ate;
        match self.snake.attempt_move(self.policy, self.cols, self.rows, grow) {
            MoveOutcome::Moved(_) => {},
            _ => {
                return RoundOutcome::Failed(self.score);
            },
        }
        proof {
            self.snake.lemma_len_bounded();
        }
        let mut outcome = RoundOutcome::Continuing;
        self.just_ate = self.food.was_eaten(&self.snake);
        if self.just_ate {
            self.score = self.score + 1;
            let mut rng = thread_generator();
            if !self.food.relocate(&self.snake, self.cols, self.rows, &mut rng) {
                outcome = RoundOutcome::Cleared(self.score);
            }
        }
        proof {
            lemma_tick_keeps_wf(old(self)@, self@);
        }
        outcome
    }

    /// Passes a heading request to the snake. A request for the opposite of
    /// the applied heading is ignored.
    pub fn handle_direction(&mut self, heading: Heading)
        ensures
            final(self)@ == old(self)@.with_request(heading),
            old(self)@.wf() ==> final(self)@.wf(),
    {
        self.snake.set_heading(heading);
    }

    /// The cells to draw. The round stays as it is.
    pub fn render(&self) -> (frame: Frame)
        ensures
            frame.snake@ == self@.snake.cells,
            frame.food == self@.food,
    {
        Frame { snake: self.snake.cells(), food: self.food.cell }
    }

    /// The snake.
    pub fn snake(&self) -> (s: &Snake)
        ensures
            s@ == self@.snake,
    {
        &self.snake
    }

    /// The food.
    pub fn food(&self) -> (f: Food)
        ensures
            f.cell == self@.food,
    {
        self.food
    }

    /// Points scored in this round.
    pub fn score(&self) -> (s: u64)
        ensures
            s == self@.score,
    {
        self.score
    }

    /// Whether food was eaten on the last tick, so that the next one grows
    /// the body.
    pub fn just_ate(&self) -> (b: bool)
        ensures
            b == self@.just_ate,
    {
        self.just_ate
    }

    /// Number of columns.
    pub fn cols(&self) -> (n: u32)
        ensures
            n == self@.cols,
    {
        self.cols
    }

    /// Number of rows.
    pub fn rows(&self) -> (n: u32)
        ensures
            n == self@.rows,
    {
        self.rows
    }

    /// The boundary policy.
    pub fn policy(&self) -> (p: BoundaryPolicy)
        ensures
            p == self@.policy,
    {
        self.policy
    }
}

} // verus!
