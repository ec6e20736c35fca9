//! General facts about play, proved from the models of the snake and the
//! round.

use vstd::prelude::*;
use crate::grid::{opposite_of, Heading};
use crate::food::{has_free_cell, is_free};
use crate::round::{lemma_tick_keeps_wf, RoundModel, RoundOutcome};
use crate::session::SessionModel;
use crate::snake::{lemma_move_keeps_wf, MoveOutcome, SnakeModel};

verus! {

/// The round after the heading requests `requests`, made in order.
pub open spec fn after_requests(r: RoundModel, requests: Seq<Heading>) -> RoundModel
    decreases requests.len(),
{
    if requests.len() == 0 {
        r
    } else {
        after_requests(r, requests.drop_last()).with_request(requests.last())
    }
}

/// A request for the opposite of the applied heading changes nothing; any
/// other request becomes the pending heading and changes nothing else.
pub proof fn lemma_reverse_request_ignored(m: SnakeModel, requested: Heading)
    ensures
        requested == opposite_of(m.applied) ==> m.with_request(requested) == m,
        requested != opposite_of(m.applied) ==> m.with_request(requested) == (SnakeModel {
            pending: requested,
            ..m
        }),
        m.with_request(requested).cells == m.cells,
        m.with_request(requested).applied == m.applied,
{
}

/// Heading requests, however many, touch nothing but the pending heading,
/// and keep the round valid.
pub proof fn lemma_requests_touch_only_pending(r: RoundModel, requests: Seq<Heading>)
    ensures
        after_requests(r, requests) == (RoundModel {
            snake: SnakeModel {
                pending: after_requests(r, requests).snake.pending,
                ..r.snake
            },
            ..r
        }),
        r.wf() ==> after_requests(r, requests).wf(),
    decreases requests.len(),
{
    if requests.len() > 0 {
        lemma_requests_touch_only_pending(r, requests.drop_last());
    }
}

/// The last request wins: after any requests, one more that does not reverse
/// the applied heading decides the pending heading.
pub proof fn lemma_last_request_wins(r: RoundModel, requests: Seq<Heading>, last: Heading)
    requires
        last != opposite_of(r.snake.applied),
    ensures
        after_requests(r, requests.push(last)).snake.pending == last,
{
    lemma_requests_touch_only_pending(r, requests);
    assert(requests.push(last).drop_last() =~= requests);
}

/// A tick never shortens the body: a legal move lengthens it by one if food
/// was eaten on the tick before and keeps its length otherwise, and an
/// illegal move leaves it alone.
pub proof fn lemma_length_never_shrinks(a: RoundModel, b: RoundModel)
    requires
        a.wf(),
        a.steps_to(b),
    ensures
        b.snake.cells.len() >= a.snake.cells.len(),
        b.snake.cells.len() == a.snake.cells.len() + if a.just_ate && a.move_outcome() is Moved {
            1nat
        } else {
            0nat
        },
{
}

/// Growth follows eating by exactly one tick. Take a tick that eats, then
/// any heading requests, then a second tick with a legal move: the second
/// tick lengthens the body by one, and the first one scored a point.
pub proof fn lemma_growth_follows_eating(
    a: RoundModel,
    b: RoundModel,
    requests: Seq<Heading>,
    c: RoundModel,
)
    requires
        a.wf(),
        a.eats(),
        a.steps_to(b),
        after_requests(b, requests).move_outcome() is Moved,
        after_requests(b, requests).steps_to(c),
    ensures
        c.snake.cells.len() == b.snake.cells.len() + 1,
        b.score == a.score + 1,
{
    lemma_tick_keeps_wf(a, b);
    lemma_requests_touch_only_pending(b, requests);
    lemma_length_never_shrinks(after_requests(b, requests), c);
}

/// Without eating there is no growth. Take a tick with a legal move that
/// does not reach the food, then any heading requests, then a second tick:
/// the second tick keeps the length of the body, and the first one scored
/// nothing.
pub proof fn lemma_no_growth_without_eating(
    a: RoundModel,
    b: RoundModel,
    requests: Seq<Heading>,
    c: RoundModel,
)
    requires
        a.wf(),
        a.move_outcome() is Moved,
        !a.eats(),
        a.steps_to(b),
        after_requests(b, requests).steps_to(c),
    ensures
        c.snake.cells.len() == b.snake.cells.len(),
        b.score == a.score,
{
    lemma_tick_keeps_wf(a, b);
    lemma_requests_touch_only_pending(b, requests);
    lemma_length_never_shrinks(after_requests(b, requests), c);
}

/// Ticks and heading requests keep the invariant of a round, so at no point
/// of play does the body hold a cell twice.
pub proof fn lemma_body_stays_distinct(
    a: RoundModel,
    requests: Seq<Heading>,
    b: RoundModel,
)
    requires
        a.wf(),
        after_requests(a, requests).steps_to(b),
    ensures
        b.wf(),
        b.snake.cells.no_duplicates(),
{
    lemma_requests_touch_only_pending(a, requests);
    lemma_tick_keeps_wf(after_requests(a, requests), b);
}

/// A snake that covers the whole grid cannot move: every cell it could step
/// to is its own, so the next tick fails.
pub proof fn lemma_covered_grid_is_terminal(a: RoundModel)
    requires
        a.wf(),
        !has_free_cell(a.snake.cells, a.cols, a.rows),
    ensures
        !(a.move_outcome() is Moved),
        a.tick_outcome() == RoundOutcome::Failed(a.score as u64),
{
    lemma_move_keeps_wf(a.snake, a.policy, a.cols, a.rows, a.just_ate);
    if let MoveOutcome::Moved(c) = a.move_outcome() {
        assert(is_free(a.snake.cells, c, a.cols, a.rows));
    }
}

/// After a tick the food is off the snake, unless the snake covers the grid.
pub proof fn lemma_food_stays_off_snake(a: RoundModel, b: RoundModel)
    requires
        a.wf(),
        a.steps_to(b),
        has_free_cell(b.snake.cells, b.cols, b.rows),
    ensures
        !b.snake.cells.contains(b.food),
{
    lemma_tick_keeps_wf(a, b);
}

/// A tick of a session keeps its invariant. It takes a life exactly when the
/// round fails, and then exactly one; the cumulative score grows by the score
/// of a round that ends and is otherwise unchanged; and the session is over
/// exactly when the last life went or the grid was covered.
pub proof fn lemma_session_accounts(a: SessionModel, b: SessionModel)
    requires
        a.wf(),
        a.active,
        a.steps_to(b),
    ensures
        b.wf(),
        b.lives == a.lives - if a.round.tick_outcome() is Failed {
            1nat
        } else {
            0nat
        },
        b.total == a.total + match a.round.tick_outcome() {
            RoundOutcome::Continuing => 0,
            RoundOutcome::Failed(score) => score,
            RoundOutcome::Cleared(score) => score,
        },
        !b.active <==> (b.lives == 0 || a.round.tick_outcome() is Cleared),
{
    match a.round.tick_outcome() {
        RoundOutcome::Failed(_) => {
            if a.lives > 1 {
                lemma_fresh_round_is_valid(b.round);
            }
        },
        _ => {
            lemma_tick_keeps_wf(a.round, b.round);
        },
    }
}

/// A fresh round on a grid that can hold the starting body is valid.
pub proof fn lemma_fresh_round_is_valid(r: RoundModel)
    requires
        crate::round::can_start(r.cols, r.rows),
        r.is_fresh(r.cols, r.rows, r.policy),
    ensures
        r.wf(),
{
    let cells = r.snake.cells;
    assert(cells[0] != cells[1]);
}

} // verus!
