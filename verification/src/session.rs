//! The whole game: rounds played one after another until the lives run out.

use vstd::prelude::*;
use crate::grid::{BoundaryPolicy, Heading};
use crate::round::{can_start, Round, RoundModel, RoundOutcome};

verus! {

/// Result of one tick of a session.
#[derive(Clone, Copy, Debug, PartialEq, Eq, Structural)]
pub enum SessionOutcome {
    /// The round goes on.
    Continuing,
    /// The round failed and a new one began: lives left, cumulative score.
    LifeLost(u32, u128),
    /// The round failed and no life is left: cumulative score.
    GameOver(u128),
    /// The snake covered the whole grid: cumulative score.
    Won(u128),
}

/// Mathematical model of a session.
pub struct SessionModel {
    pub lives: nat,
    /// Sum of the scores of the rounds that have ended.
    pub total: nat,
    pub round: RoundModel,
    /// Whether the session can still be ticked.
    pub active: bool,
}

/// One more than the largest score a round can report.
pub open spec fn round_score_limit() -> nat {
    0x1_0000_0000_0000_0000
}

impl SessionModel {
    /// The invariant of a session. Its round is valid and can be started
    /// anew; an active session has a life left, and room in its cumulative
    /// score for every round it can still lose.
    pub open spec fn wf(self) -> bool {
        &&& self.round.wf()
        &&& can_start(self.round.cols, self.round.rows)
        &&& self.lives <= u32::MAX
        &&& self.total <= u128::MAX
        &&& self.active ==> self.lives > 0 && self.total + self.lives * round_score_limit()
            <= u128::MAX
    }

    /// What the next tick returns.
    pub open spec fn tick_outcome(self) -> SessionOutcome {
        match self.round.tick_outcome() {
            RoundOutcome::Continuing => SessionOutcome::Continuing,
            RoundOutcome::Failed(score) => if self.lives == 1 {
                SessionOutcome::GameOver((self.total + score) as u128)
            } else {
                SessionOutcome::LifeLost((self.lives - 1) as u32, (self.total + score) as u128)
            },
            RoundOutcome::Cleared(score) => SessionOutcome::Won((self.total + score) as u128),
        }
    }

    /// Whether `next` can be the session after the next tick. While the
    /// round goes on, only the round changes. A failed round costs one life
    /// and adds its score to the total; with a life left a fresh round on the
    /// same grid takes its place, without one the session ends. A cleared
    /// round adds its score and ends the session.
    pub open spec fn steps_to(self, next: SessionModel) -> bool {
        match self.round.tick_outcome() {
            RoundOutcome::Continuing => {
                &&& next.lives == self.lives
                &&& next.total == self.total
                &&& next.active
                &&& self.round.steps_to(next.round)
            },
            RoundOutcome::Failed(score) => {
                &&& next.lives == self.lives - 1
                &&& next.total == self.total + score
                &&& next.active == (self.lives > 1)
                &&& if self.lives > 1 {
                    next.round.is_fresh(self.round.cols, self.round.rows, self.round.policy)
                } else {
                    next.round == self.round
                }
            },
            RoundOutcome::Cleared(score) => {
                &&& next.lives == self.lives
                &&& next.total == self.total + score
                &&& !next.active
                &&& self.round.steps_to(next.round)
            },
        }
    }
}

/// A session.
pub struct Session {
    lives: u32,
    total: u128,
    round: Round,
    active: bool,
}

impl View for Session {
    type V = SessionModel;

    closed spec fn view(&self) -> SessionModel {
        SessionModel {
            lives: self.lives as nat,
            total: self.total as nat,
            round: self.round@,
            active: self.active,
        }
    }
}

impl Session {
    /// Starts a session with `lives` lives, no score and a first round on a
    /// `cols` by `rows` grid. Returns `None` exactly when `lives` is zero or
    /// the grid cannot hold the starting body.
    pub fn new(lives: u32, cols: u32, rows: u32, policy: BoundaryPolicy) -> (r: Option<Session>)
        ensures
            r.is_some() == (lives > 0 && can_start(cols, rows)),
            r matches Some(s) ==> {
                &&& s@.wf()
                &&& s@.active
                &&& s@.lives == lives
                &&& s@.total == 0
                &&& s@.round.is_fresh(cols, rows, policy)
            },
    {
        if lives == 0 {
            return None;
        }
        match Round::new(cols, rows, policy) {
            Some(round) => Some(Session { lives, total: 0, round, active: true }),
            None => None,
        }
    }

    /// Advances the session by one step of its round.
    ///
    /// A round that goes on leaves lives and score alone. A failed round
    /// costs a life and adds its score to the total; the result is
    /// `LifeLost` with a fresh round in place, or `GameOver` when that was
    /// the last life. A cleared round adds its score and ends the session
    /// with `Won`. A session that has ended must not be ticked.
    pub fn tick(&mut self) -> (outcome: SessionOutcome)
        requires
            old(self)@.wf(),
            old(self)@.active,
        ensures
            outcome == old(self)@.tick_outcome(),
            old(self)@.steps_to(final(self)@),
            final(self)@.wf(),
    {
        match self.round.tick() {
            RoundOutcome::Continuing => SessionOutcome::Continuing,
            RoundOutcome::Failed(score) => {
                self.total = self.total + score as u128;
                self.lives = self.lives - 1;
                if self.lives == 0 {
                    self.active = false;
                    SessionOutcome::GameOver(self.total)
                } else {
                    match Round::new(self.round.cols(), self.round.rows(), self.round.policy()) {
                        Some(round) => {
                            self.round = round;
                        },
                        // Not taken: the grid held the round that failed.
                        None => {},
                    }
                    SessionOutcome::LifeLost(self.lives, self.total)
                }
            },
            RoundOutcome::Cleared(score) => {
                self.total = self.total + score as u128;
                self.active = false;
                SessionOutcome::Won(self.total)
            },
        }
    }

    /// Passes a heading request to the active round.
    pub fn handle_direction(&mut self, heading: Heading)
        ensures
            final(self)@ == (SessionModel {
                round: old(self)@.round.with_request(heading),
                ..old(self)@
            }),
            old(self)@.wf() ==> final(self)@.wf(),
    {
        self.round.handle_direction(heading);
    }

    /// Lives left.
    pub fn lives(&self) -> (n: u32)
        ensures
            n == self@.lives,
    {
        self.lives
    }

    /// Sum of the scores of the rounds that have ended.
    pub fn score(&self) -> (s: u128)
        ensures
            s == self@.total,
    {
        self.total
    }

    /// Whether the session has ended.
    pub fn is_over(&self) -> (b: bool)
        ensures
            b == !self@.active,
    {
        !self.active
    }

    /// The round in play.
    pub fn round(&self) -> (r: &Round)
        ensures
            r@ == self@.round,
    {
        &self.round
    }
}

} // verus!
