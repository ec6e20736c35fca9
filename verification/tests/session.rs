use snake_game::{BoundaryPolicy, Cell, Heading, Session, SessionOutcome};

// A fresh round on a walled 20 by 20 grid heads up from row 10: ten ticks
// reach row 0 and the eleventh is blocked.
fn run_into_the_wall(s: &mut Session) -> (SessionOutcome, u64) {
    for _ in 0..10 {
        assert_eq!(s.tick(), SessionOutcome::Continuing);
    }
    let round_score = s.round().score();
    (s.tick(), round_score)
}

#[test]
fn new_session_starts_clean() {
    let s = Session::new(3, 20, 20, BoundaryPolicy::Wall).unwrap();
    assert_eq!(s.lives(), 3);
    assert_eq!(s.score(), 0);
    assert!(!s.is_over());
    assert_eq!(s.round().score(), 0);
    assert_eq!(s.round().snake().cells(), vec![Cell { col: 10, row: 10 }, Cell { col: 10, row: 11 }]);
}

#[test]
fn new_session_needs_a_life_and_a_board() {
    assert!(Session::new(0, 20, 20, BoundaryPolicy::Wall).is_none());
    assert!(Session::new(3, 0, 20, BoundaryPolicy::Wall).is_none());
    assert!(Session::new(3, 20, 2, BoundaryPolicy::Wall).is_none());
    assert!(Session::new(1, 1, 3, BoundaryPolicy::Wall).is_some());
}

#[test]
fn three_failures_end_the_game() {
    let mut s = Session::new(3, 20, 20, BoundaryPolicy::Wall).unwrap();
    let mut sum: u128 = 0;

    let (outcome, score) = run_into_the_wall(&mut s);
    sum += score as u128;
    assert_eq!(outcome, SessionOutcome::LifeLost(2, sum));
    assert_eq!(s.lives(), 2);
    assert_eq!(s.score(), sum);
    assert!(!s.is_over());
    assert_eq!(s.round().score(), 0);
    assert_eq!(s.round().snake().len(), 2);

    let (outcome, score) = run_into_the_wall(&mut s);
    sum += score as u128;
    assert_eq!(outcome, SessionOutcome::LifeLost(1, sum));
    assert_eq!(s.lives(), 1);
    assert_eq!(s.score(), sum);

    let (outcome, score) = run_into_the_wall(&mut s);
    sum += score as u128;
    assert_eq!(outcome, SessionOutcome::GameOver(sum));
    assert_eq!(s.lives(), 0);
    assert_eq!(s.score(), sum);
    assert!(s.is_over());
}

#[test]
fn failed_round_score_is_added() {
    // On a single column of three rows the only free cell is straight ahead,
    // so the first tick always eats; the second is blocked by the wall.
    let mut s = Session::new(2, 1, 3, BoundaryPolicy::Wall).unwrap();
    assert_eq!(s.tick(), SessionOutcome::Continuing);
    assert_eq!(s.round().score(), 1);
    assert_eq!(s.tick(), SessionOutcome::LifeLost(1, 1));
    assert_eq!(s.round().score(), 0);
    assert_eq!(s.tick(), SessionOutcome::Continuing);
    assert_eq!(s.tick(), SessionOutcome::GameOver(2));
    assert_eq!(s.score(), 2);
    assert_eq!(s.lives(), 0);
}

#[test]
fn covering_the_board_wins() {
    let mut s = Session::new(2, 1, 3, BoundaryPolicy::Wrap).unwrap();
    assert_eq!(s.tick(), SessionOutcome::Continuing);
    assert_eq!(s.tick(), SessionOutcome::Won(2));
    assert!(s.is_over());
    assert_eq!(s.lives(), 2);
    assert_eq!(s.score(), 2);
}

#[test]
fn session_forwards_heading_requests() {
    let mut s = Session::new(3, 20, 20, BoundaryPolicy::Wall).unwrap();
    s.handle_direction(Heading::Down);
    assert_eq!(s.round().snake().pending_heading(), Heading::Up);
    s.handle_direction(Heading::Left);
    assert_eq!(s.round().snake().pending_heading(), Heading::Left);
    assert_eq!(s.tick(), SessionOutcome::Continuing);
    assert_eq!(s.round().snake().head(), Cell { col: 9, row: 10 });
    assert_eq!(s.lives(), 3);
    assert_eq!(s.score(), 0);
}

#[test]
fn queries_do_not_change_the_session() {
    let s = Session::new(3, 20, 20, BoundaryPolicy::Wall).unwrap();
    let first = s.round().render();
    for _ in 0..10 {
        let again = s.round().render();
        assert_eq!(again.snake, first.snake);
        assert_eq!(again.food, first.food);
        assert_eq!(s.lives(), 3);
        assert_eq!(s.score(), 0);
        assert!(!s.is_over());
    }
}
