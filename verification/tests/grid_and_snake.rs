use snake_game::{Board, BoundaryPolicy, Cell, Heading, MoveOutcome, Snake};

fn cell(col: u32, row: u32) -> Cell {
    Cell { col, row }
}

fn snake_of(cells: &[(u32, u32)], heading: Heading) -> Snake {
    let v: Vec<Cell> = cells.iter().map(|&(c, r)| cell(c, r)).collect();
    Snake::from_cells(&v, heading).unwrap()
}

#[test]
fn opposite_headings_pair_up() {
    assert_eq!(Heading::Up.opposite(), Heading::Down);
    assert_eq!(Heading::Down.opposite(), Heading::Up);
    assert_eq!(Heading::Left.opposite(), Heading::Right);
    assert_eq!(Heading::Right.opposite(), Heading::Left);
}

#[test]
fn step_inside_the_grid_is_the_same_under_both_policies() {
    for policy in [BoundaryPolicy::Wall, BoundaryPolicy::Wrap] {
        assert_eq!(cell(5, 5).step(Heading::Up, policy, 20, 20), Some(cell(5, 4)));
        assert_eq!(cell(5, 5).step(Heading::Down, policy, 20, 20), Some(cell(5, 6)));
        assert_eq!(cell(5, 5).step(Heading::Left, policy, 20, 20), Some(cell(4, 5)));
        assert_eq!(cell(5, 5).step(Heading::Right, policy, 20, 20), Some(cell(6, 5)));
    }
}

#[test]
fn wall_blocks_every_edge() {
    let p = BoundaryPolicy::Wall;
    assert_eq!(cell(3, 0).step(Heading::Up, p, 20, 10), None);
    assert_eq!(cell(3, 9).step(Heading::Down, p, 20, 10), None);
    assert_eq!(cell(0, 3).step(Heading::Left, p, 20, 10), None);
    assert_eq!(cell(19, 3).step(Heading::Right, p, 20, 10), None);
    assert_eq!(cell(3, 8).step(Heading::Down, p, 20, 10), Some(cell(3, 9)));
    assert_eq!(cell(18, 3).step(Heading::Right, p, 20, 10), Some(cell(19, 3)));
}

#[test]
fn wrap_reenters_at_every_edge() {
    let p = BoundaryPolicy::Wrap;
    assert_eq!(cell(3, 0).step(Heading::Up, p, 20, 10), Some(cell(3, 9)));
    assert_eq!(cell(3, 9).step(Heading::Down, p, 20, 10), Some(cell(3, 0)));
    assert_eq!(cell(0, 3).step(Heading::Left, p, 20, 10), Some(cell(19, 3)));
    assert_eq!(cell(19, 3).step(Heading::Right, p, 20, 10), Some(cell(0, 3)));
}

#[test]
fn step_from_off_grid_cell() {
    assert_eq!(cell(25, 3).step(Heading::Up, BoundaryPolicy::Wall, 20, 10), None);
    assert_eq!(cell(25, 3).step(Heading::Up, BoundaryPolicy::Wrap, 20, 10), Some(cell(5, 2)));
    assert_eq!(
        cell(u32::MAX, 0).step(Heading::Right, BoundaryPolicy::Wrap, 10, 10),
        Some(cell(6, 0))
    );
    assert_eq!(cell(u32::MAX, 0).step(Heading::Right, BoundaryPolicy::Wall, 10, 10), None);
}

#[test]
fn step_on_a_single_cell_grid() {
    assert_eq!(cell(0, 0).step(Heading::Left, BoundaryPolicy::Wrap, 1, 1), Some(cell(0, 0)));
    assert_eq!(cell(0, 0).step(Heading::Left, BoundaryPolicy::Wall, 1, 1), None);
}

#[test]
fn board_geometry() {
    let b = Board { cols: 20, rows: 15, cell_size: 20 };
    assert_eq!(b.width_px(), 400);
    assert_eq!(b.height_px(), 300);
    assert_eq!(b.origin_px(cell(3, 7)), (60, 140));
    assert!(b.contains(cell(19, 14)));
    assert!(!b.contains(cell(20, 14)));
    assert!(!b.contains(cell(19, 15)));
    let big = Board { cols: u32::MAX, rows: 1, cell_size: u32::MAX };
    assert_eq!(big.width_px(), (u32::MAX as u64) * (u32::MAX as u64));
}

#[test]
fn from_cells_rejects_empty_and_repeated() {
    assert!(Snake::from_cells(&vec![], Heading::Up).is_none());
    assert!(Snake::from_cells(&vec![cell(1, 1), cell(2, 1), cell(1, 1)], Heading::Up).is_none());
    assert!(Snake::from_cells(&vec![cell(1, 1), cell(1, 1)], Heading::Up).is_none());
    let s = Snake::from_cells(&vec![cell(1, 1), cell(2, 1)], Heading::Left).unwrap();
    assert_eq!(s.cells(), vec![cell(1, 1), cell(2, 1)]);
    assert_eq!(s.len(), 2);
    assert_eq!(s.head(), cell(1, 1));
    assert_eq!(s.applied_heading(), Heading::Left);
    assert_eq!(s.pending_heading(), Heading::Left);
}

#[test]
fn occupies_and_collides_agree() {
    let s = snake_of(&[(4, 4), (4, 5), (5, 5)], Heading::Up);
    assert!(s.occupies(cell(4, 4)));
    assert!(s.occupies(cell(5, 5)));
    assert!(!s.occupies(cell(5, 4)));
    assert!(s.collides(4, 5));
    assert!(!s.collides(5, 4));
    assert!(s.fits(6, 6));
    assert!(!s.fits(5, 6));
    assert!(!s.fits(6, 5));
}

#[test]
fn reverse_request_is_ignored() {
    let mut s = snake_of(&[(10, 10), (10, 11)], Heading::Up);
    s.set_heading(Heading::Down);
    assert_eq!(s.pending_heading(), Heading::Up);
    assert_eq!(s.applied_heading(), Heading::Up);
    s.set_heading(Heading::Left);
    assert_eq!(s.pending_heading(), Heading::Left);
    assert_eq!(s.applied_heading(), Heading::Up);
    assert_eq!(s.cells(), vec![cell(10, 10), cell(10, 11)]);
}

#[test]
fn reversal_is_judged_against_the_applied_heading() {
    let mut s = snake_of(&[(10, 10), (10, 11)], Heading::Up);
    s.set_heading(Heading::Left);
    // Down reverses the applied heading, though not the pending one.
    s.set_heading(Heading::Down);
    assert_eq!(s.pending_heading(), Heading::Left);
    // Right reverses the pending heading only, and is accepted.
    s.set_heading(Heading::Right);
    assert_eq!(s.pending_heading(), Heading::Right);
    assert_eq!(s.attempt_move(BoundaryPolicy::Wall, 20, 20, false), MoveOutcome::Moved(cell(11, 10)));
    assert_eq!(s.applied_heading(), Heading::Right);
    s.set_heading(Heading::Left);
    assert_eq!(s.pending_heading(), Heading::Right);
}

#[test]
fn move_without_growth_keeps_length() {
    let mut s = snake_of(&[(10, 10), (10, 11)], Heading::Up);
    assert_eq!(s.attempt_move(BoundaryPolicy::Wall, 20, 20, false), MoveOutcome::Moved(cell(10, 9)));
    assert_eq!(s.cells(), vec![cell(10, 9), cell(10, 10)]);
}

#[test]
fn move_with_growth_keeps_tail() {
    let mut s = snake_of(&[(10, 10), (10, 11)], Heading::Up);
    assert_eq!(s.attempt_move(BoundaryPolicy::Wall, 20, 20, true), MoveOutcome::Moved(cell(10, 9)));
    assert_eq!(s.cells(), vec![cell(10, 9), cell(10, 10), cell(10, 11)]);
}

#[test]
fn wrap_left_from_first_column() {
    let mut s = snake_of(&[(0, 7), (1, 7)], Heading::Left);
    assert_eq!(s.attempt_move(BoundaryPolicy::Wrap, 20, 20, false), MoveOutcome::Moved(cell(19, 7)));
    assert_eq!(s.head(), cell(19, 7));
    assert_eq!(s.cells(), vec![cell(19, 7), cell(0, 7)]);
}

#[test]
fn wall_left_from_first_column_is_blocked() {
    let mut s = snake_of(&[(0, 7), (1, 7)], Heading::Left);
    assert_eq!(s.attempt_move(BoundaryPolicy::Wall, 20, 20, false), MoveOutcome::Blocked);
    assert_eq!(s.cells(), vec![cell(0, 7), cell(1, 7)]);
    assert_eq!(s.applied_heading(), Heading::Left);
}

#[test]
fn wall_blocks_at_last_row_and_column() {
    let mut s = snake_of(&[(5, 19), (5, 18)], Heading::Down);
    assert_eq!(s.attempt_move(BoundaryPolicy::Wall, 20, 20, false), MoveOutcome::Blocked);
    let mut t = snake_of(&[(19, 5), (18, 5)], Heading::Right);
    assert_eq!(t.attempt_move(BoundaryPolicy::Wall, 20, 20, false), MoveOutcome::Blocked);
}

#[test]
fn running_into_the_body_is_a_collision() {
    // A hook: the head at (5,5) turns left into (4,5), which the body holds.
    let mut s = snake_of(&[(5, 5), (5, 6), (4, 6), (4, 5), (4, 4)], Heading::Up);
    s.set_heading(Heading::Left);
    assert_eq!(s.attempt_move(BoundaryPolicy::Wall, 20, 20, false), MoveOutcome::SelfCollision);
    assert_eq!(s.cells(), vec![cell(5, 5), cell(5, 6), cell(4, 6), cell(4, 5), cell(4, 4)]);
    assert_eq!(s.applied_heading(), Heading::Up);
    assert_eq!(s.pending_heading(), Heading::Left);
}

#[test]
fn moving_onto_the_tail_is_a_collision() {
    // A closed square: the head's target is the tail cell.
    let mut s = snake_of(&[(5, 5), (5, 6), (4, 6), (4, 5)], Heading::Up);
    s.set_heading(Heading::Left);
    assert_eq!(s.attempt_move(BoundaryPolicy::Wall, 20, 20, false), MoveOutcome::SelfCollision);
    assert_eq!(s.len(), 4);
}

#[test]
fn update_reports_whether_the_snake_moved() {
    let mut s = snake_of(&[(10, 1), (10, 2)], Heading::Up);
    assert!(s.update(false, 20, 20));
    assert_eq!(s.cells(), vec![cell(10, 0), cell(10, 1)]);
    assert!(!s.update(false, 20, 20));
    assert_eq!(s.cells(), vec![cell(10, 0), cell(10, 1)]);
    s.set_heading(Heading::Right);
    assert!(s.update(true, 20, 20));
    assert_eq!(s.cells(), vec![cell(11, 0), cell(10, 0), cell(10, 1)]);
}

#[test]
fn body_stays_distinct_over_a_long_walk() {
    let mut s = snake_of(&[(3, 3), (3, 4)], Heading::Up);
    let turns = [Heading::Left, Heading::Down, Heading::Right, Heading::Up, Heading::Up, Heading::Left];
    let mut last_len = s.len();
    for step in 0..200 {
        s.set_heading(turns[step % turns.len()]);
        let grow = step % 3 == 0;
        let before = s.len();
        match s.attempt_move(BoundaryPolicy::Wrap, 7, 7, grow) {
            MoveOutcome::Moved(c) => {
                assert_eq!(s.head(), c);
                assert_eq!(s.len(), before + if grow { 1 } else { 0 });
            }
            _ => assert_eq!(s.len(), before),
        }
        assert!(s.len() >= last_len);
        last_len = s.len();
        let cells = s.cells();
        for i in 0..cells.len() {
            for j in (i + 1)..cells.len() {
                assert_ne!(cells[i], cells[j]);
            }
        }
        assert!(s.fits(7, 7));
    }
}

#[test]
fn default_policy_is_wall() {
    assert_eq!(BoundaryPolicy::default(), BoundaryPolicy::Wall);
}
