use double_snake::board::{Board, BoardState, CellFill, Dir, GridPosition, SnakeColor};

fn pos(x: i32, y: i32) -> GridPosition {
    GridPosition { x, y }
}

#[test]
fn initial_board_layout() {
    let board = Board::new();
    assert_eq!(board.get_state(), BoardState::Running);
    assert_eq!(board.get_scores(), (1, 1));
    let b1 = board.snake1_body();
    let b2 = board.snake2_body();
    assert_eq!(b1, vec![pos(0, 0)]);
    assert_eq!(b2, vec![pos(7, 7)]);
    let food = board.get_food();
    assert!(food.in_bounds());
    assert!(!b1.contains(&food));
    assert!(!b2.contains(&food));
}

#[test]
fn scenario_first_tick_wraps() {
    // Both snakes face right; snake 2 sits on the right edge, so its first
    // step wraps to the left edge.
    let mut board = Board::new();
    board.update(None, None);
    assert_eq!(board.snake1_body()[0], pos(1, 0));
    assert_eq!(board.snake2_body()[0], pos(0, 7));
}

#[test]
fn wraparound_all_edges() {
    let mut board = Board::from_parts(
        vec![pos(7, 3)],
        Dir::Right,
        vec![pos(0, 4)],
        Dir::Left,
        pos(3, 0),
        7,
    );
    board.update(None, None);
    assert_eq!(board.snake1_body()[0], pos(0, 3));
    assert_eq!(board.snake2_body()[0], pos(7, 4));

    let mut board = Board::from_parts(
        vec![pos(2, 0)],
        Dir::Up,
        vec![pos(5, 7)],
        Dir::Down,
        pos(3, 3),
        7,
    );
    board.update(None, None);
    assert_eq!(board.snake1_body()[0], pos(2, 7));
    assert_eq!(board.snake2_body()[0], pos(5, 0));
}

#[test]
fn scenario_eat_food_grows_and_relocates() {
    let mut board = Board::from_parts(
        vec![pos(0, 0)],
        Dir::Right,
        vec![pos(5, 5)],
        Dir::Down,
        pos(1, 0),
        42,
    );
    board.update(None, None);
    assert_eq!(board.get_state(), BoardState::Running);
    let b1 = board.snake1_body();
    let b2 = board.snake2_body();
    assert_eq!(b1.len(), 2);
    assert_eq!(b2.len(), 1);
    assert_eq!(b1[0], pos(1, 0));
    let food = board.get_food();
    assert!(food.in_bounds());
    assert!(!b1.contains(&food));
    assert!(!b2.contains(&food));
    assert_eq!(board.get_scores(), (2, 1));
}

#[test]
fn scores_reflect_growth_history() {
    // Two growth events for snake 1, none for snake 2: snake 2 slides left
    // along the bottom row while snake 1 chases the food.
    let mut board = Board::from_parts(
        vec![pos(0, 0)],
        Dir::Right,
        vec![pos(7, 7)],
        Dir::Left,
        pos(1, 0),
        9,
    );
    board.update(None, None);
    assert_eq!(board.snake1_body().len(), 2);
    let mut guard = 0;
    while board.get_scores().0 == 2 && board.get_state() == BoardState::Running && guard < 100 {
        let head = board.snake1_body()[0];
        let food = board.get_food();
        let dir = if head.x < food.x {
            Dir::Right
        } else if head.x > food.x {
            Dir::Left
        } else if head.y < food.y {
            Dir::Down
        } else {
            Dir::Up
        };
        board.update(Some(dir), None);
        guard += 1;
    }
    if board.get_state() == BoardState::Running && guard < 100 {
        let (s1, s2) = board.get_scores();
        assert_eq!(s1, board.snake1_body().len());
        assert_eq!(s2, board.snake2_body().len());
        assert_eq!(s1, 3);
    }
}

#[test]
fn tick_never_shrinks_a_snake() {
    let mut board = Board::new();
    for i in 0..30 {
        if board.get_state() != BoardState::Running {
            break;
        }
        let (s1, s2) = board.get_scores();
        let dir = match i % 4 {
            0 => Some(Dir::Right),
            1 => Some(Dir::Down),
            2 => Some(Dir::Left),
            _ => Some(Dir::Up),
        };
        board.update(dir, None);
        let (n1, n2) = board.get_scores();
        assert!(n1 == s1 || n1 == s1 + 1);
        assert!(n2 == s2 || n2 == s2 + 1);
    }
}

#[test]
fn food_never_on_a_body_while_running() {
    let mut board = Board::new_seeded(3);
    for i in 0..40 {
        if board.get_state() != BoardState::Running {
            break;
        }
        let food = board.get_food();
        assert!(!board.snake1_body().contains(&food));
        assert!(!board.snake2_body().contains(&food));
        let dir = match i % 3 {
            0 => Some(Dir::Down),
            1 => Some(Dir::Right),
            _ => None,
        };
        board.update(dir, Some(Dir::Up));
    }
}

#[test]
fn scenario_head_to_head_is_a_draw() {
    // Both computed heads land on (4, 3); snake 2's body also contains snake
    // 1's head afterwards, but head-to-head takes priority over everything.
    let mut board = Board::from_parts(
        vec![pos(3, 3), pos(2, 3)],
        Dir::Right,
        vec![pos(5, 3), pos(6, 3)],
        Dir::Left,
        pos(0, 0),
        1,
    );
    board.update(None, None);
    assert_eq!(board.get_state(), BoardState::BothLost);
}

#[test]
fn scenario_mutual_collision_favors_player_two() {
    // The heads swap cells: each lands inside the other's body, heads
    // distinct. The fixed evaluation order judges snake 1 to have lost first.
    let mut board = Board::from_parts(
        vec![pos(3, 3), pos(2, 3)],
        Dir::Right,
        vec![pos(4, 3), pos(5, 3)],
        Dir::Left,
        pos(0, 0),
        1,
    );
    board.update(None, None);
    assert_eq!(board.get_state(), BoardState::Won { is_player2: true });
}

#[test]
fn self_collision_loses_the_game() {
    // Snake 2 reverses into its own tail cell's replacement: with a body of
    // three, stepping back onto the second segment is a self collision.
    let mut board = Board::from_parts(
        vec![pos(0, 6)],
        Dir::Right,
        vec![pos(4, 4), pos(3, 4), pos(2, 4)],
        Dir::Right,
        pos(7, 7),
        1,
    );
    board.update(None, Some(Dir::Left));
    assert_eq!(board.get_state(), BoardState::Won { is_player2: false });
}

#[test]
fn terminal_state_is_idempotent() {
    let mut board = Board::from_parts(
        vec![pos(3, 3), pos(2, 3)],
        Dir::Right,
        vec![pos(5, 3), pos(6, 3)],
        Dir::Left,
        pos(0, 0),
        1,
    );
    board.update(None, None);
    assert_eq!(board.get_state(), BoardState::BothLost);
    let b1 = board.snake1_body();
    let b2 = board.snake2_body();
    let food = board.get_food();
    let dirs = [None, Some(Dir::Up), Some(Dir::Left), Some(Dir::Down), Some(Dir::Right)];
    for d1 in dirs.iter() {
        for d2 in dirs.iter() {
            board.update(*d1, *d2);
            assert_eq!(board.get_state(), BoardState::BothLost);
            assert_eq!(board.snake1_body(), b1);
            assert_eq!(board.snake2_body(), b2);
            assert_eq!(board.get_food(), food);
        }
    }
}

#[test]
fn reset_restores_the_initial_layout() {
    let mut board = Board::from_parts(
        vec![pos(3, 3), pos(2, 3)],
        Dir::Right,
        vec![pos(4, 3), pos(5, 3)],
        Dir::Left,
        pos(0, 0),
        1,
    );
    board.update(None, None);
    assert_ne!(board.get_state(), BoardState::Running);
    board.reset();
    assert_eq!(board.get_state(), BoardState::Running);
    assert_eq!(board.get_scores(), (1, 1));
    assert_eq!(board.snake1_body(), vec![pos(0, 0)]);
    assert_eq!(board.snake2_body(), vec![pos(7, 7)]);
}

#[test]
fn cell_fill_while_running() {
    let board = Board::from_parts(
        vec![pos(2, 2), pos(1, 2)],
        Dir::Right,
        vec![pos(5, 5)],
        Dir::Up,
        pos(6, 6),
        1,
    );
    assert_eq!(board.cell_fill(pos(6, 6)), CellFill::Food);
    assert_eq!(board.cell_fill(pos(2, 2)), CellFill::Snake(SnakeColor::Green));
    assert_eq!(board.cell_fill(pos(1, 2)), CellFill::Snake(SnakeColor::Green));
    assert_eq!(board.cell_fill(pos(5, 5)), CellFill::Snake(SnakeColor::Blue));
    assert_eq!(board.cell_fill(pos(0, 0)), CellFill::Empty);
}

#[test]
fn cell_fill_after_game_over() {
    let mut board = Board::from_parts(
        vec![pos(3, 3), pos(2, 3)],
        Dir::Right,
        vec![pos(4, 3), pos(5, 3)],
        Dir::Left,
        pos(0, 0),
        1,
    );
    board.update(None, None);
    assert_eq!(board.get_state(), BoardState::Won { is_player2: true });
    for x in 0..8 {
        for y in 0..8 {
            assert_eq!(board.cell_fill(pos(x, y)), CellFill::Snake(SnakeColor::Blue));
        }
    }

    let mut board = Board::from_parts(
        vec![pos(3, 3), pos(2, 3)],
        Dir::Right,
        vec![pos(5, 3), pos(6, 3)],
        Dir::Left,
        pos(0, 0),
        1,
    );
    board.update(None, None);
    assert_eq!(board.get_state(), BoardState::BothLost);
    assert_eq!(board.cell_fill(pos(0, 0)), CellFill::LostFill);
    assert_eq!(board.cell_fill(pos(7, 7)), CellFill::LostFill);
    assert_eq!(board.cell_fill(pos(1, 1)), CellFill::LostMark);
    assert_eq!(board.cell_fill(pos(6, 6)), CellFill::LostMark);
    assert_eq!(board.cell_fill(pos(1, 6)), CellFill::LostMark);
    assert_eq!(board.cell_fill(pos(0, 7)), CellFill::LostFill);
    assert_eq!(board.cell_fill(pos(3, 2)), CellFill::LostFill);
}

#[test]
fn render_geometry() {
    let board = Board::new();
    assert_eq!(board.cell_size(), (6, 3));
    assert_eq!(board.border_size(), (2, 1));
    assert_eq!(board.render_size(), (64, 33));
    assert_eq!(board.cell_origin(pos(0, 0)), (0, 0));
    assert_eq!(board.cell_origin(pos(3, 2)), (24, 8));
    assert_eq!(Board::get_update_intervar(), 300);
}

#[test]
fn seeded_boards_agree() {
    let a = Board::new_seeded(123);
    let b = Board::new_seeded(123);
    assert_eq!(a.get_food(), b.get_food());
}
