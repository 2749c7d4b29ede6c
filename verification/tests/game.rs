use noughts_and_crosses::{Cell, GameError, GameState, Outcome, Player};

const X: Cell = Cell::Marked(Player::First);
const O: Cell = Cell::Marked(Player::Second);
const E: Cell = Cell::Empty;

fn play(moves: &[(usize, usize)]) -> GameState {
    let mut game = GameState::create();
    for &(row, col) in moves {
        game.attempt_move(row, col).unwrap();
    }
    game
}

fn marked_cells(game: &GameState) -> usize {
    let mut n = 0;
    for row in 0..3 {
        for col in 0..3 {
            if game.cell_at(row, col).unwrap() != Cell::Empty {
                n += 1;
            }
        }
    }
    n
}

#[test]
fn new_game_is_empty_and_first_player_moves() {
    let game = GameState::create();
    for row in 0..3 {
        for col in 0..3 {
            assert_eq!(game.cell_at(row, col), Ok(Cell::Empty));
        }
    }
    assert_eq!(game.current_player(), Player::First);
    assert_eq!(game.outcome(), Outcome::InProgress);
    assert_eq!(game.board(), [E; 9]);
}

#[test]
fn first_move_marks_the_cell_and_passes_the_turn() {
    let mut game = GameState::create();
    assert_eq!(game.attempt_move(1, 2), Ok(Outcome::InProgress));
    assert_eq!(game.cell_at(1, 2), Ok(X));
    assert_eq!(game.current_player(), Player::Second);
    assert_eq!(game.outcome(), Outcome::InProgress);
    assert_eq!(game.board(), [E, E, E, E, E, X, E, E, E]);
}

#[test]
fn second_move_carries_the_second_players_mark() {
    let mut game = GameState::create();
    game.attempt_move(0, 0).unwrap();
    assert_eq!(game.attempt_move(2, 1), Ok(Outcome::InProgress));
    assert_eq!(game.cell_at(2, 1), Ok(O));
    assert_eq!(game.current_player(), Player::First);
    assert_eq!(game.board(), [X, E, E, E, E, E, E, O, E]);
}

#[test]
fn top_row_wins_for_first_player_on_fifth_move() {
    let mut game = GameState::create();
    assert_eq!(game.attempt_move(0, 0), Ok(Outcome::InProgress));
    assert_eq!(game.attempt_move(1, 1), Ok(Outcome::InProgress));
    assert_eq!(game.attempt_move(0, 1), Ok(Outcome::InProgress));
    assert_eq!(game.attempt_move(1, 2), Ok(Outcome::InProgress));
    assert_eq!(game.attempt_move(0, 2), Ok(Outcome::Won(Player::First)));
    assert_eq!(game.outcome(), Outcome::Won(Player::First));
    assert_eq!(game.board(), [X, X, X, E, O, O, E, E, E]);
}

#[test]
fn winner_stays_the_current_player() {
    let game = play(&[(0, 0), (1, 1), (0, 1), (1, 2), (0, 2)]);
    assert_eq!(game.outcome(), Outcome::Won(Player::First));
    assert_eq!(game.current_player(), Player::First);
}

#[test]
fn second_player_wins_on_the_anti_diagonal() {
    let mut game = play(&[(0, 0), (1, 1), (0, 1), (0, 2), (2, 2)]);
    assert_eq!(game.current_player(), Player::Second);
    assert_eq!(game.attempt_move(2, 0), Ok(Outcome::Won(Player::Second)));
    assert_eq!(game.outcome(), Outcome::Won(Player::Second));
    assert_eq!(game.current_player(), Player::Second);
    assert_eq!(game.board(), [X, X, O, E, O, E, O, E, X]);
}

#[test]
fn full_grid_without_a_line_is_drawn_on_ninth_move() {
    let mut game = GameState::create();
    let moves = [(0, 1), (0, 0), (1, 0), (0, 2), (1, 2), (1, 1), (2, 0), (2, 1)];
    for (row, col) in moves {
        assert_eq!(game.attempt_move(row, col), Ok(Outcome::InProgress));
    }
    assert_eq!(game.attempt_move(2, 2), Ok(Outcome::Drawn));
    assert_eq!(game.outcome(), Outcome::Drawn);
    assert_eq!(game.board(), [O, X, O, X, O, X, X, O, X]);
    assert_eq!(game.current_player(), Player::First);
}

#[test]
fn line_completed_on_the_last_cell_is_a_win_not_a_draw() {
    let mut game = play(&[(0, 0), (1, 0), (0, 2), (1, 1), (1, 2), (2, 1), (2, 0), (2, 2)]);
    assert_eq!(game.outcome(), Outcome::InProgress);
    assert_eq!(game.attempt_move(0, 1), Ok(Outcome::Won(Player::First)));
    assert_eq!(marked_cells(&game), 9);
    assert_eq!(game.outcome(), Outcome::Won(Player::First));
}

#[test]
fn row_out_of_range_is_rejected_at_any_time() {
    let mut fresh = GameState::create();
    let before = fresh;
    assert_eq!(fresh.attempt_move(3, 0), Err(GameError::OutOfBounds));
    assert_eq!(fresh, before);

    let mut midway = play(&[(0, 0), (1, 1)]);
    let before = midway;
    assert_eq!(midway.attempt_move(3, 0), Err(GameError::OutOfBounds));
    assert_eq!(midway, before);

    let mut won = play(&[(0, 0), (1, 1), (0, 1), (1, 2), (0, 2)]);
    let before = won;
    assert_eq!(won.attempt_move(3, 0), Err(GameError::OutOfBounds));
    assert_eq!(won, before);
}

#[test]
fn column_out_of_range_is_rejected() {
    let mut game = GameState::create();
    let before = game;
    assert_eq!(game.attempt_move(0, 3), Err(GameError::OutOfBounds));
    assert_eq!(game.attempt_move(3, 3), Err(GameError::OutOfBounds));
    assert_eq!(game.attempt_move(usize::MAX, 0), Err(GameError::OutOfBounds));
    assert_eq!(game.attempt_move(0, usize::MAX), Err(GameError::OutOfBounds));
    assert_eq!(game.attempt_move(usize::MAX, usize::MAX), Err(GameError::OutOfBounds));
    assert_eq!(game, before);
}

#[test]
fn bounds_are_checked_before_the_cell() {
    let mut game = play(&[(0, 0)]);
    assert_eq!(game.attempt_move(0, 3), Err(GameError::OutOfBounds));
    assert_eq!(game.attempt_move(0, 0), Err(GameError::CellOccupied));
}

#[test]
fn same_cell_twice_is_rejected_as_occupied() {
    let mut game = GameState::create();
    assert_eq!(game.attempt_move(0, 0), Ok(Outcome::InProgress));
    let after_first = game;
    assert_eq!(game.attempt_move(0, 0), Err(GameError::CellOccupied));
    assert_eq!(game, after_first);
    assert_eq!(game.cell_at(0, 0), Ok(X));
    assert_eq!(game.current_player(), Player::Second);
}

#[test]
fn cell_of_the_other_player_is_rejected_as_occupied() {
    let mut game = play(&[(1, 1), (2, 2)]);
    let before = game;
    assert_eq!(game.attempt_move(2, 2), Err(GameError::CellOccupied));
    assert_eq!(game.attempt_move(1, 1), Err(GameError::CellOccupied));
    assert_eq!(game, before);
}

#[test]
fn repeated_rejections_never_change_the_game() {
    let mut game = play(&[(0, 0), (1, 1), (2, 2)]);
    let before = game;
    for _ in 0..25 {
        assert_eq!(game.attempt_move(1, 1), Err(GameError::CellOccupied));
        assert_eq!(game, before);
        assert_eq!(game.attempt_move(7, 1), Err(GameError::OutOfBounds));
        assert_eq!(game, before);
    }
    assert_eq!(game.board(), before.board());
    assert_eq!(game.outcome(), before.outcome());
    assert_eq!(game.current_player(), before.current_player());
}

#[test]
fn won_game_rejects_every_cell() {
    let mut game = play(&[(0, 0), (1, 1), (0, 1), (1, 2), (0, 2)]);
    let before = game;
    for row in 0..3 {
        for col in 0..3 {
            assert_eq!(game.attempt_move(row, col), Err(GameError::GameAlreadyOver));
            assert_eq!(game, before);
        }
    }
}

#[test]
fn drawn_game_rejects_every_cell() {
    let mut game =
        play(&[(0, 1), (0, 0), (1, 0), (0, 2), (1, 2), (1, 1), (2, 0), (2, 1), (2, 2)]);
    assert_eq!(game.outcome(), Outcome::Drawn);
    let before = game;
    for row in 0..3 {
        for col in 0..3 {
            assert_eq!(game.attempt_move(row, col), Err(GameError::GameAlreadyOver));
            assert_eq!(game, before);
        }
    }
}

#[test]
fn game_over_is_reported_before_the_cell_is_looked_at() {
    let mut game = play(&[(0, 0), (1, 1), (0, 1), (1, 2), (0, 2)]);
    assert_eq!(game.attempt_move(0, 0), Err(GameError::GameAlreadyOver));
    assert_eq!(game.attempt_move(2, 2), Err(GameError::GameAlreadyOver));
}

#[test]
fn marks_on_the_grid_equal_accepted_moves() {
    let attempts = [
        (0, 1),
        (0, 1),
        (3, 1),
        (0, 0),
        (0, 0),
        (0, 1),
        (1, 0),
        (0, 5),
        (0, 2),
        (1, 2),
        (1, 1),
        (2, 0),
        (2, 1),
        (2, 2),
        (2, 2),
    ];
    let mut game = GameState::create();
    let mut accepted = 0;
    for (row, col) in attempts {
        if game.attempt_move(row, col).is_ok() {
            accepted += 1;
        }
        assert_eq!(marked_cells(&game), accepted);
    }
    assert_eq!(accepted, 9);
    assert_eq!(game.outcome(), Outcome::Drawn);
}

#[test]
fn marked_cells_keep_their_mark() {
    let moves = [(1, 1), (0, 0), (0, 2), (2, 0), (1, 0), (1, 2), (0, 1), (2, 1), (2, 2)];
    let mut game = GameState::create();
    let mut seen = [E; 9];
    for (row, col) in moves {
        game.attempt_move(row, col).unwrap();
        let now = game.board();
        for i in 0..9 {
            if seen[i] != E {
                assert_eq!(now[i], seen[i]);
            }
        }
        seen = now;
    }
    assert_eq!(game.outcome(), Outcome::Drawn);
}

#[test]
fn turn_flips_after_each_accepted_move_only() {
    let mut game = GameState::create();
    let mut expected = Player::First;
    let attempts = [(0, 0), (0, 0), (1, 1), (9, 9), (1, 1), (0, 1), (1, 2)];
    for (row, col) in attempts {
        let result = game.attempt_move(row, col);
        if result == Ok(Outcome::InProgress) {
            expected = expected.opponent();
        }
        assert_eq!(game.current_player(), expected);
    }
    assert_eq!(game.current_player(), Player::First);
    assert_eq!(marked_cells(&game), 4);
}

#[test]
fn cell_at_reports_marks_and_bounds() {
    let game = play(&[(0, 0), (2, 1)]);
    assert_eq!(game.cell_at(0, 0), Ok(Cell::Marked(Player::First)));
    assert_eq!(game.cell_at(2, 1), Ok(Cell::Marked(Player::Second)));
    assert_eq!(game.cell_at(1, 2), Ok(Cell::Empty));
    assert_eq!(game.cell_at(3, 0), Err(GameError::OutOfBounds));
    assert_eq!(game.cell_at(0, 3), Err(GameError::OutOfBounds));
    assert_eq!(game.cell_at(usize::MAX, usize::MAX), Err(GameError::OutOfBounds));
}

#[test]
fn board_lists_cells_in_row_major_order() {
    let game = play(&[(0, 1), (1, 0), (2, 2), (1, 2)]);
    let board = game.board();
    for row in 0..3 {
        for col in 0..3 {
            assert_eq!(Ok(board[3 * row + col]), game.cell_at(row, col));
        }
    }
    assert_eq!(board, [E, X, E, O, E, O, E, E, X]);
}

#[test]
fn status_line_names_the_player_to_move() {
    let mut game = GameState::create();
    assert_eq!(game.status_line(), "Player 1's Turn (X)");
    game.attempt_move(1, 1).unwrap();
    assert_eq!(game.status_line(), "Player 2's Turn (O)");
    game.attempt_move(1, 1).unwrap_err();
    assert_eq!(game.status_line(), "Player 2's Turn (O)");
}

#[test]
fn status_line_names_the_winner() {
    let first = play(&[(0, 0), (1, 1), (0, 1), (1, 2), (0, 2)]);
    assert_eq!(first.status_line(), "X wins!");
    let second = play(&[(0, 0), (1, 1), (0, 1), (0, 2), (2, 2), (2, 0)]);
    assert_eq!(second.status_line(), "O wins!");
}

#[test]
fn status_line_reports_a_draw() {
    let game = play(&[(0, 1), (0, 0), (1, 0), (0, 2), (1, 2), (1, 1), (2, 0), (2, 1), (2, 2)]);
    assert_eq!(game.status_line(), "It's a draw!");
}
