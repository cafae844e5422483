use arcade::tictactoe::{CellState, Game, GameState, Player, WinType, BOARD_SIZE};

fn play(moves: &[(usize, usize)]) -> Game {
    let mut game = Game::new();
    for &(row, col) in moves {
        game.make_move(row, col);
    }
    game
}

fn marks(game: &Game) -> usize {
    let mut n = 0;
    for row in 0..BOARD_SIZE {
        for col in 0..BOARD_SIZE {
            if game.board[row][col] != CellState::Empty {
                n += 1;
            }
        }
    }
    n
}

#[test]
fn new_game_is_blank_with_x_to_move() {
    let game = Game::new();
    assert_eq!(marks(&game), 0);
    assert_eq!(game.current_player, Player::X);
    assert_eq!(game.game_state, GameState::Playing);
    assert!(!game.board_is_full());
}

#[test]
fn players_take_turns() {
    let mut game = Game::new();
    game.make_move(1, 1);
    assert_eq!(game.board[1][1], CellState::Occupied(Player::X));
    assert_eq!(game.current_player, Player::O);
    game.make_move(0, 2);
    assert_eq!(game.board[0][2], CellState::Occupied(Player::O));
    assert_eq!(game.current_player, Player::X);
    assert_eq!(game.game_state, GameState::Playing);
    assert_eq!(marks(&game), 2);
}

#[test]
fn move_on_a_taken_cell_is_ignored() {
    let mut game = Game::new();
    game.make_move(1, 1);
    game.make_move(1, 1);
    assert_eq!(game.board[1][1], CellState::Occupied(Player::X));
    assert_eq!(game.current_player, Player::O);
    assert_eq!(marks(&game), 1);
}

#[test]
fn completed_row_wins() {
    let game = play(&[(0, 0), (1, 0), (0, 1), (1, 1), (0, 2)]);
    assert_eq!(game.game_state, GameState::Win(Player::X, WinType::Row(0)));
    // The turn passes on even after the deciding move.
    assert_eq!(game.current_player, Player::O);
}

#[test]
fn completed_column_wins() {
    let game = play(&[(0, 0), (0, 2), (1, 1), (1, 2), (2, 1), (2, 2)]);
    assert_eq!(game.game_state, GameState::Win(Player::O, WinType::Column(2)));
    assert_eq!(game.current_player, Player::X);
}

#[test]
fn completed_diagonal_wins() {
    let game = play(&[(0, 0), (0, 1), (1, 1), (0, 2), (2, 2)]);
    assert_eq!(game.game_state, GameState::Win(Player::X, WinType::Diagonal));
}

#[test]
fn completed_anti_diagonal_wins() {
    let game = play(&[(0, 2), (0, 0), (1, 1), (0, 1), (2, 0)]);
    assert_eq!(game.game_state, GameState::Win(Player::X, WinType::AntiDiagonal));
}

#[test]
fn row_is_reported_before_column_and_diagonal() {
    // X completes row 0 and the diagonal with one mark at (0, 0).
    let game = play(&[(0, 1), (1, 0), (0, 2), (2, 0), (1, 1), (1, 2), (2, 2), (2, 1), (0, 0)]);
    assert_eq!(game.game_state, GameState::Win(Player::X, WinType::Row(0)));
}

#[test]
fn column_is_reported_before_diagonal() {
    // X completes column 2 and the anti-diagonal with one mark at (0, 2).
    let game = play(&[(1, 2), (0, 0), (2, 2), (0, 1), (1, 1), (1, 0), (2, 0), (2, 1), (0, 2)]);
    assert_eq!(game.game_state, GameState::Win(Player::X, WinType::Column(2)));
}

#[test]
fn full_board_without_a_line_is_a_draw() {
    let game = play(&[(0, 0), (0, 1), (0, 2), (1, 1), (1, 0), (1, 2), (2, 1), (2, 0), (2, 2)]);
    assert_eq!(game.game_state, GameState::Draw);
    assert!(game.board_is_full());
    assert_eq!(marks(&game), 9);
}

#[test]
fn winning_with_the_last_mark_is_a_win() {
    let game = play(&[(0, 0), (0, 1), (0, 2), (1, 0), (1, 1), (1, 2), (2, 1), (2, 0), (2, 2)]);
    assert!(game.board_is_full());
    assert_eq!(game.game_state, GameState::Win(Player::X, WinType::Diagonal));
}

#[test]
fn no_move_is_taken_after_the_game_is_over() {
    let mut game = play(&[(0, 0), (1, 0), (0, 1), (1, 1), (0, 2)]);
    let before = marks(&game);
    game.make_move(2, 2);
    assert_eq!(game.board[2][2], CellState::Empty);
    assert_eq!(marks(&game), before);
    assert_eq!(game.current_player, Player::O);
    assert_eq!(game.game_state, GameState::Win(Player::X, WinType::Row(0)));
}

#[test]
fn judging_an_empty_cell_changes_nothing() {
    let mut game = play(&[(0, 0), (1, 1)]);
    game.check_game_state(2, 2);
    assert_eq!(game.game_state, GameState::Playing);
    assert_eq!(game.current_player, Player::X);
    assert_eq!(marks(&game), 2);
}

#[test]
fn judging_looks_only_at_lines_through_the_cell() {
    let mut game = Game::new();
    game.board[0] = [CellState::Occupied(Player::O); 3];
    game.board[2][2] = CellState::Occupied(Player::X);
    game.check_game_state(2, 2);
    assert_eq!(game.game_state, GameState::Playing);
    game.check_game_state(0, 1);
    assert_eq!(game.game_state, GameState::Win(Player::O, WinType::Row(0)));
}

#[test]
fn switch_player_alternates() {
    let mut game = Game::new();
    game.switch_player();
    assert_eq!(game.current_player, Player::O);
    game.switch_player();
    assert_eq!(game.current_player, Player::X);
    assert_eq!(marks(&game), 0);
    assert_eq!(game.game_state, GameState::Playing);
}

#[test]
fn reset_starts_over() {
    let mut game = play(&[(0, 0), (1, 0), (0, 1), (1, 1), (0, 2)]);
    game.reset();
    assert_eq!(marks(&game), 0);
    assert_eq!(game.current_player, Player::X);
    assert_eq!(game.game_state, GameState::Playing);
}

#[test]
fn click_on_a_cell_makes_the_move() {
    let mut game = Game::new();
    game.click(Some((2, 1)), false);
    assert_eq!(game.board[2][1], CellState::Occupied(Player::X));
    assert_eq!(game.current_player, Player::O);
    game.click(None, false);
    assert_eq!(marks(&game), 1);
    assert_eq!(game.current_player, Player::O);
}

#[test]
fn click_on_the_button_starts_over() {
    let mut game = play(&[(0, 0), (1, 1)]);
    game.click(None, true);
    assert_eq!(marks(&game), 0);
    assert_eq!(game.current_player, Player::X);
    let mut game = play(&[(0, 0), (1, 1)]);
    game.click(Some((2, 2)), true);
    assert_eq!(marks(&game), 0);
    assert_eq!(game.current_player, Player::X);
    assert_eq!(game.game_state, GameState::Playing);
}
