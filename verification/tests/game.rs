use engine::{Error, Game, Player, TicTacToe};

fn make_moves(game: &mut Game, moves: &[(u32, u32)]) {
    for position in moves {
        assert_eq!(game.make_move(position.0, position.1), Ok(()));
    }
}

fn board_is_empty(game: &Game) -> bool {
    for row in 0..3 {
        for column in 0..3 {
            if game.get_board_position(row, column) != Ok(Player::Empty) {
                return false;
            }
        }
    }
    true
}

#[test]
fn can_create_game() {
    let game = Game::new();

    assert_eq!(game.current_player(), Player::X);
    assert_eq!(game.winner(), Player::Empty);
    assert_eq!(board_is_empty(&game), true);
}

#[test]
fn x_starts_first() {
    let game = Game::new();

    assert_eq!(game.current_player(), Player::X);
}

#[test]
fn player_switches_after_move() {
    let mut game = Game::new();

    make_moves(&mut game, &[(1, 1)]);

    assert_eq!(game.current_player(), Player::O);
}

#[test]
fn move_saves() {
    let mut game = Game::new();

    make_moves(&mut game, &[(1, 1)]);

    assert_eq!(game.get_board_position(1, 1), Ok(Player::X));
}

#[test]
fn cannot_make_same_move_twice() {
    let mut game = Game::new();
    make_moves(&mut game, &[(1, 1)]);

    assert_eq!(game.make_move(1, 1), Err(Error::CellIsNotEmpty));
}

#[test]
fn cannot_make_move_outside_board() {
    let mut game = Game::new();
    assert_eq!(game.make_move(3, 3), Err(Error::PositionIsOutsideBoard));
}

#[test]
fn can_win_horizontal() {
    let mut game = Game::new();
    make_moves(&mut game, &[(0, 1), (1, 1), (0, 0), (1, 0), (0, 2)]);

    assert_eq!(game.winner(), Player::X);
}

#[test]
fn can_win_vertical() {
    let mut game = Game::new();
    make_moves(&mut game, &[(0, 0), (0, 2), (0, 1), (1, 2), (1, 1), (2, 2)]);

    assert_eq!(game.winner(), Player::O);
}

#[test]
fn can_win_main_diagonal() {
    let mut game = Game::new();
    make_moves(&mut game, &[(0, 0), (0, 2), (1, 1), (1, 2), (2, 2)]);

    assert_eq!(game.winner(), Player::X);
}

#[test]
fn can_win_antidiagonal() {
    let mut game = Game::new();
    make_moves(&mut game, &[(0, 0), (0, 2), (0, 1), (2, 0), (1, 0), (1, 1)]);

    assert_eq!(game.winner(), Player::O);
}

#[test]
fn can_draw() {
    let mut game = Game::new();
    make_moves(
        &mut game,
        &[(1, 1), (0, 0), (1, 2), (1, 0), (2, 0), (0, 2), (0, 1), (2, 1), (2, 2)],
    );

    assert_eq!(game.make_move(0, 1), Err(Error::GameOver));
    assert_eq!(game.winner(), Player::Empty);
}

#[test]
fn cannot_make_move_when_game_is_over() {
    let mut game = Game::new();
    make_moves(&mut game, &[(0, 0), (0, 2), (1, 1), (1, 2), (2, 2)]);
    assert_eq!(game.winner(), Player::X);

    assert_eq!(game.make_move(0, 1), Err(Error::GameOver));
}

#[test]
fn cannot_get_board_position_outside() {
    let game = Game::new();

    assert_eq!(game.get_board_position(3, 0), Err(Error::PositionIsOutsideBoard));
}

#[test]
fn can_reset_game() {
    let mut game = Game::new();
    make_moves(&mut game, &[(0, 0), (0, 2), (1, 1), (1, 2), (2, 2)]);
    assert_eq!(game.winner(), Player::X);

    game.reset();

    assert_eq!(game.get_board_position(1, 1), Ok(Player::Empty));
    assert_eq!(game.current_player(), Player::X);
    assert_eq!(game.winner(), Player::Empty);
    assert_eq!(board_is_empty(&game), true);
}

#[test]
fn ongoing_game_displays_board_and_current_player() {
    let mut game = Game::new();
    assert_eq!(game.make_move(1, 1), Ok(()));

    let actual = game.render();
    let expected = "* * *\n* X *\n* * *\nCurrent player: O\n";
    assert_eq!(actual, expected);
}

#[test]
fn win_game_displays_board_and_winner() {
    let mut game = Game::new();
    make_moves(&mut game, &[(0, 0), (0, 2), (1, 1), (1, 2), (2, 2)]);

    let actual = game.render();
    let expected = "X * O\n* X O\n* * X\nWinner: X\n";
    assert_eq!(actual, expected);
}

#[test]
fn draw_game_displays_board_and_draw() {
    let mut game = Game::new();
    make_moves(
        &mut game,
        &[(1, 1), (0, 0), (1, 2), (1, 0), (2, 0), (0, 2), (0, 1), (2, 1), (2, 2)],
    );

    let actual = game.render();
    let expected = "O X O\nO X X\nX O X\nDraw\n";
    assert_eq!(actual, expected);
}
