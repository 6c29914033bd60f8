use engine::{game_over, Error, Game, Guard, Player, TicTacToe};

const DRAW: [(u32, u32); 9] =
    [(1, 1), (0, 0), (1, 2), (1, 0), (2, 0), (0, 2), (0, 1), (2, 1), (2, 2)];

fn play(moves: &[(u32, u32)]) -> Game {
    let mut game = Game::new();
    for position in moves {
        assert_eq!(game.make_move(position.0, position.1), Ok(()));
    }
    game
}

fn cells(game: &Game) -> Vec<Player> {
    let mut all = Vec::new();
    for row in 0..3 {
        for column in 0..3 {
            all.push(game.get_board_position(row, column).unwrap());
        }
    }
    all
}

fn assert_fresh(game: &Game) {
    for row in 0..3 {
        for column in 0..3 {
            assert_eq!(game.get_board_position(row, column), Ok(Player::Empty));
        }
    }
    assert_eq!(game.current_player(), Player::X);
    assert_eq!(game.winner(), Player::Empty);
    assert!(!game.board_is_full());
    assert!(!game_over(game));
}

#[test]
fn fresh_game_has_nine_empty_cells() {
    assert_fresh(&Game::new());
    assert_fresh(&Game::default());
}

#[test]
fn every_accepted_move_toggles_the_player() {
    let mut game = Game::new();
    let mut expected = Player::X;
    for position in DRAW {
        assert_eq!(game.current_player(), expected);
        assert_eq!(game.make_move(position.0, position.1), Ok(()));
        expected = if expected == Player::X { Player::O } else { Player::X };
        assert_eq!(game.current_player(), expected);
    }
}

#[test]
fn winning_move_toggles_the_player_too() {
    let game = play(&[(0, 1), (1, 1), (0, 0), (1, 0), (0, 2)]);
    assert_eq!(game.winner(), Player::X);
    assert_eq!(game.current_player(), Player::O);
}

#[test]
fn accepted_move_marks_its_cell_only() {
    let mut game = play(&[(1, 1)]);
    let before = cells(&game);
    assert_eq!(game.make_move(2, 0), Ok(()));
    let after = cells(&game);
    for i in 0..9 {
        if i == 6 {
            assert_eq!(after[i], Player::O);
        } else {
            assert_eq!(after[i], before[i]);
        }
    }
}

#[test]
fn repeated_move_is_rejected_and_changes_nothing() {
    let mut game = play(&[(0, 0), (2, 2)]);
    let before = cells(&game);
    assert_eq!(game.make_move(2, 2), Err(Error::CellIsNotEmpty));
    assert_eq!(game.make_move(0, 0), Err(Error::CellIsNotEmpty));
    assert_eq!(cells(&game), before);
    assert_eq!(game.current_player(), Player::X);
    assert_eq!(game.winner(), Player::Empty);
}

#[test]
fn repeated_winning_move_is_rejected_as_game_over() {
    let mut game = play(&[(0, 1), (1, 1), (0, 0), (1, 0), (0, 2)]);
    assert_eq!(game.make_move(0, 2), Err(Error::GameOver));
}

#[test]
fn off_board_moves_are_rejected_and_change_nothing() {
    let mut game = play(&[(1, 1)]);
    let before = cells(&game);
    for position in [(3, 0), (0, 3), (3, 3), (u32::MAX, 1), (1, u32::MAX), (7, 9)] {
        assert_eq!(game.make_move(position.0, position.1), Err(Error::PositionIsOutsideBoard));
        assert_eq!(
            game.get_board_position(position.0, position.1),
            Err(Error::PositionIsOutsideBoard)
        );
    }
    assert_eq!(cells(&game), before);
    assert_eq!(game.current_player(), Player::O);
}

#[test]
fn position_is_checked_before_game_over() {
    let mut game = play(&[(0, 0), (0, 2), (1, 1), (1, 2), (2, 2)]);
    assert_eq!(game.make_move(3, 3), Err(Error::PositionIsOutsideBoard));
    assert_eq!(game.make_move(2, 2), Err(Error::GameOver));
}

#[test]
fn game_over_is_checked_before_the_cell() {
    let mut game = play(&[(0, 0), (0, 2), (1, 1), (1, 2), (2, 2)]);
    assert_eq!(game.make_move(0, 0), Err(Error::GameOver));
    assert_eq!(game.make_move(2, 1), Err(Error::GameOver));
}

#[test]
fn drawn_game_is_full_and_rejects_moves() {
    let mut game = play(&DRAW);
    assert!(game.board_is_full());
    assert!(game_over(&game));
    assert_eq!(game.winner(), Player::Empty);
    let before = cells(&game);
    for row in 0..3 {
        for column in 0..3 {
            assert_eq!(game.make_move(row, column), Err(Error::GameOver));
        }
    }
    assert_eq!(game.winner(), Player::Empty);
    assert_eq!(cells(&game), before);
    assert_eq!(game.current_player(), Player::O);
}

#[test]
fn full_board_holds_five_x_and_four_o() {
    let game = play(&DRAW);
    let all = cells(&game);
    assert_eq!(all.iter().filter(|&&mark| mark == Player::X).count(), 5);
    assert_eq!(all.iter().filter(|&&mark| mark == Player::O).count(), 4);
}

#[test]
fn won_game_is_over_with_cells_left() {
    let game = play(&[(0, 0), (0, 2), (1, 1), (1, 2), (2, 2)]);
    assert!(!game.board_is_full());
    assert!(game_over(&game));
}

#[test]
fn game_in_progress_is_not_over() {
    let game = play(&[(0, 0), (0, 2), (1, 1), (1, 2)]);
    assert!(!game.board_is_full());
    assert!(!game_over(&game));
    assert_eq!(game.winner(), Player::Empty);
}

#[test]
fn win_on_the_last_cell_is_a_win() {
    let game = play(&[(0, 0), (0, 1), (0, 2), (1, 1), (1, 0), (1, 2), (2, 1), (2, 0), (2, 2)]);
    assert!(game.board_is_full());
    assert_eq!(game.winner(), Player::Empty);
    let game = play(&[(0, 0), (0, 1), (0, 2), (1, 0), (1, 1), (2, 2), (1, 2), (2, 0), (2, 1)]);
    assert!(game.board_is_full());
    assert_eq!(game.winner(), Player::Empty);
    let game = play(&[(0, 0), (0, 1), (0, 2), (1, 0), (1, 2), (1, 1), (2, 1), (2, 0), (2, 2)]);
    assert!(game.board_is_full());
    assert_eq!(game.winner(), Player::X);
    assert_eq!(game.render(), "X O X\nO O X\nO X X\nWinner: X\n");
}

#[test]
fn each_line_wins() {
    let rows = [[(0, 0), (0, 1), (0, 2)], [(1, 0), (1, 1), (1, 2)], [(2, 0), (2, 1), (2, 2)]];
    let columns = [[(0, 0), (1, 0), (2, 0)], [(0, 1), (1, 1), (2, 1)], [(0, 2), (1, 2), (2, 2)]];
    let diagonals = [[(0, 0), (1, 1), (2, 2)], [(0, 2), (1, 1), (2, 0)]];
    let mut lines: Vec<[(u32, u32); 3]> = Vec::new();
    lines.extend(rows);
    lines.extend(columns);
    lines.extend(diagonals);
    for line in lines {
        let mut others: Vec<(u32, u32)> = Vec::new();
        for row in 0..3 {
            for column in 0..3 {
                if !line.contains(&(row, column)) {
                    others.push((row, column));
                }
            }
        }
        let mut offset = 0;
        while offset < others.len() {
            let first = others[offset];
            let second = others[(offset + 1) % others.len()];
            let mut game = Game::new();
            assert_eq!(game.make_move(line[0].0, line[0].1), Ok(()));
            assert_eq!(game.make_move(first.0, first.1), Ok(()));
            assert_eq!(game.make_move(line[1].0, line[1].1), Ok(()));
            assert_eq!(game.make_move(second.0, second.1), Ok(()));
            assert_eq!(game.winner(), Player::Empty);
            assert_eq!(game.make_move(line[2].0, line[2].1), Ok(()));
            assert_eq!(game.winner(), Player::X);
            offset += 1;
        }
    }
}

#[test]
fn reset_restores_the_fresh_game() {
    let mut won = play(&[(0, 0), (0, 2), (1, 1), (1, 2), (2, 2)]);
    won.reset();
    assert_fresh(&won);
    let mut drawn = play(&DRAW);
    drawn.reset();
    assert_fresh(&drawn);
    let mut running = play(&[(1, 1), (0, 0), (1, 2)]);
    running.reset();
    assert_fresh(&running);
    assert_eq!(running.make_move(1, 1), Ok(()));
    assert_eq!(running.get_board_position(1, 1), Ok(Player::X));
}

#[test]
fn clone_is_an_independent_copy() {
    let mut game = play(&[(1, 1), (0, 0)]);
    let copy = game.clone();
    assert_eq!(game.make_move(2, 2), Ok(()));
    assert_eq!(copy.get_board_position(2, 2), Ok(Player::Empty));
    assert_eq!(copy.get_board_position(1, 1), Ok(Player::X));
    assert_eq!(copy.get_board_position(0, 0), Ok(Player::O));
    assert_eq!(copy.current_player(), Player::X);
    assert_eq!(copy.render(), "O * *\n* X *\n* * *\nCurrent player: X\n");
}

#[test]
fn guard_accepts_the_nine_positions() {
    for row in 0..6 {
        for column in 0..6 {
            let expected =
                if row <= 2 && column <= 2 { Ok(()) } else { Err(Error::PositionIsOutsideBoard) };
            assert_eq!(Guard::validate_board_position(row, column), expected);
        }
    }
    assert_eq!(Guard::validate_board_position(u32::MAX, 0), Err(Error::PositionIsOutsideBoard));
}

#[test]
fn glyphs() {
    assert_eq!(Player::Empty.glyph(), '*');
    assert_eq!(Player::X.glyph(), 'X');
    assert_eq!(Player::O.glyph(), 'O');
    assert_eq!(Player::Empty.glyph_str(), "*");
    assert_eq!(Player::X.glyph_str(), "X");
    assert_eq!(Player::O.glyph_str(), "O");
}

#[test]
fn fresh_game_renders_blank_board() {
    assert_eq!(Game::new().render(), "* * *\n* * *\n* * *\nCurrent player: X\n");
}

#[test]
fn won_by_o_renders_winner_o() {
    let game = play(&[(0, 0), (0, 2), (0, 1), (1, 2), (1, 1), (2, 2)]);
    assert_eq!(game.render(), "X X O\n* X O\n* * O\nWinner: O\n");
}
