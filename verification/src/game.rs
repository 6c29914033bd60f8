use vstd::prelude::*;
use vstd::string::*;
use crate::error::Error;
use crate::guard::{on_board, Guard};
use crate::player::Player;
use crate::rules::{apply_move_preserves_wf, initial_state_is_blank};
use crate::state::GameState;
use crate::text::{rendered, row_text};
use crate::tic_tac_toe::TicTacToe;

verus! {

/// One game of tic-tac-toe.
pub struct Game {
    board: [[Player; 3]; 3],
    current_player: Player,
    winner: Player,
}

/// The nine cells of a board, row by row.
spec fn cells_of(board: [[Player; 3]; 3]) -> Seq<Player> {
    Seq::new(9, |i: int| board[i / 3][i % 3])
}

/// A state with the given board, to speak of what depends on the board
/// alone.
spec fn with_board(board: [[Player; 3]; 3]) -> GameState {
    GameState { board: cells_of(board), current_player: Player::X, winner: Player::Empty }
}

/// The cell at `(row, column)` of a board is cell `3 * row + column` of its
/// nine cells.
proof fn cells_of_at(board: [[Player; 3]; 3], row: int, column: int)
    requires
        on_board(row, column),
    ensures
        cells_of(board)[3 * row + column] == board[row][column],
{
    assert((3 * row + column) / 3 == row);
    assert((3 * row + column) % 3 == column);
}

impl View for Game {
    type V = GameState;

    closed spec fn view(&self) -> GameState {
        GameState {
            board: cells_of(self.board),
            current_player: self.current_player,
            winner: self.winner,
        }
    }
}

/// The player who moves after `player`.
fn switch_player(player: Player) -> (next: Player)
    requires
        player.is_mark(),
    ensures
        next == player.opponent(),
{
    match player {
        Player::X => Player::O,
        Player::O => Player::X,
        Player::Empty => vstd::pervasive::unreached(),
    }
}

/// Whether `player` holds a line through `(row, column)` of `board`.
fn check_player_has_won(board: &[[Player; 3]; 3], player: Player, row: usize, column: usize) -> (won:
    bool)
    requires
        on_board(row as int, column as int),
    ensures
        won == with_board(*board).line_through(player, row as int, column as int),
{
    proof {
        cells_of_at(*board, 0, 0);
        cells_of_at(*board, 0, 1);
        cells_of_at(*board, 0, 2);
        cells_of_at(*board, 1, 0);
        cells_of_at(*board, 1, 1);
        cells_of_at(*board, 1, 2);
        cells_of_at(*board, 2, 0);
        cells_of_at(*board, 2, 1);
        cells_of_at(*board, 2, 2);
    }
    let horizontal = board[row][0] == player && board[row][1] == player && board[row][2]
        == player;
    let vertical = board[0][column] == player && board[1][column] == player && board[2][column]
        == player;
    let main_diagonal = row == column && board[0][0] == player && board[1][1] == player
        && board[2][2] == player;
    let antidiagonal = row + column == 2 && board[0][2] == player && board[1][1] == player
        && board[2][0] == player;
    horizontal || vertical || main_diagonal || antidiagonal
}

/// Appends one row of a board to `text`, as a line.
fn append_row(text: &mut String, board: &[[Player; 3]; 3], row: usize)
    requires
        row < 3,
    ensures
        final(text)@ == old(text)@ + row_text(with_board(*board), row as int),
{
    proof {
        reveal_strlit(" ");
        reveal_strlit("\n");
        cells_of_at(*board, row as int, 0);
        cells_of_at(*board, row as int, 1);
        cells_of_at(*board, row as int, 2);
    }
    text.append(board[row][0].glyph_str());
    text.append(" ");
    text.append(board[row][1].glyph_str());
    text.append(" ");
    text.append(board[row][2].glyph_str());
    text.append("\n");
    assert(text@ =~= old(text)@ + row_text(with_board(*board), row as int));
}

impl Game {
    /// Every `Game` is in a valid state, at all times.
    #[verifier::type_invariant]
    pub open spec fn valid(&self) -> bool {
        self@.wf()
    }

    /// Whether every cell of the board holds a mark.
    pub fn board_is_full(&self) -> (full: bool)
        ensures
            full == self@.board_full(),
    {
        let mut row: usize = 0;
        while row < 3
            invariant
                row <= 3,
                forall|i: int| 0 <= i < 3 * row ==> (#[trigger] self@.board[i]).is_mark(),
            decreases 3 - row,
        {
            let mut column: usize = 0;
            while column < 3
                invariant
                    row < 3,
                    column <= 3,
                    forall|i: int|
                        0 <= i < 3 * row + column ==> (#[trigger] self@.board[i]).is_mark(),
                decreases 3 - column,
            {
                proof {
                    cells_of_at(self.board, row as int, column as int);
                }
                if self.board[row][column] == Player::Empty {
                    assert(!self@.board[3 * row + column].is_mark());
                    return false;
                }
                column += 1;
            }
            row += 1;
        }
        true
    }
}

/// Whether the game has ended, in a win or in a draw.
pub fn game_over(game: &Game) -> (over: bool)
    ensures
        over == game@.is_over(),
{
    game.board_is_full() || game.winner() != Player::Empty
}

impl Default for Game {
    fn default() -> (game: Self)
        ensures
            game@ == GameState::initial(),
            game@.wf(),
    {
        let row = [Player::Empty, Player::Empty, Player::Empty];
        let board = [row, row, row];
        proof {
            initial_state_is_blank();
            assert forall|i: int| 0 <= i < 9 implies cells_of(board)[i] == Player::Empty by {
                assert(board[i / 3] == row);
                assert(row[i % 3] == Player::Empty);
            }
            assert(cells_of(board) =~= GameState::initial().board);
        }
        Self { board, current_player: Player::X, winner: Player::Empty }
    }
}

impl Clone for Game {
    fn clone(&self) -> (copy: Self)
        ensures
            copy@ == self@,
    {
        proof {
            use_type_invariant(self);
        }
        Game { board: self.board, current_player: self.current_player, winner: self.winner }
    }
}

impl TicTacToe for Game {
    type Player = Player;

    type Error = Error;

    /// A new game: the board is empty, `X` is to move, nobody has won.
    fn new() -> (game: Self)
        ensures
            game@ == GameState::initial(),
            game@.wf(),
    {
        Self::default()
    }

    /// Makes a move for the player whose turn it is, if the position is on
    /// the board, the game is not over and the cell is empty, in this order;
    /// a rejected move changes nothing.
    fn make_move(&mut self, row: u32, column: u32) -> (r: Result<(), Error>)
        ensures
            r == old(self)@.move_outcome(row as int, column as int),
            final(self)@ == old(self)@.apply_move(row as int, column as int),
            final(self)@.wf(),
    {
        proof {
            use_type_invariant(&*self);
            apply_move_preserves_wf(self@, row as int, column as int);
        }
        Guard::validate_board_position(row, column)?;
        if game_over(self) {
            return Err(Error::GameOver);
        }
        let row_usize = row as usize;
        let column_usize = column as usize;
        proof {
            cells_of_at(self.board, row as int, column as int);
        }
        if self.board[row_usize][column_usize] != Player::Empty {
            Err(Error::CellIsNotEmpty)
        } else {
            let mut board = self.board;
            board[row_usize][column_usize] = self.current_player;
            assert(cells_of(board) =~= self@.placed(
                row as int,
                column as int,
                self.current_player,
            ));
            let winner = if check_player_has_won(
                &board,
                self.current_player,
                row_usize,
                column_usize,
            ) {
                self.current_player
            } else {
                self.winner
            };
            *self = Game { board, current_player: switch_player(self.current_player), winner };
            Ok(())
        }
    }

    /// The player whose turn it is, or would be if the game were not over.
    fn current_player(&self) -> (player: Player)
        ensures
            player == self@.current_player,
    {
        self.current_player
    }

    /// The winner, or `Empty` while there is none.
    fn winner(&self) -> (player: Player)
        ensures
            player == self@.winner,
    {
        self.winner
    }

    /// The mark at `(row, column)`, for a position on the board.
    fn get_board_position(&self, row: u32, column: u32) -> (r: Result<Player, Error>)
        ensures
            r == (if on_board(row as int, column as int) {
                Ok::<Player, Error>(self@.cell(row as int, column as int))
            } else {
                Err(Error::PositionIsOutsideBoard)
            }),
    {
        Guard::validate_board_position(row, column)?;
        proof {
            cells_of_at(self.board, row as int, column as int);
        }
        Ok(self.board[row as usize][column as usize])
    }

    /// The game as text: one line for each row of the board, from top to
    /// bottom, and a line that names the winner, or says that the game is
    /// drawn, or names the player to move.
    fn render(&self) -> (text: String)
        ensures
            text@ == rendered(self@),
    {
        proof {
            reveal_strlit("\n");
        }
        let mut text = String::new();
        append_row(&mut text, &self.board, 0);
        append_row(&mut text, &self.board, 1);
        append_row(&mut text, &self.board, 2);
        if self.winner != Player::Empty {
            text.append("Winner: ");
            text.append(self.winner.glyph_str());
            text.append("\n");
        } else if self.board_is_full() {
            text.append("Draw\n");
        } else {
            text.append("Current player: ");
            text.append(self.current_player.glyph_str());
            text.append("\n");
        }
        assert(text@ =~= rendered(self@));
        text
    }

    /// Starts a new game in place.
    fn reset(&mut self)
        ensures
            final(self)@ == GameState::initial(),
            final(self)@.wf(),
    {
        *self = Self::default()
    }
}

} // verus!
