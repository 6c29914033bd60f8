use vstd::prelude::*;
use crate::error::Error;
use crate::guard::on_board;
use crate::player::Player;

verus! {

/// One game as a mathematical value: the nine cells of the board, row by
/// row, whose turn it is, and who has won (`Empty` while nobody has).
pub struct GameState {
    pub board: Seq<Player>,
    pub current_player: Player,
    pub winner: Player,
}

impl GameState {
    /// The state every game starts in: an empty board, `X` to move, no
    /// winner.
    pub open spec fn initial() -> GameState {
        GameState {
            board: Seq::new(9, |i: int| Player::Empty),
            current_player: Player::X,
            winner: Player::Empty,
        }
    }

    /// The mark in a cell.
    pub open spec fn cell(self, row: int, column: int) -> Player
        recommends
            on_board(row, column),
    {
        self.board[3 * row + column]
    }

    /// The board has nine cells.
    pub open spec fn has_shape(self) -> bool {
        self.board.len() == 9
    }

    /// No cell is empty.
    pub open spec fn board_full(self) -> bool {
        forall|i: int| 0 <= i < 9 ==> (#[trigger] self.board[i]).is_mark()
    }

    /// How many cells hold `mark`.
    pub open spec fn count(self, mark: Player) -> nat {
        self.board.to_multiset().count(mark)
    }

    /// All three cells of a row hold `mark`.
    pub open spec fn row_complete(self, mark: Player, row: int) -> bool {
        self.cell(row, 0) == mark && self.cell(row, 1) == mark && self.cell(row, 2) == mark
    }

    /// All three cells of a column hold `mark`.
    pub open spec fn column_complete(self, mark: Player, column: int) -> bool {
        self.cell(0, column) == mark && self.cell(1, column) == mark && self.cell(2, column)
            == mark
    }

    /// The diagonal from the top left to the bottom right holds `mark`.
    pub open spec fn main_diagonal_complete(self, mark: Player) -> bool {
        self.cell(0, 0) == mark && self.cell(1, 1) == mark && self.cell(2, 2) == mark
    }

    /// The diagonal from the top right to the bottom left holds `mark`.
    pub open spec fn anti_diagonal_complete(self, mark: Player) -> bool {
        self.cell(0, 2) == mark && self.cell(1, 1) == mark && self.cell(2, 0) == mark
    }

    /// One of the eight lines of the board holds `mark` in all its cells.
    pub open spec fn has_line(self, mark: Player) -> bool {
        ||| self.row_complete(mark, 0)
        ||| self.row_complete(mark, 1)
        ||| self.row_complete(mark, 2)
        ||| self.column_complete(mark, 0)
        ||| self.column_complete(mark, 1)
        ||| self.column_complete(mark, 2)
        ||| self.main_diagonal_complete(mark)
        ||| self.anti_diagonal_complete(mark)
    }

    /// One of the lines that pass through `(row, column)` holds `mark` in
    /// all its cells. This is what is examined after a move to that cell.
    pub open spec fn line_through(self, mark: Player, row: int, column: int) -> bool {
        ||| self.row_complete(mark, row)
        ||| self.column_complete(mark, column)
        ||| (row == column && self.main_diagonal_complete(mark))
        ||| (row + column == 2 && self.anti_diagonal_complete(mark))
    }

    /// Somebody has won.
    pub open spec fn is_won(self) -> bool {
        self.winner.is_mark()
    }

    /// The board is full and nobody has won.
    pub open spec fn is_drawn(self) -> bool {
        self.board_full() && !self.winner.is_mark()
    }

    /// The game is still being played.
    pub open spec fn is_ongoing(self) -> bool {
        !self.is_over()
    }

    /// No further move is accepted.
    pub open spec fn is_over(self) -> bool {
        self.board_full() || self.winner.is_mark()
    }

    /// What holds of every state a game can be in: the board is 3×3, one of
    /// the two players is to move, `X` has placed as many marks as `O` or
    /// one more according to whose turn it is, and the winner is the one
    /// player, if any, who holds a line, and was the last to move.
    pub open spec fn wf(self) -> bool {
        &&& self.has_shape()
        &&& self.current_player.is_mark()
        &&& self.count(Player::X) == self.count(Player::O) + (if self.current_player
            == Player::O {
            1nat
        } else {
            0nat
        })
        &&& self.has_line(Player::X) <==> self.winner == Player::X
        &&& self.has_line(Player::O) <==> self.winner == Player::O
        &&& self.winner.is_mark() ==> self.winner == self.current_player.opponent()
    }

    /// Whether a move to `(row, column)` is accepted, and why not. The
    /// position is examined first, then whether the game is over, then the
    /// cell.
    pub open spec fn move_outcome(self, row: int, column: int) -> Result<(), Error> {
        if !on_board(row, column) {
            Err(Error::PositionIsOutsideBoard)
        } else if self.is_over() {
            Err(Error::GameOver)
        } else if self.cell(row, column).is_mark() {
            Err(Error::CellIsNotEmpty)
        } else {
            Ok(())
        }
    }

    /// The board with `mark` written to `(row, column)`.
    pub open spec fn placed(self, row: int, column: int, mark: Player) -> Seq<Player>
        recommends
            self.has_shape(),
            on_board(row, column),
    {
        self.board.update(3 * row + column, mark)
    }

    /// The state after the player to move has marked `(row, column)`: the
    /// mark is on the board, the mover has won if it completed a line
    /// through that cell, and the turn passes to the opponent either way.
    pub open spec fn after_move(self, row: int, column: int) -> GameState
        recommends
            self.move_outcome(row, column) is Ok,
    {
        let marked = GameState {
            board: self.placed(row, column, self.current_player),
            current_player: self.current_player,
            winner: self.winner,
        };
        GameState {
            board: marked.board,
            current_player: self.current_player.opponent(),
            winner: if marked.line_through(self.current_player, row, column) {
                self.current_player
            } else {
                self.winner
            },
        }
    }

    /// The state that a request to move to `(row, column)` leaves behind:
    /// an accepted move is made, a rejected one changes nothing.
    pub open spec fn apply_move(self, row: int, column: int) -> GameState {
        if self.move_outcome(row, column) is Ok {
            self.after_move(row, column)
        } else {
            self
        }
    }
}

} // verus!
