use vstd::prelude::*;

verus! {

/// A game of tic-tac-toe, which may be ongoing or finished.
pub trait TicTacToe: Clone {
    /// Identifies the X player, the O player, or nobody (an empty cell, no
    /// winner).
    type Player;

    /// The reasons for which an operation can be rejected.
    type Error;

    /// A new game. It is the X player's turn.
    fn new() -> Self;

    /// Makes a move for the player whose turn it is.
    fn make_move(&mut self, row: u32, column: u32) -> Result<(), Self::Error>;

    /// The player whose turn it currently is.
    fn current_player(&self) -> Self::Player;

    /// The winner of the game.
    fn winner(&self) -> Self::Player;

    /// The player with a mark at the given (row, column) of the board.
    fn get_board_position(&self, row: u32, column: u32) -> Result<Self::Player, Self::Error>;

    /// The board and the state of play as text.
    fn render(&self) -> String;

    /// Puts the game back into the state in which it was constructed.
    fn reset(&mut self);
}

} // verus!
