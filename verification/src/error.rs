use vstd::prelude::*;

verus! {

/// Why a move or a query was rejected.
#[derive(Eq, PartialEq, Debug, Structural)]
pub enum Error {
    /// Specified position is outside of the board
    PositionIsOutsideBoard,
    /// The cell is not empty
    CellIsNotEmpty,
    /// The game is over
    GameOver,
}

} // verus!
