use vstd::prelude::*;
use crate::error::Error;

verus! {

/// Whether `(row, column)` names one of the nine cells.
pub open spec fn on_board(row: int, column: int) -> bool {
    0 <= row <= 2 && 0 <= column <= 2
}

/// Checks of arguments that every operation shares.
pub struct Guard;

impl Guard {
    /// Accepts exactly the positions on the board.
    pub fn validate_board_position(row: u32, column: u32) -> (r: Result<(), Error>)
        ensures
            r == (if on_board(row as int, column as int) {
                Ok::<(), Error>(())
            } else {
                Err(Error::PositionIsOutsideBoard)
            }),
    {
        if row > 2 || column > 2 {
            Err(Error::PositionIsOutsideBoard)
        } else {
            Ok(())
        }
    }
}

} // verus!
