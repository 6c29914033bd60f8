use vstd::prelude::*;
use crate::state::GameState;

verus! {

/// One row of the board as a line of text: the three glyphs, separated by
/// single spaces, and a line feed.
pub open spec fn row_text(state: GameState, row: int) -> Seq<char> {
    seq![
        state.cell(row, 0).spec_glyph(),
        ' ',
        state.cell(row, 1).spec_glyph(),
        ' ',
        state.cell(row, 2).spec_glyph(),
        '\n',
    ]
}

/// The line below the board: the winner if there is one, else that the game
/// is drawn if the board is full, else whose turn it is.
pub open spec fn status_text(state: GameState) -> Seq<char> {
    if state.winner.is_mark() {
        "Winner: "@.push(state.winner.spec_glyph()).push('\n')
    } else if state.board_full() {
        "Draw\n"@
    } else {
        "Current player: "@.push(state.current_player.spec_glyph()).push('\n')
    }
}

/// The whole game as text: the three rows from top to bottom, then the
/// status line.
pub open spec fn rendered(state: GameState) -> Seq<char> {
    row_text(state, 0) + row_text(state, 1) + row_text(state, 2) + status_text(state)
}

} // verus!
