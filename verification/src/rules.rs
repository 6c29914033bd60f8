use vstd::prelude::*;
use vstd::seq_lib::{to_multiset_contains, to_multiset_update};
use crate::error::Error;
use crate::guard::on_board;
use crate::player::Player;
use crate::state::GameState;

verus! {

/// A new game is valid and still to be played: every cell is empty, `X`
/// moves first and nobody has won.
pub proof fn initial_state_is_blank()
    ensures
        GameState::initial().wf(),
        forall|row: int, column: int|
            on_board(row, column) ==> #[trigger] GameState::initial().cell(row, column)
                == Player::Empty,
        GameState::initial().current_player == Player::X,
        GameState::initial().winner == Player::Empty,
        !GameState::initial().is_over(),
{
    let start = GameState::initial();
    to_multiset_contains(start.board, Player::X);
    to_multiset_contains(start.board, Player::O);
    assert(!start.board[0].is_mark());
}

/// An accepted move adds one mark of the mover to the board and takes none
/// away.
proof fn after_move_counts(state: GameState, row: int, column: int)
    requires
        state.has_shape(),
        state.current_player.is_mark(),
        state.move_outcome(row, column) is Ok,
    ensures
        state.after_move(row, column).count(state.current_player) == state.count(
            state.current_player,
        ) + 1,
        state.after_move(row, column).count(state.current_player.opponent()) == state.count(
            state.current_player.opponent(),
        ),
{
    to_multiset_update(state.board, 3 * row + column, state.current_player);
}

/// Whatever is asked of a valid game, the game stays valid.
pub proof fn apply_move_preserves_wf(state: GameState, row: int, column: int)
    requires
        state.wf(),
    ensures
        state.apply_move(row, column).wf(),
{
    if state.move_outcome(row, column) is Ok {
        after_move_counts(state, row, column);
    }
}

/// After an accepted move the mover has won exactly if the mover holds a
/// line anywhere on the board, and the opponent holds none: looking only at
/// the lines through the last move misses no win.
pub proof fn win_passes_through_last_move(state: GameState, row: int, column: int)
    requires
        state.wf(),
        state.move_outcome(row, column) is Ok,
    ensures
        state.after_move(row, column).winner == state.current_player
            <==> state.after_move(row, column).has_line(state.current_player),
        !state.after_move(row, column).has_line(state.current_player.opponent()),
{
    apply_move_preserves_wf(state, row, column);
}

/// An accepted move writes the mover's mark to its cell and leaves the other
/// eight cells as they were.
pub proof fn accepted_move_marks_one_cell(state: GameState, row: int, column: int)
    requires
        state.wf(),
        state.move_outcome(row, column) is Ok,
    ensures
        state.apply_move(row, column).cell(row, column) == state.current_player,
        forall|r: int, c: int|
            on_board(r, c) && !(r == row && c == column) ==> #[trigger] state.apply_move(
                row,
                column,
            ).cell(r, c) == state.cell(r, c),
{
}

/// Every accepted move passes the turn to the other player, the winning
/// move included.
pub proof fn accepted_move_toggles_player(state: GameState, row: int, column: int)
    requires
        state.wf(),
        state.move_outcome(row, column) is Ok,
    ensures
        state.apply_move(row, column).current_player == state.current_player.opponent(),
        state.apply_move(row, column).current_player != state.current_player,
        state.apply_move(row, column).current_player.is_mark(),
        state.apply_move(row, column).current_player.opponent() == state.current_player,
{
}

/// A rejected move changes nothing: not the board, not the turn, not the
/// winner.
pub proof fn rejected_move_changes_nothing(state: GameState, row: int, column: int)
    requires
        state.move_outcome(row, column) is Err,
    ensures
        state.apply_move(row, column) == state,
{
}

/// A move to a position off the board is rejected as such, whatever state
/// the game is in, and changes nothing.
pub proof fn off_board_move_is_rejected(state: GameState, row: int, column: int)
    requires
        !on_board(row, column),
    ensures
        state.move_outcome(row, column) == Err::<(), Error>(Error::PositionIsOutsideBoard),
        state.apply_move(row, column) == state,
{
}

/// The same move asked a second time is rejected because its cell is taken,
/// as long as the first did not end the game.
pub proof fn repeated_move_is_rejected(state: GameState, row: int, column: int)
    requires
        state.wf(),
        state.move_outcome(row, column) is Ok,
        !state.apply_move(row, column).is_over(),
    ensures
        state.apply_move(row, column).move_outcome(row, column) == Err::<(), Error>(
            Error::CellIsNotEmpty,
        ),
{
}

/// Once a game is won or drawn, every move to a position on the board is
/// rejected because the game is over, and the state, the winner included,
/// stays as it is.
pub proof fn finished_game_rejects_moves(state: GameState, row: int, column: int)
    requires
        state.is_over(),
        on_board(row, column),
    ensures
        state.move_outcome(row, column) == Err::<(), Error>(Error::GameOver),
        state.apply_move(row, column) == state,
{
}

/// A cell that holds a mark holds it for the rest of the game, whatever
/// moves are asked for.
pub proof fn marks_are_permanent(state: GameState, row: int, column: int, r: int, c: int)
    requires
        state.wf(),
        on_board(r, c),
        state.cell(r, c).is_mark(),
    ensures
        state.apply_move(row, column).cell(r, c) == state.cell(r, c),
{
}

/// Once there is a winner, it stays the winner.
pub proof fn winner_is_permanent(state: GameState, row: int, column: int)
    requires
        state.winner.is_mark(),
    ensures
        state.apply_move(row, column).winner == state.winner,
{
}

/// A board is full exactly if each of its nine positions holds a mark.
pub proof fn full_board_has_no_empty_cell(state: GameState)
    requires
        state.has_shape(),
    ensures
        state.board_full() <==> (forall|row: int, column: int|
            on_board(row, column) ==> (#[trigger] state.cell(row, column)).is_mark()),
{
    if forall|row: int, column: int|
        on_board(row, column) ==> (#[trigger] state.cell(row, column)).is_mark() {
        assert forall|i: int| 0 <= i < 9 implies (#[trigger] state.board[i]).is_mark() by {
            assert(state.cell(i / 3, i % 3).is_mark());
        }
    }
}

/// A game is in exactly one of three conditions: still being played, won,
/// or drawn.
pub proof fn exactly_one_status(state: GameState)
    ensures
        state.is_ongoing() || state.is_won() || state.is_drawn(),
        !(state.is_ongoing() && state.is_won()),
        !(state.is_ongoing() && state.is_drawn()),
        !(state.is_won() && state.is_drawn()),
{
}

/// A valid game with a full board holds five marks of `X` and four of `O`,
/// and it is `O` whose turn would be next.
pub proof fn full_board_counts(state: GameState)
    requires
        state.wf(),
        state.board_full(),
    ensures
        state.count(Player::X) == 5,
        state.count(Player::O) == 4,
        state.current_player == Player::O,
{
    state.board.to_multiset_ensures();
    to_multiset_contains(state.board, Player::Empty);
    assert(state.board.to_multiset().count(Player::Empty) == 0) by {
        if state.board.contains(Player::Empty) {
            let i = choose|i: int| 0 <= i < state.board.len() && state.board[i] == Player::Empty;
            assert(state.board[i].is_mark());
        }
    }
    assert(state.count(Player::X) + state.count(Player::O) == 9) by {
        count_by_mark(state.board);
    }
}

/// Every cell holds one of the three marks, so the three counts add up to
/// the number of cells.
proof fn count_by_mark(cells: Seq<Player>)
    ensures
        cells.to_multiset().count(Player::Empty) + cells.to_multiset().count(Player::X)
            + cells.to_multiset().count(Player::O) == cells.len(),
    decreases cells.len(),
{
    broadcast use vstd::seq_lib::group_to_multiset_ensures;

    if cells.len() == 0 {
        assert(cells.to_multiset() =~= vstd::multiset::Multiset::<Player>::empty());
    } else {
        let rest = cells.drop_last();
        count_by_mark(rest);
        assert(cells =~= rest.push(cells.last()));
        assert(cells.to_multiset() =~= rest.to_multiset().insert(cells.last()));
    }
}

} // verus!
