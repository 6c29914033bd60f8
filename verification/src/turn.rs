use vstd::prelude::*;
use crate::error::Error;
use crate::game::Game;
use crate::input::{parse_move, parsed_move};
use crate::state::GameState;
use crate::tic_tac_toe::TicTacToe;

verus! {

/// What the game answers to one line of input.
#[derive(Eq, PartialEq, Debug, Structural)]
pub enum Reply {
    /// The line asked for a move, and the move was made.
    Moved,
    /// The line asked for a move, and the game rejected it.
    Rejected(Error),
    /// The line asked for no move.
    Invalid,
}

/// The answer to a line of input in a given state.
pub open spec fn reply_to(state: GameState, line: Seq<char>) -> Reply {
    match parsed_move(line) {
        None => Reply::Invalid,
        Some((row, column)) => match state.move_outcome(row as int, column as int) {
            Ok(_) => Reply::Moved,
            Err(error) => Reply::Rejected(error),
        },
    }
}

/// The state that a line of input leaves behind.
pub open spec fn state_after_line(state: GameState, line: Seq<char>) -> GameState {
    match parsed_move(line) {
        None => state,
        Some((row, column)) => state.apply_move(row as int, column as int),
    }
}

/// A line of input changes the game only where the answer is `Moved`.
pub proof fn only_a_move_changes_the_game(state: GameState, line: Seq<char>)
    ensures
        reply_to(state, line) != Reply::Moved ==> state_after_line(state, line) == state,
        reply_to(state, line) == Reply::Moved ==> state_after_line(state, line).current_player
            == state.current_player.opponent(),
{
}

/// Reads a move from a line of input and makes it.
pub fn answer(game: &mut Game, line: &str) -> (reply: Reply)
    ensures
        reply == reply_to(old(game)@, line@),
        final(game)@ == state_after_line(old(game)@, line@),
        final(game)@.wf(),
{
    match parse_move(line) {
        Some((row, column)) => match game.make_move(row, column) {
            Ok(_) => Reply::Moved,
            Err(error) => Reply::Rejected(error),
        },
        None => {
            proof {
                use_type_invariant(&*game);
            }
            Reply::Invalid
        },
    }
}

} // verus!
