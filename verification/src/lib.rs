//! A tic-tac-toe engine: the rules of one game on a 3×3 board, with move
//! validation, turn tracking, win detection and a textual rendering.
//!
//! The executable types are [`Game`], [`Player`] and [`Error`]; what they
//! mean is stated over the mathematical model in [`state`].

pub mod error;
pub mod game;
pub mod guard;
pub mod input;
pub mod player;
pub mod rules;
pub mod state;
pub mod text;
pub mod tic_tac_toe;
pub mod turn;

pub use crate::error::Error;
pub use crate::game::{game_over, Game};
pub use crate::guard::Guard;
pub use crate::input::parse_move;
pub use crate::player::Player;
pub use crate::state::GameState;
pub use crate::tic_tac_toe::TicTacToe;
pub use crate::turn::{answer, Reply};
