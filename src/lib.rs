//! A two-player tic-tac-toe engine whose whole state lives in one game record.
//!
//! Every operation is a transition on that record: it either succeeds and
//! commits the new record, or fails with an [`ErrorCode`] and leaves the
//! record exactly as it was.

pub mod board;
pub mod game;
pub mod identity;
pub mod laws;

pub use game::{close_game, initialize_game, join_game, make_move, ErrorCode, Game, GameStatus};
pub use identity::Identity;
