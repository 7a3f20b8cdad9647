//! A verified chess rules engine: board state, legal move generation,
//! the make/undo protocol with its exact-inverse guarantee, attack and
//! check detection, and terminal-state classification.

pub mod board;
pub mod color;
pub mod fen;
pub mod game_state;
pub mod model;
pub mod moves;
pub mod piece;
pub mod position;
pub mod turn;

pub use board::Board;
pub use color::Color;
pub use fen::FenError;
pub use game_state::{DrawReason, GameState, WinReason};
pub use piece::{Piece, PieceType};
pub use position::Position;
pub use turn::Turn;
