//! Terminal-state classification values.

use crate::color::Color;
use vstd::prelude::*;

verus! {

/// Reasons for a draw.
#[derive(Clone, Copy, PartialEq, Eq, Structural, Debug)]
pub enum DrawReason {
    /// Same position 3 times.
    ThreefoldRepetition,
    /// 50 moves without a capture or pawn push.
    FiftyMoveRule,
    /// No moves available, but not checkmate.
    Stalemate,
    /// Not enough material for checkmate.
    InsufficientMaterial,
    /// Both players agreed to it. Not tracked.
    MutualAgreement,
    /// Time out, with the remaining player having insufficient mating
    /// material. Not tracked.
    TimeOut,
}

/// Reasons for a win.
#[derive(Clone, Copy, PartialEq, Eq, Structural, Debug)]
pub enum WinReason {
    /// Win by checkmate.
    Checkmate,
    /// Opponent timed out. Not tracked.
    TimeOut,
    /// Opponent resigned. Not tracked.
    Resigned,
}

/// The state of a game: still being played, won, or drawn.
#[derive(Clone, Copy, PartialEq, Eq, Structural, Debug)]
pub enum GameState {
    Playing,
    Win(Color, WinReason),
    Draw(DrawReason),
}

} // verus!
