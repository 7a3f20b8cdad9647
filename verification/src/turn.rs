//! A single ply: the piece moved, where it goes, and what else the move
//! touches (a capture, a second relocating piece, a promotion).

use crate::piece::PieceType;
use crate::position::Position;
use vstd::prelude::*;

verus! {

/// Represents a move that can be made. A `Turn` is an immutable value
/// once constructed; the move generator produces it and
/// `make_turn`/`undo_turn` consume it.
#[derive(Clone, Copy, PartialEq, Eq, Debug)]
pub struct Turn {
    /// Kind of piece being moved.
    pub kind: PieceType,
    /// Position to move from.
    pub from: Position,
    /// Position to move to.
    pub to: Position,
    /// Position of any piece being captured in the move. For an ordinary
    /// capture this equals `to`; for en passant it does not.
    pub capture: Option<Position>,
    /// From/to positions of any other piece that needs to be moved
    /// (the castling rook).
    pub additional_move: Option<(Position, Position)>,
    /// The kind of piece to promote to.
    pub promote_to: Option<PieceType>,
    /// The kind of piece that was promoted from, recorded so the
    /// promotion can be undone.
    pub promote_from: Option<PieceType>,
}

/// Every square the turn names lies on the board.
pub open spec fn turn_wf(t: Turn) -> bool {
    &&& t.from.wf()
    &&& t.to.wf()
    &&& (t.capture matches Some(c) ==> c.wf())
    &&& (t.additional_move matches Some((af, at)) ==> af.wf() && at.wf())
}

impl Turn {
    /// Every square this turn names lies on the board.
    pub open spec fn wf(self) -> bool {
        turn_wf(self)
    }

    /// Create a move where you can specify any properties.
    pub fn new(
        kind: PieceType,
        from: Position,
        to: Position,
        capture: Option<Position>,
        additional_move: Option<(Position, Position)>,
        promote_to: Option<PieceType>,
    ) -> (r: Self)
        ensures
            r == (Turn {
                kind,
                from,
                to,
                capture,
                additional_move,
                promote_to,
                promote_from: if promote_to is Some {
                    Some(kind)
                } else {
                    None
                },
            }),
    {
        Self {
            kind,
            from,
            to,
            capture,
            additional_move,
            promote_to,
            promote_from: if promote_to.is_some() {
                Some(kind)
            } else {
                None
            },
        }
    }

    /// Create a new basic move.
    pub fn new_basic(kind: PieceType, from: Position, to: Position) -> (r: Self)
        ensures
            r == (Turn {
                kind,
                from,
                to,
                capture: None,
                additional_move: None,
                promote_to: None,
                promote_from: None,
            }),
    {
        Self {
            kind,
            from,
            to,
            capture: None,
            additional_move: None,
            promote_to: None,
            promote_from: None,
        }
    }

    /// Create a new move that captures the piece on the destination square.
    pub fn new_capture(kind: PieceType, from: Position, to: Position) -> (r: Self)
        ensures
            r == (Turn {
                kind,
                from,
                to,
                capture: Some(to),
                additional_move: None,
                promote_to: None,
                promote_from: None,
            }),
    {
        Self {
            kind,
            from,
            to,
            capture: Some(to),
            additional_move: None,
            promote_to: None,
            promote_from: None,
        }
    }

    /// Create a new move that involves an additional move.
    pub fn new_additional(
        kind: PieceType,
        main: (Position, Position),
        other: (Position, Position),
    ) -> (r: Self)
        ensures
            r == (Turn {
                kind,
                from: main.0,
                to: main.1,
                capture: None,
                additional_move: Some(other),
                promote_to: None,
                promote_from: None,
            }),
    {
        Self {
            kind,
            from: main.0,
            to: main.1,
            capture: None,
            additional_move: Some(other),
            promote_to: None,
            promote_from: None,
        }
    }

    /// Create a new move that involves a capture on a different square.
    pub fn new_capture_complex(
        kind: PieceType,
        from: Position,
        to: Position,
        capture: Position,
    ) -> (r: Self)
        ensures
            r == (Turn {
                kind,
                from,
                to,
                capture: Some(capture),
                additional_move: None,
                promote_to: None,
                promote_from: None,
            }),
    {
        Self {
            kind,
            from,
            to,
            capture: Some(capture),
            additional_move: None,
            promote_to: None,
            promote_from: None,
        }
    }

    /// Create a new move that involves a promotion.
    pub fn new_promotion(
        kind: PieceType,
        from: Position,
        to: Position,
        promote_to: PieceType,
        capture: bool,
    ) -> (r: Self)
        ensures
            r == (Turn {
                kind,
                from,
                to,
                capture: if capture {
                    Some(to)
                } else {
                    None
                },
                additional_move: None,
                promote_to: Some(promote_to),
                promote_from: Some(kind),
            }),
    {
        Self {
            kind,
            from,
            to,
            capture: if capture {
                Some(to)
            } else {
                None
            },
            additional_move: None,
            promote_to: Some(promote_to),
            promote_from: Some(kind),
        }
    }
}

} // verus!
