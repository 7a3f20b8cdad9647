//! Pieces and their pure movement geometry.

use crate::board::Board;
use crate::color::{spec_direction, spec_home, spec_opposite, Color};
use crate::model::{history_last_wf, BoardModel};
use crate::position::{sq_index, Position};
use vstd::prelude::*;

verus! {

/// Enum representing all possible kinds of pieces.
#[derive(Clone, Copy, PartialEq, Eq, Structural, Debug)]
pub enum PieceType {
    King,
    Queen,
    Rook,
    Bishop,
    Knight,
    Pawn,
}

/// Represents a piece on the board. `move_count` counts the moves this
/// piece has made; it gates castling eligibility.
#[derive(Clone, Copy, PartialEq, Eq, Structural, Debug)]
pub struct Piece {
    pub kind: PieceType,
    pub color: Color,
    pub move_count: i32,
}

impl Piece {
    /// A piece that has not moved yet.
    pub fn new(kind: PieceType, color: Color) -> (r: Self)
        ensures
            r == (Piece { kind, color, move_count: 0 }),
    {
        Self { kind, color, move_count: 0 }
    }

    /// Returns whether the piece could move between these squares on an
    /// otherwise empty board.
    ///
    /// This ignores checks, captures, and pieces in the way, as they are
    /// dealt with elsewhere; except for pawns, whose steps depend on
    /// occupancy and on the previous move.
    pub fn could_move_to(&self, from: Position, to: Position, board: &Board) -> (r: bool)
        requires
            board@.wf(),
            history_last_wf(board@),
            from.wf(),
            to.wf(),
        ensures
            r == could_move_spec(*self, from, to, board@),
    {
        if from == to {
            false
        } else {
            match self.kind {
                PieceType::King => self.could_king_move_to(from, to),
                PieceType::Queen => self.could_queen_move_to(from, to),
                PieceType::Rook => self.could_rook_move_to(from, to),
                PieceType::Bishop => self.could_bishop_move_to(from, to),
                PieceType::Knight => self.could_knight_move_to(from, to),
                PieceType::Pawn => self.could_pawn_move_to(from, to, board),
            }
        }
    }

    fn could_king_move_to(&self, from: Position, to: Position) -> (r: bool)
        requires
            from.wf(),
            to.wf(),
        ensures
            r == king_geometry(from, to),
    {
        abs_i8(from.row() - to.row()) <= 1 && abs_i8(from.col() - to.col()) <= 1
    }

    fn could_rook_move_to(&self, from: Position, to: Position) -> (r: bool)
        ensures
            r == rook_geometry(from, to),
    {
        from.row() == to.row() || from.col() == to.col()
    }

    fn could_bishop_move_to(&self, from: Position, to: Position) -> (r: bool)
        requires
            from.wf(),
            to.wf(),
        ensures
            r == bishop_geometry(from, to),
    {
        from.row() - from.col() == to.row() - to.col()
            || from.row() + from.col() == to.row() + to.col()
    }

    fn could_queen_move_to(&self, from: Position, to: Position) -> (r: bool)
        requires
            from.wf(),
            to.wf(),
        ensures
            r == (rook_geometry(from, to) || bishop_geometry(from, to)),
    {
        self.could_rook_move_to(from, to) || self.could_bishop_move_to(from, to)
    }

    fn could_knight_move_to(&self, from: Position, to: Position) -> (r: bool)
        requires
            from.wf(),
            to.wf(),
        ensures
            r == knight_geometry(from, to),
    {
        let row_diff = abs_i8(from.row() - to.row());
        let col_diff = abs_i8(from.col() - to.col());
        row_diff == 2 && col_diff == 1 || row_diff == 1 && col_diff == 2
    }

    fn could_pawn_move_to(&self, from: Position, to: Position, board: &Board) -> (r: bool)
        requires
            board@.wf(),
            history_last_wf(board@),
            from.wf(),
            to.wf(),
        ensures
            r == pawn_step(self.color, from, to, board@),
    {
        let dir = self.color.get_direction();
        let dr = to.row() - from.row();
        let col_diff = abs_i8(from.col() - to.col());
        if col_diff == 0 {
            if !(dr == dir || (dr == 2 * dir && from.row() == self.color.get_home() + dir)) {
                return false;
            }
            board.at_position(to).is_none()
        } else if col_diff == 1 && dr == dir {
            if let Some(other) = board.at_position(to) {
                other.color != self.color
            } else {
                // Diagonal onto an empty square: only as an en-passant
                // inference from the immediately preceding move.
                if let Some(prev) = board.get_prev_turn() {
                    prev.kind == PieceType::Pawn && to.row() == prev.to.row()
                        && to.row() + 2 * dir == prev.from.row()
                        && abs_i8(to.col() - prev.to.col()) == 1
                } else {
                    false
                }
            }
        } else {
            false
        }
    }
}

/// Absolute value of a small signed integer.
pub open spec fn abs_spec(x: int) -> int {
    if x < 0 {
        -x
    } else {
        x
    }
}

fn abs_i8(x: i8) -> (r: i8)
    requires
        -16 <= x <= 16,
    ensures
        r as int == abs_spec(x as int),
{
    if x < 0 {
        -x
    } else {
        x
    }
}

/// Kings step at most one square in each direction.
pub open spec fn king_geometry(from: Position, to: Position) -> bool {
    abs_spec(from.row - to.row) <= 1 && abs_spec(from.col - to.col) <= 1
}

/// Rooks stay on one row or one column.
pub open spec fn rook_geometry(from: Position, to: Position) -> bool {
    from.row == to.row || from.col == to.col
}

/// Bishops stay on one diagonal.
pub open spec fn bishop_geometry(from: Position, to: Position) -> bool {
    from.row - from.col == to.row - to.col || from.row + from.col == to.row + to.col
}

/// Knights move one square on one axis and two on the other.
pub open spec fn knight_geometry(from: Position, to: Position) -> bool {
    let rd = abs_spec(from.row - to.row);
    let cd = abs_spec(from.col - to.col);
    (rd == 2 && cd == 1) || (rd == 1 && cd == 2)
}

/// The previous move was a double pawn push that lets a pawn of color `c`
/// capture onto `to` diagonally, as inferred from the move history alone.
pub open spec fn en_passant_inference(m: BoardModel, c: Color, to: Position) -> bool {
    m.moves.len() > 0 && {
        let prev = m.moves.last();
        &&& prev.kind == PieceType::Pawn
        &&& to.row == prev.to.row
        &&& to.row + 2 * spec_direction(c) == prev.from.row
        &&& abs_spec(to.col - prev.to.col) == 1
    }
}

/// A pawn of color `c` could step from `from` to `to`: forward one square
/// (or two from the rank next to home) onto an empty square, or diagonally
/// forward one square onto an enemy piece or a valid en-passant target.
pub open spec fn pawn_step(c: Color, from: Position, to: Position, m: BoardModel) -> bool {
    let dir = spec_direction(c);
    let dr = to.row - from.row;
    let cd = abs_spec(from.col - to.col);
    if cd == 0 {
        &&& (dr == dir || (dr == 2 * dir && from.row == spec_home(c) + dir))
        &&& m.squares[sq_index(to)] is None
    } else if cd == 1 && dr == dir {
        match m.squares[sq_index(to)] {
            Some(q) => q.color == spec_opposite(c),
            None => en_passant_inference(m, c, to),
        }
    } else {
        false
    }
}

/// The piece could move between the squares, ignoring intervening
/// occupancy except for pawns; used for attack detection.
pub open spec fn could_move_spec(p: Piece, from: Position, to: Position, m: BoardModel) -> bool {
    if from == to {
        false
    } else {
        match p.kind {
            PieceType::King => king_geometry(from, to),
            PieceType::Queen => rook_geometry(from, to) || bishop_geometry(from, to),
            PieceType::Rook => rook_geometry(from, to),
            PieceType::Bishop => bishop_geometry(from, to),
            PieceType::Knight => knight_geometry(from, to),
            PieceType::Pawn => pawn_step(p.color, from, to, m),
        }
    }
}

} // verus!
