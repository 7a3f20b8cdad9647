//! Squares of the chess board, addressed by row and column in `[0, 8)`.

use crate::color::Color;
use vstd::prelude::*;

verus! {

/// A square on the chess board. `row` 0 is White's home rank, `col` 0 is
/// the A file. Valid squares satisfy [`Position::wf`].
#[derive(Clone, Copy, PartialEq, Eq, Structural, Debug)]
pub struct Position {
    pub row: i8,
    pub col: i8,
}

/// Both coordinates of the square lie on the board.
pub open spec fn pos_wf(p: Position) -> bool {
    0 <= p.row < 8 && 0 <= p.col < 8
}

/// Index of the square in a row-major 64-slot array.
pub open spec fn sq_index(p: Position) -> int {
    p.row * 8 + p.col
}

/// The square at the given row and column.
pub open spec fn square_at(row: int, col: int) -> Position {
    Position { row: row as i8, col: col as i8 }
}

impl Position {
    /// Both coordinates of this square lie on the board.
    pub open spec fn wf(self) -> bool {
        pos_wf(self)
    }

    /// Create a position from a row and a column, both in `[0, 8)`.
    pub fn new(row: i8, col: i8) -> (r: Self)
        requires
            0 <= row < 8,
            0 <= col < 8,
        ensures
            r == square_at(row as int, col as int),
            r.wf(),
    {
        Position { row, col }
    }

    /// Index in `[0, 64)` of this square, for indexing into a board.
    pub fn pos(&self) -> (r: usize)
        requires
            self.wf(),
        ensures
            r as int == sq_index(*self),
            r < 64,
    {
        (self.row as usize) * 8 + (self.col as usize)
    }

    /// Rank of this square, as 1 - 8.
    pub fn rank(&self) -> (r: i8)
        requires
            self.wf(),
        ensures
            r as int == self.row + 1,
    {
        self.row + 1
    }

    /// Row of this square, as 0 - 7.
    pub fn row(&self) -> (r: i8)
        ensures
            r == self.row,
    {
        self.row
    }

    /// File of this square, as 'A' - 'H'.
    pub fn file(&self) -> (r: char)
        requires
            self.wf(),
        ensures
            r as int == 'A' as int + self.col,
    {
        ((self.col as u8) + 65u8) as char
    }

    /// Column of this square, as 0 - 7.
    pub fn col(&self) -> (r: i8)
        ensures
            r == self.col,
    {
        self.col
    }

    /// Color of this square: dark squares (such as A1) are black.
    pub fn color(&self) -> (r: Color)
        requires
            self.wf(),
        ensures
            r == spec_square_color(*self),
    {
        if (self.row + self.col) % 2 == 0 {
            Color::Black
        } else {
            Color::White
        }
    }

    /// Offset this square by a number of rows and columns; `None` when the
    /// result would leave the board.
    pub fn offset(&self, row: i8, col: i8) -> (r: Option<Self>)
        requires
            self.wf(),
        ensures
            r == spec_offset(*self, row as int, col as int),
    {
        let y: i16 = (self.row as i16) + (row as i16);
        let x: i16 = (self.col as i16) + (col as i16);

        if !(0 <= x && x < 8) || !(0 <= y && y < 8) {
            None
        } else {
            Some(Self::new(y as i8, x as i8))
        }
    }
}

/// Color of a square, determined by the parity of `row + col`.
pub open spec fn spec_square_color(p: Position) -> Color {
    if (p.row + p.col) % 2 == 0 {
        Color::Black
    } else {
        Color::White
    }
}

/// The square a number of rows and columns away, or `None` at the board edge.
pub open spec fn spec_offset(p: Position, dr: int, dc: int) -> Option<Position> {
    let r2 = p.row + dr;
    let c2 = p.col + dc;
    if 0 <= r2 < 8 && 0 <= c2 < 8 {
        Some(square_at(r2, c2))
    } else {
        None
    }
}

/// Distinct valid squares have distinct row-major indices.
pub proof fn lemma_sq_index_injective(p: Position, q: Position)
    requires
        p.wf(),
        q.wf(),
        p != q,
    ensures
        sq_index(p) != sq_index(q),
{
}

} // verus!
