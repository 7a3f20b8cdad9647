//! The two sides of a chess game.

use vstd::prelude::*;

verus! {

/// Which player needs to make their move next.
#[derive(Clone, Copy, PartialEq, Eq, Structural, Debug)]
pub enum Color {
    White,
    Black,
}

/// The other side.
pub open spec fn spec_opposite(c: Color) -> Color {
    match c {
        Color::White => Color::Black,
        Color::Black => Color::White,
    }
}

/// Index of the row that is home for this color.
pub open spec fn spec_home(c: Color) -> int {
    match c {
        Color::White => 0,
        Color::Black => 7,
    }
}

/// Row offset representing forwards for this color.
pub open spec fn spec_direction(c: Color) -> int {
    match c {
        Color::White => 1,
        Color::Black => -1,
    }
}

impl Color {
    /// The other side.
    pub fn opposite(self) -> (r: Self)
        ensures
            r == spec_opposite(self),
    {
        match self {
            Color::White => Color::Black,
            Color::Black => Color::White,
        }
    }

    /// Returns the index of the row that is home for this color.
    pub fn get_home(self) -> (r: i8)
        ensures
            r as int == spec_home(self),
    {
        match self {
            Color::White => 0,
            Color::Black => 7,
        }
    }

    /// Returns a row offset representing forwards for this color.
    pub fn get_direction(self) -> (r: i8)
        ensures
            r as int == spec_direction(self),
    {
        match self {
            Color::White => 1,
            Color::Black => -1,
        }
    }
}

} // verus!
