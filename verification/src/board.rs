//! The board: 64 squares, capture stack, move history, half-move-clock
//! stack, full-move counter and en-passant target, with the
//! `make_turn`/`undo_turn` mutation protocol.

use crate::color::Color;
use crate::model::{
    fifty_move_spec, spec_make, spec_undo, turn_applicable, undo_able, BoardModel,
};
use crate::piece::{Piece, PieceType};
use crate::position::Position;
use crate::turn::Turn;
use vstd::prelude::*;

verus! {

/// A chess board together with the history needed to undo moves.
#[derive(Debug, Clone)]
pub struct Board {
    /// Pieces that have been captured.
    captures: Vec<Piece>,
    /// 8x8 board, row-major.
    squares: Vec<Option<Piece>>,
    /// Whose turn it is to move.
    whose_turn: Color,
    /// Moves made so far.
    moves: Vec<Turn>,
    /// Half moves since a pawn push or capture, one frame per era.
    half_move_clock: Vec<i8>,
    /// Number of full moves.
    num_moves: i32,
    /// Position to target for en passant.
    en_passant_target: Option<Position>,
}

impl View for Board {
    type V = BoardModel;

    closed spec fn view(&self) -> BoardModel {
        BoardModel {
            squares: self.squares@,
            whose_turn: self.whose_turn,
            captures: self.captures@,
            moves: self.moves@,
            half_move_clock: self.half_move_clock@,
            num_moves: self.num_moves as int,
            en_passant_target: self.en_passant_target,
        }
    }
}

/// The piece that starts on the given back-rank column.
pub open spec fn start_back_rank(col: int) -> PieceType {
    if col == 0 || col == 7 {
        PieceType::Rook
    } else if col == 1 || col == 6 {
        PieceType::Knight
    } else if col == 2 || col == 5 {
        PieceType::Bishop
    } else if col == 3 {
        PieceType::Queen
    } else {
        PieceType::King
    }
}

/// Contents of square `i` (row-major) in the standard starting position.
pub open spec fn start_square(i: int) -> Option<Piece> {
    if 0 <= i < 8 {
        Some(Piece { kind: start_back_rank(i), color: Color::White, move_count: 0 })
    } else if 8 <= i < 16 {
        Some(Piece { kind: PieceType::Pawn, color: Color::White, move_count: 0 })
    } else if 48 <= i < 56 {
        Some(Piece { kind: PieceType::Pawn, color: Color::Black, move_count: 0 })
    } else if 56 <= i < 64 {
        Some(Piece { kind: start_back_rank(i - 56), color: Color::Black, move_count: 0 })
    } else {
        None
    }
}

/// The standard starting state: White to move, empty history, clock 0,
/// full-move number 1, no en-passant target.
pub open spec fn start_model() -> BoardModel {
    BoardModel {
        squares: Seq::new(64, |i: int| start_square(i)),
        whose_turn: Color::White,
        captures: Seq::empty(),
        moves: Seq::empty(),
        half_move_clock: seq![0i8],
        num_moves: 1,
        en_passant_target: None,
    }
}

fn back_rank_piece(col: usize) -> (r: PieceType)
    requires
        col < 8,
    ensures
        r == start_back_rank(col as int),
{
    if col == 0 || col == 7 {
        PieceType::Rook
    } else if col == 1 || col == 6 {
        PieceType::Knight
    } else if col == 2 || col == 5 {
        PieceType::Bishop
    } else if col == 3 {
        PieceType::Queen
    } else {
        PieceType::King
    }
}

impl Board {
    /// Create a board in the starting position.
    pub fn from_start() -> (r: Self)
        ensures
            r@ == start_model(),
    {
        let mut squares: Vec<Option<Piece>> = Vec::new();
        let mut i: usize = 0;
        while i < 64
            invariant
                i <= 64,
                squares@.len() == i,
                forall|j: int| 0 <= j < i ==> squares@[j] is None,
            decreases 64 - i,
        {
            squares.push(None);
            i = i + 1;
        }

        let mut col: usize = 0;
        while col < 8
            invariant
                col <= 8,
                squares@.len() == 64,
                forall|j: int| 0 <= j < col ==> squares@[j] == start_square(j),
                forall|j: int| col <= j < 64 ==> squares@[j] is None,
            decreases 8 - col,
        {
            squares[col] = Some(Piece::new(back_rank_piece(col), Color::White));
            col = col + 1;
        }
        let mut i: usize = 8;
        while i < 16
            invariant
                8 <= i <= 16,
                squares@.len() == 64,
                forall|j: int| 0 <= j < i ==> squares@[j] == start_square(j),
                forall|j: int| i <= j < 64 ==> squares@[j] is None,
            decreases 16 - i,
        {
            squares[i] = Some(Piece::new(PieceType::Pawn, Color::White));
            i = i + 1;
        }
        let mut i: usize = 48;
        while i < 56
            invariant
                48 <= i <= 56,
                squares@.len() == 64,
                forall|j: int| 0 <= j < 16 ==> squares@[j] == start_square(j),
                forall|j: int| 48 <= j < i ==> squares@[j] == start_square(j),
                forall|j: int| 16 <= j < 48 ==> squares@[j] is None,
                forall|j: int| i <= j < 64 ==> squares@[j] is None,
            decreases 56 - i,
        {
            squares[i] = Some(Piece::new(PieceType::Pawn, Color::Black));
            i = i + 1;
        }
        let mut col: usize = 0;
        while col < 8
            invariant
                col <= 8,
                squares@.len() == 64,
                forall|j: int| 0 <= j < 16 ==> squares@[j] == start_square(j),
                forall|j: int| 48 <= j < 56 + col ==> squares@[j] == start_square(j),
                forall|j: int| 16 <= j < 48 ==> squares@[j] is None,
                forall|j: int| 56 + col <= j < 64 ==> squares@[j] is None,
            decreases 8 - col,
        {
            squares[56 + col] = Some(Piece::new(back_rank_piece(col), Color::Black));
            col = col + 1;
        }

        let mut half_move_clock: Vec<i8> = Vec::new();
        half_move_clock.push(0);
        let board = Board {
            captures: Vec::new(),
            squares,
            whose_turn: Color::White,
            moves: Vec::new(),
            half_move_clock,
            num_moves: 1,
            en_passant_target: None,
        };
        proof {
            assert(board@.squares =~= start_model().squares);
            assert(board@.half_move_clock =~= start_model().half_move_clock);
            assert(board@.captures =~= start_model().captures);
            assert(board@.moves =~= start_model().moves);
        }
        board
    }

    /// Create a board in the starting position.
    pub fn new_from_start() -> (r: Self)
        ensures
            r@ == start_model(),
    {
        Self::from_start()
    }

    /// Build a board from a decoded position: a piece layout, the side to
    /// move, one half-move-clock frame, the full-move number and an
    /// optional en-passant target, with empty history.
    pub(crate) fn assemble(
        squares: Vec<Option<Piece>>,
        whose_turn: Color,
        half_move_clock: i8,
        num_moves: i32,
        en_passant_target: Option<Position>,
    ) -> (r: Self)
        ensures
            r@ == (BoardModel {
                squares: squares@,
                whose_turn,
                captures: Seq::empty(),
                moves: Seq::empty(),
                half_move_clock: seq![half_move_clock],
                num_moves: num_moves as int,
                en_passant_target,
            }),
    {
        let mut clock: Vec<i8> = Vec::new();
        clock.push(half_move_clock);
        let board = Board {
            captures: Vec::new(),
            squares,
            whose_turn,
            moves: Vec::new(),
            half_move_clock: clock,
            num_moves,
            en_passant_target,
        };
        proof {
            assert(board@.half_move_clock =~= seq![half_move_clock]);
            assert(board@.captures =~= Seq::<Piece>::empty());
            assert(board@.moves =~= Seq::<Turn>::empty());
        }
        board
    }

    /// Make a turn. The caller must supply a turn that can be executed on
    /// this board (the generator only returns such turns); the board
    /// afterwards is exactly the state `spec_make` describes.
    pub fn make_turn(&mut self, turn: Turn)
        requires
            turn_applicable(old(self)@, turn),
        ensures
            final(self)@ == spec_make(old(self)@, turn),
    {
        // If a piece is captured, remove it and stack it, and open a
        // fresh half-move-clock frame.
        if let Some(capture) = turn.capture {
            let cidx = capture.pos();
            let captured = self.squares[cidx];
            self.squares[cidx] = None;
            self.captures.push(captured.unwrap());
            self.half_move_clock.push(-1);
        }
        // If it's a pawn push, but not a capture, record that.
        if turn.kind == PieceType::Pawn && turn.capture.is_none() {
            let dr = turn.to.row() - turn.from.row();
            // If it's a two-square push, set the en passant target.
            if dr == 2 || dr == -2 {
                self.en_passant_target = Some(
                    Position::new((turn.to.row() + turn.from.row()) / 2, turn.from.col()),
                );
            } else {
                self.en_passant_target = None;
            }
            self.half_move_clock.push(-1);
        } else {
            self.en_passant_target = None;
        }
        // Lift the main piece.
        let fidx = turn.from.pos();
        let mut piece = self.squares[fidx].unwrap();
        self.squares[fidx] = None;
        // Lift and place the second piece.
        if let Some((af, at)) = turn.additional_move {
            let aidx = af.pos();
            let tidx = at.pos();
            let secondary = self.squares[aidx];
            self.squares[aidx] = None;
            self.squares[tidx] = secondary;
        }
        // If the piece is promoting, make that adjustment.
        if let Some(promo) = turn.promote_to {
            piece.kind = promo;
        }
        // Increment that piece's move count.
        piece.move_count = piece.move_count + 1;
        // Now place the main piece into the correct square.
        let tidx = turn.to.pos();
        self.squares[tidx] = Some(piece);
        // And store the turn into the turn history and change whose turn
        // it is.
        let n = self.half_move_clock.len();
        let top = self.half_move_clock[n - 1];
        self.half_move_clock[n - 1] = top + 1;
        self.moves.push(turn);
        self.whose_turn = self.whose_turn.opposite();
        if self.whose_turn == Color::White {
            self.num_moves = self.num_moves + 1;
        }
    }

    /// Undo the last turn and return it, or `None` if there is nothing to
    /// undo. On a non-empty history the board must be in a state the last
    /// recorded turn actually produced; the result is exactly the state
    /// `spec_undo` describes.
    pub fn undo_turn(&mut self) -> (r: Option<Turn>)
        requires
            old(self)@.moves.len() > 0 ==> undo_able(old(self)@),
        ensures
            old(self)@.moves.len() == 0 ==> r is None && final(self)@ == old(self)@,
            old(self)@.moves.len() > 0 ==> r == Some(old(self)@.moves.last()) && final(self)@
                == spec_undo(old(self)@),
    {
        if self.moves.len() == 0 {
            return None;
        }
        let turn = self.moves.pop().unwrap();
        // Lift the piece from the expected place.
        let tidx = turn.to.pos();
        let mut piece = self.squares[tidx].unwrap();
        self.squares[tidx] = None;
        // Lift and place the second piece.
        if let Some((af, at)) = turn.additional_move {
            let aidx = af.pos();
            let atidx = at.pos();
            let secondary = self.squares[atidx];
            self.squares[atidx] = None;
            self.squares[aidx] = secondary;
        }
        // Add back any captured piece.
        if let Some(capture) = turn.capture {
            let cidx = capture.pos();
            let restored = self.captures.pop();
            self.squares[cidx] = restored;
        }
        // If the piece promoted, make that adjustment.
        if let Some(promo_from) = turn.promote_from {
            piece.kind = promo_from;
        }
        // Decrement that piece's move count.
        piece.move_count = piece.move_count - 1;
        // Place the main piece and change whose turn it is.
        let fidx = turn.from.pos();
        self.squares[fidx] = Some(piece);
        self.whose_turn = self.whose_turn.opposite();
        // Check the move before this one to recompute the en passant
        // target.
        if self.moves.len() > 0 {
            let prev = self.moves[self.moves.len() - 1];
            let dr = prev.to.row() - prev.from.row();
            if prev.kind == PieceType::Pawn && (dr == 2 || dr == -2) {
                self.en_passant_target = Some(
                    Position::new((prev.to.row() + prev.from.row()) / 2, prev.from.col()),
                );
            } else {
                self.en_passant_target = None;
            }
        } else {
            self.en_passant_target = None;
        }
        let n = self.half_move_clock.len();
        let top = self.half_move_clock[n - 1];
        if top == 0 {
            let _ = self.half_move_clock.pop();
        } else {
            self.half_move_clock[n - 1] = top - 1;
        }
        if self.whose_turn == Color::Black {
            self.num_moves = self.num_moves - 1;
        }
        Some(turn)
    }

    /// Return the piece in a particular position, if any.
    pub fn at_position(&self, position: Position) -> (r: Option<Piece>)
        requires
            self@.wf(),
            position.wf(),
        ensures
            r == self@.at(position),
    {
        self.squares[position.pos()]
    }

    /// Return whose turn it is.
    pub fn whose_turn(&self) -> (r: Color)
        ensures
            r == self@.whose_turn,
    {
        self.whose_turn
    }

    /// Returns the previous turn, or `None` at the start of the history.
    pub fn get_prev_turn(&self) -> (r: Option<Turn>)
        ensures
            r == (if self@.moves.len() > 0 {
                Some(self@.moves.last())
            } else {
                None::<Turn>
            }),
    {
        if self.moves.len() == 0 {
            None
        } else {
            Some(self.moves[self.moves.len() - 1])
        }
    }

    /// The current en-passant target square, if any.
    pub(crate) fn ep_target(&self) -> (r: Option<Position>)
        ensures
            r == self@.en_passant_target,
    {
        self.en_passant_target
    }

    /// Returns whether it's a draw by the 50 move rule: at least 100
    /// half-moves since the last capture or pawn push.
    pub fn is_50_move_rule(&self) -> (r: bool)
        requires
            self@.wf(),
        ensures
            r == fifty_move_spec(self@),
    {
        let n = self.half_move_clock.len();
        self.half_move_clock[n - 1] >= 100
    }

    /// Returns whether the position is a draw by threefold repetition.
    /// Detection is an acknowledged gap: this always reports `false`.
    pub fn is_threefold_repetition(&self) -> (r: bool)
        ensures
            r == false,
    {
        false
    }

    /// Returns whether it's a draw by insufficient material. Detection is
    /// an acknowledged gap: this always reports `false`.
    pub fn is_insufficient_material(&self) -> (r: bool)
        ensures
            r == false,
    {
        false
    }
}

} // verus!
