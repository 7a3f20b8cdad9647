//! Mathematical model of the board: the abstract state that a `Board`
//! exposes through its view, the exact state transformations that
//! `make_turn` and `undo_turn` perform on it, and the round-trip law
//! stating that undoing a move restores the previous state bit for bit.

use crate::color::{spec_opposite, Color};
use crate::piece::{abs_spec, Piece, PieceType};
use crate::position::{sq_index, square_at, Position};
use crate::turn::{turn_wf, Turn};
use vstd::prelude::*;

verus! {

/// Abstract state of a board: the 64 squares, the side to move, the
/// capture stack, the move history, the half-move-clock stack, the
/// full-move number and the en-passant target.
pub ghost struct BoardModel {
    pub squares: Seq<Option<Piece>>,
    pub whose_turn: Color,
    pub captures: Seq<Piece>,
    pub moves: Seq<Turn>,
    pub half_move_clock: Seq<i8>,
    pub num_moves: int,
    pub en_passant_target: Option<Position>,
}

impl BoardModel {
    /// Structural well-formedness: 64 squares and a non-empty clock stack.
    pub open spec fn wf(self) -> bool {
        self.squares.len() == 64 && self.half_move_clock.len() >= 1
    }

    /// Contents of the given square.
    pub open spec fn at(self, p: Position) -> Option<Piece> {
        self.squares[sq_index(p)]
    }

    /// Top of the half-move-clock stack: half-moves since the last
    /// capture or pawn move.
    pub open spec fn clock_top(self) -> int {
        self.half_move_clock.last() as int
    }
}

/// A capture or a pawn move resets the half-move clock.
pub open spec fn is_reset_turn(t: Turn) -> bool {
    t.capture is Some || t.kind == PieceType::Pawn
}

/// The en-passant target square a turn creates: the square passed over
/// by a two-square pawn advance, and nothing otherwise.
pub open spec fn ep_target_of(t: Turn) -> Option<Position> {
    if t.kind == PieceType::Pawn && t.capture is None && abs_spec(t.to.row - t.from.row) == 2 {
        Some(square_at((t.to.row + t.from.row) / 2, t.from.col as int))
    } else {
        None
    }
}

/// The en-passant target recomputed from the top of a move history, as
/// `undo_turn` recomputes it.
pub open spec fn ep_from_history(ms: Seq<Turn>) -> Option<Position> {
    if ms.len() == 0 {
        None
    } else {
        let t = ms.last();
        if t.kind == PieceType::Pawn && abs_spec(t.to.row - t.from.row) == 2 {
            Some(square_at((t.to.row + t.from.row) / 2, t.from.col as int))
        } else {
            None
        }
    }
}

/// The squares after the captured piece, if any, is removed.
pub open spec fn squares_after_capture(m: BoardModel, t: Turn) -> Seq<Option<Piece>> {
    match t.capture {
        Some(c) => m.squares.update(sq_index(c), None),
        None => m.squares,
    }
}

/// The piece about to move, before any promotion.
pub open spec fn moved_piece_before(m: BoardModel, t: Turn) -> Piece {
    squares_after_capture(m, t)[sq_index(t.from)]->0
}

/// The squares after the moving piece is lifted from its origin.
pub open spec fn squares_after_lift(m: BoardModel, t: Turn) -> Seq<Option<Piece>> {
    squares_after_capture(m, t).update(sq_index(t.from), None)
}

/// The squares after the additional piece, if any, has relocated.
pub open spec fn squares_after_additional(m: BoardModel, t: Turn) -> Seq<Option<Piece>> {
    match t.additional_move {
        Some((af, at)) => {
            let s = squares_after_lift(m, t);
            s.update(sq_index(af), None).update(sq_index(at), s[sq_index(af)])
        },
        None => squares_after_lift(m, t),
    }
}

/// The moving piece as it lands: possibly promoted, move count up one.
pub open spec fn moved_piece_after(m: BoardModel, t: Turn) -> Piece {
    let p = moved_piece_before(m, t);
    Piece {
        kind: match t.promote_to {
            Some(k) => k,
            None => p.kind,
        },
        color: p.color,
        move_count: (p.move_count + 1) as i32,
    }
}

/// The squares after the whole turn.
pub open spec fn squares_after_make(m: BoardModel, t: Turn) -> Seq<Option<Piece>> {
    squares_after_additional(m, t).update(sq_index(t.to), Some(moved_piece_after(m, t)))
}

/// The turn can be executed on this board: every square it lifts from is
/// occupied, every square it places onto is free, and no counter
/// overflows. `make_turn` demands exactly this.
pub open spec fn turn_applicable(m: BoardModel, t: Turn) -> bool {
    &&& m.wf()
    &&& turn_wf(t)
    &&& (t.capture matches Some(c) ==> m.squares[sq_index(c)] is Some)
    &&& squares_after_capture(m, t)[sq_index(t.from)] is Some
    &&& moved_piece_before(m, t).move_count < i32::MAX
    &&& (t.additional_move matches Some((af, at)) ==> squares_after_lift(m, t)[sq_index(af)] is Some
        && squares_after_lift(m, t)[sq_index(at)] is None)
    &&& squares_after_additional(m, t)[sq_index(t.to)] is None
    &&& (is_reset_turn(t) || m.half_move_clock.last() < i8::MAX)
    &&& (m.whose_turn == Color::Black ==> m.num_moves < i32::MAX)
}

/// The exact state after executing a turn: captured piece stacked, a
/// fresh clock frame pushed on a capture or pawn move, the piece moved
/// (and promoted), the clock frame incremented, the turn recorded, the
/// side to move flipped, and the full-move number incremented after
/// Black's move.
pub open spec fn spec_make(m: BoardModel, t: Turn) -> BoardModel {
    let captures2 = match t.capture {
        Some(c) => m.captures.push(m.squares[sq_index(c)]->0),
        None => m.captures,
    };
    let hmc1 = if is_reset_turn(t) {
        m.half_move_clock.push(-1i8)
    } else {
        m.half_move_clock
    };
    let hmc2 = hmc1.update(hmc1.len() - 1, (hmc1.last() + 1) as i8);
    let whose2 = spec_opposite(m.whose_turn);
    BoardModel {
        squares: squares_after_make(m, t),
        whose_turn: whose2,
        captures: captures2,
        moves: m.moves.push(t),
        half_move_clock: hmc2,
        num_moves: if whose2 == Color::White {
            m.num_moves + 1
        } else {
            m.num_moves
        },
        en_passant_target: ep_target_of(t),
    }
}

/// The most recent turn of the history, if any, names only squares on
/// the board. Boards built up by `make_turn` satisfy this.
pub open spec fn history_last_wf(m: BoardModel) -> bool {
    m.moves.len() > 0 ==> turn_wf(m.moves.last())
}

/// The most recent turn can be undone on this board: the piece it moved
/// is where the turn left it, the pieces to put back are available, and
/// no counter underflows. `undo_turn` demands exactly this of a
/// non-empty history.
pub open spec fn undo_able(m: BoardModel) -> bool {
    &&& m.wf()
    &&& m.moves.len() > 0
    &&& (m.moves.len() >= 2 ==> turn_wf(m.moves[m.moves.len() - 2]))
    &&& {
        let t = m.moves.last();
        &&& turn_wf(t)
        &&& m.squares[sq_index(t.to)] is Some
        &&& m.squares[sq_index(t.to)]->0.move_count > i32::MIN
        &&& (t.additional_move matches Some((af, at)) ==> m.squares[sq_index(at)] is Some)
        &&& (t.capture is Some ==> m.captures.len() > 0)
        &&& (m.half_move_clock.last() == 0 ==> m.half_move_clock.len() >= 2)
        &&& (m.half_move_clock.last() != 0 ==> m.half_move_clock.last() > i8::MIN)
        &&& (spec_opposite(m.whose_turn) == Color::Black ==> m.num_moves > i32::MIN)
    }
}

/// The exact state after undoing the most recent turn: the inverse of
/// every step of `spec_make`, with the en-passant target recomputed from
/// the turn now on top of the history.
pub open spec fn spec_undo(m: BoardModel) -> BoardModel {
    let t = m.moves.last();
    let s1 = m.squares.update(sq_index(t.to), None);
    let s2 = match t.additional_move {
        Some((af, at)) => s1.update(sq_index(at), None).update(sq_index(af), s1[sq_index(at)]),
        None => s1,
    };
    let s3 = match t.capture {
        Some(c) => s2.update(
            sq_index(c),
            if m.captures.len() > 0 {
                Some(m.captures.last())
            } else {
                None
            },
        ),
        None => s2,
    };
    let p0 = m.squares[sq_index(t.to)]->0;
    let p1 = Piece {
        kind: match t.promote_from {
            Some(k) => k,
            None => p0.kind,
        },
        color: p0.color,
        move_count: (p0.move_count - 1) as i32,
    };
    let s4 = s3.update(sq_index(t.from), Some(p1));
    let whose2 = spec_opposite(m.whose_turn);
    let moves2 = m.moves.drop_last();
    BoardModel {
        squares: s4,
        whose_turn: whose2,
        captures: if t.capture is Some {
            m.captures.drop_last()
        } else {
            m.captures
        },
        moves: moves2,
        half_move_clock: if m.half_move_clock.last() == 0 {
            m.half_move_clock.drop_last()
        } else {
            m.half_move_clock.update(
                m.half_move_clock.len() - 1,
                (m.half_move_clock.last() - 1) as i8,
            )
        },
        num_moves: if whose2 == Color::Black {
            m.num_moves - 1
        } else {
            m.num_moves
        },
        en_passant_target: ep_from_history(moves2),
    }
}

/// The further conditions under which undoing restores the exact prior
/// state: the en-passant target agrees with the history (as it does on
/// any board built up by moves), the recorded turns name real squares,
/// the clock frame is non-negative, the full-move number is in range,
/// the turn's recorded pre-promotion kind is the moving piece's kind,
/// and the turn is not a capturing double pawn push (the generator
/// produces no such turn).
pub open spec fn probe_restores(m: BoardModel, t: Turn) -> bool {
    &&& m.en_passant_target == ep_from_history(m.moves)
    &&& history_last_wf(m)
    &&& 0 <= m.half_move_clock.last()
    &&& i32::MIN <= m.num_moves <= i32::MAX
    &&& !(t.kind == PieceType::Pawn && t.capture is Some && abs_spec(t.to.row - t.from.row) == 2)
    &&& match t.promote_from {
        Some(k) => k == moved_piece_before(m, t).kind,
        None => t.promote_to is None,
    }
}

/// Round-trip law: undoing a turn right after making it restores the
/// exact prior board state — same piece layout, side to move, capture
/// stack, history, clocks, move counters and en-passant target.
pub proof fn lemma_make_undo(m: BoardModel, t: Turn)
    requires
        turn_applicable(m, t),
        probe_restores(m, t),
    ensures
        undo_able(spec_make(m, t)),
        spec_undo(spec_make(m, t)) == m,
{
    let m2 = spec_make(m, t);
    assert(m2.moves.last() == t);
    let p = moved_piece_before(m, t);
    assert(m2.squares[sq_index(t.to)] == Some(moved_piece_after(m, t)));
    assert(p.move_count + 1 <= i32::MAX);
    assert(moved_piece_after(m, t).move_count == p.move_count + 1);
    assert(t.additional_move matches Some((af, at)) ==> m2.squares[sq_index(at)]
        == squares_after_lift(m, t)[sq_index(af)]);
    if is_reset_turn(t) {
        let hmc1 = m.half_move_clock.push(-1i8);
        assert(hmc1.last() == -1);
        assert(m2.half_move_clock.last() == 0);
        assert(m2.half_move_clock.len() == m.half_move_clock.len() + 1 >= 2);
    } else {
        assert(m2.half_move_clock.last() == m.half_move_clock.last() + 1);
        assert(m2.half_move_clock.last() >= 1);
    }
    assert(undo_able(m2));
    let mu = spec_undo(m2);
    assert(m2.moves.drop_last() =~= m.moves);
    assert(mu.en_passant_target == m.en_passant_target);
    assert(mu.squares =~= m.squares);
    assert(mu.captures =~= m.captures);
    if is_reset_turn(t) {
        assert(m2.half_move_clock =~= m.half_move_clock.push(0i8));
        assert(mu.half_move_clock =~= m.half_move_clock);
    } else {
        assert(mu.half_move_clock =~= m.half_move_clock);
    }
    assert(mu.whose_turn == m.whose_turn);
    assert(mu.num_moves == m.num_moves);
    assert(mu == m);
}

/// The position is drawn under the fifty-move rule: at least 100
/// half-moves since the last capture or pawn move.
pub open spec fn fifty_move_spec(m: BoardModel) -> bool {
    m.half_move_clock.last() >= 100
}

/// Fifty-move persistence: once the rule holds, any turn that is neither
/// a capture nor a pawn move keeps it holding.
pub proof fn lemma_fifty_move_persists(m: BoardModel, t: Turn)
    requires
        turn_applicable(m, t),
        !is_reset_turn(t),
        fifty_move_spec(m),
    ensures
        fifty_move_spec(spec_make(m, t)),
{
}

/// Fifty-move reset: a capture or a pawn move leaves the clock at zero,
/// so the rule no longer holds.
pub proof fn lemma_reset_turn_clears_fifty(m: BoardModel, t: Turn)
    requires
        turn_applicable(m, t),
        is_reset_turn(t),
    ensures
        spec_make(m, t).half_move_clock.last() == 0,
        !fifty_move_spec(spec_make(m, t)),
{
}

} // verus!
