//! Attack detection, the legality probe, and legal move generation.
//!
//! A candidate move is judged by executing it, asking whether the
//! mover's own king is then attacked, and undoing it again; the
//! round-trip law guarantees the probe leaves the board untouched.

use crate::board::{start_model, start_square, Board};
use crate::color::{spec_direction, spec_home, spec_opposite, Color};
use crate::game_state::{DrawReason, GameState, WinReason};
use crate::model::{
    ep_from_history, fifty_move_spec, history_last_wf, lemma_make_undo, moved_piece_after,
    probe_restores, spec_make, turn_applicable, BoardModel,
};
use crate::piece::{abs_spec, could_move_spec, Piece, PieceType};
use crate::position::{lemma_sq_index_injective, spec_offset, sq_index, square_at, Position};
use crate::turn::Turn;
use vstd::arithmetic::div_mod::{lemma_fundamental_div_mod, lemma_mod_bound};
use vstd::pervasive::unreached;
use vstd::prelude::*;

verus! {

/// Steps that remain before a walk from `p` in direction `(dr, dc)`
/// leaves the board.
pub open spec fn ray_fuel(p: Position, dr: int, dc: int) -> int {
    (if dr > 0 {
        7 - p.row
    } else if dr < 0 {
        p.row as int
    } else {
        0
    }) + (if dc > 0 {
        7 - p.col
    } else if dc < 0 {
        p.col as int
    } else {
        0
    })
}

/// The first occupied square strictly beyond `p` in direction `(dr, dc)`,
/// or `None` if the ray leaves the board first.
pub open spec fn ray_first(m: BoardModel, p: Position, dr: int, dc: int) -> Option<Position>
    decreases ray_fuel(p, dr, dc),
{
    if !p.wf() || (dr == 0 && dc == 0) || !(-1 <= dr <= 1) || !(-1 <= dc <= 1) {
        None
    } else {
        match spec_offset(p, dr, dc) {
            None => None,
            Some(q) => if m.squares[sq_index(q)] is Some {
                Some(q)
            } else {
                ray_first(m, q, dr, dc)
            },
        }
    }
}

/// The nearest piece on this ray exists, has the given color, and its
/// movement rule lets it reach the target square.
pub open spec fn ray_attacks(m: BoardModel, target: Position, c: Color, dr: int, dc: int) -> bool {
    match ray_first(m, target, dr, dc) {
        Some(q) => match m.squares[sq_index(q)] {
            Some(p) => p.color == c && could_move_spec(p, q, target, m),
            None => false,
        },
        None => false,
    }
}

/// A knight of the given color stands a knight's jump away.
pub open spec fn knight_threat(m: BoardModel, target: Position, c: Color, dr: int, dc: int) -> bool {
    match spec_offset(target, dr, dc) {
        Some(q) => match m.squares[sq_index(q)] {
            Some(p) => p.kind == PieceType::Knight && p.color == c,
            None => false,
        },
        None => false,
    }
}

/// A piece of color `c` attacks the target square: the nearest piece on
/// one of the eight rays can reach it, or a knight sits on one of the
/// eight knight squares.
pub open spec fn attacked(m: BoardModel, target: Position, c: Color) -> bool {
    ||| ray_attacks(m, target, c, -1, -1)
    ||| ray_attacks(m, target, c, -1, 0)
    ||| ray_attacks(m, target, c, -1, 1)
    ||| ray_attacks(m, target, c, 0, -1)
    ||| ray_attacks(m, target, c, 0, 1)
    ||| ray_attacks(m, target, c, 1, -1)
    ||| ray_attacks(m, target, c, 1, 0)
    ||| ray_attacks(m, target, c, 1, 1)
    ||| knight_threat(m, target, c, -2, -1)
    ||| knight_threat(m, target, c, -2, 1)
    ||| knight_threat(m, target, c, -1, -2)
    ||| knight_threat(m, target, c, -1, 2)
    ||| knight_threat(m, target, c, 1, -2)
    ||| knight_threat(m, target, c, 1, 2)
    ||| knight_threat(m, target, c, 2, -1)
    ||| knight_threat(m, target, c, 2, 1)
}

/// The first square at index `i` or beyond (row-major) holding a king of
/// color `c`.
pub open spec fn first_king_from(m: BoardModel, c: Color, i: int) -> Option<Position>
    decreases 64 - i,
{
    if i < 0 || i >= 64 {
        None
    } else if m.squares[i] matches Some(p) && p.kind == PieceType::King && p.color == c {
        Some(Position { row: (i / 8) as i8, col: (i % 8) as i8 })
    } else {
        first_king_from(m, c, i + 1)
    }
}

/// The first square (row-major) holding a king of color `c`.
pub open spec fn first_king(m: BoardModel, c: Color) -> Option<Position> {
    first_king_from(m, c, 0)
}

/// A king of color `c` standing anywhere implies the scan finds one.
pub proof fn lemma_first_king_exists(m: BoardModel, c: Color, kp: Position)
    requires
        m.wf(),
        kp.wf(),
        m.squares[sq_index(kp)] matches Some(p) && p.kind == PieceType::King && p.color == c,
    ensures
        first_king(m, c) is Some,
{
    lemma_first_king_exists_from(m, c, kp, 0);
}

proof fn lemma_first_king_exists_from(m: BoardModel, c: Color, kp: Position, i: int)
    requires
        m.wf(),
        kp.wf(),
        m.squares[sq_index(kp)] matches Some(p) && p.kind == PieceType::King && p.color == c,
        0 <= i <= sq_index(kp),
    ensures
        first_king_from(m, c, i) is Some,
    decreases 64 - i,
{
    if !(m.squares[i] matches Some(p) && p.kind == PieceType::King && p.color == c) {
        assert(i != sq_index(kp));
        lemma_first_king_exists_from(m, c, kp, i + 1);
    }
}

/// The square the scan returns holds a king of color `c` and lies on the
/// board.
pub proof fn lemma_first_king_found(m: BoardModel, c: Color, i: int)
    requires
        0 <= i,
        first_king_from(m, c, i) is Some,
    ensures
        first_king_from(m, c, i)->0.wf(),
        m.squares[sq_index(first_king_from(m, c, i)->0)] matches Some(p) && p.kind
            == PieceType::King && p.color == c,
    decreases 64 - i,
{
    if i < 64 {
        if m.squares[i] matches Some(p) && p.kind == PieceType::King && p.color == c {
            lemma_fundamental_div_mod(i, 8);
            lemma_mod_bound(i, 8);
            let kp = first_king_from(m, c, i)->0;
            assert(0 <= i / 8 < 8);
            assert(kp.wf());
            assert(sq_index(kp) == i);
        } else {
            lemma_first_king_found(m, c, i + 1);
        }
    }
}

/// The king of color `c` (the first one the scan finds) is attacked by
/// the other side.
pub open spec fn king_attacked_spec(m: BoardModel, c: Color) -> bool {
    attacked(m, first_king(m, c)->0, spec_opposite(c))
}

/// The side to move stands in check.
pub open spec fn in_check(m: BoardModel) -> bool {
    king_attacked_spec(m, m.whose_turn)
}

/// After making the turn, the mover's own king is not attacked by the
/// opponent.
pub open spec fn king_safe_after(m: BoardModel, t: Turn) -> bool {
    !king_attacked_spec(spec_make(m, t), m.whose_turn)
}

/// The turn can be probed on this board: it is executable, the probe
/// restores the exact prior state, and the mover still has a king to
/// examine afterwards.
pub open spec fn probe_ready(m: BoardModel, t: Turn) -> bool {
    &&& turn_applicable(m, t)
    &&& probe_restores(m, t)
    &&& first_king(spec_make(m, t), m.whose_turn) is Some
}

/// A turn the generator may output: probe-able, and leaving the mover's
/// own king safe.
pub open spec fn turn_allowed(m: BoardModel, t: Turn) -> bool {
    probe_ready(m, t) && king_safe_after(m, t)
}

/// The en-passant target, when set, is backed by the move just played:
/// an enemy pawn stands on the square it passed through to, the target
/// square itself is empty, and the capture would take that pawn.
pub open spec fn ep_usable(m: BoardModel) -> bool {
    m.en_passant_target matches Some(tg) ==> {
        &&& tg.wf()
        &&& m.squares[sq_index(tg)] is None
        &&& m.moves.len() > 0
        &&& m.moves.last().to.wf()
        &&& m.moves.last().to.col == tg.col
        &&& m.moves.last().to.row == tg.row - spec_direction(m.whose_turn)
        &&& (m.squares[sq_index(m.moves.last().to)] matches Some(p) && p.color == spec_opposite(
            m.whose_turn,
        ))
    }
}

/// Each occupied square's piece has a move count with room to grow.
pub open spec fn piece_count_ok(s: Option<Piece>) -> bool {
    s matches Some(p) ==> 0 <= p.move_count < i32::MAX
}

/// A board on which moves can be generated and probed: structurally
/// well formed, both kings present, the history, clock and counters
/// consistent and in range, and the en-passant target backed by the
/// history. `from_start` establishes this, and every probe preserves it.
pub open spec fn gen_ready(m: BoardModel) -> bool {
    &&& m.wf()
    &&& history_last_wf(m)
    &&& first_king(m, Color::White) is Some
    &&& first_king(m, Color::Black) is Some
    &&& m.en_passant_target == ep_from_history(m.moves)
    &&& ep_usable(m)
    &&& 0 <= m.half_move_clock.last() < i8::MAX
    &&& i32::MIN < m.num_moves < i32::MAX
    &&& forall|i: int| 0 <= i < 64 ==> piece_count_ok(#[trigger] m.squares[i])
}

/// The standard starting position is ready for move generation: both
/// kings stand on their squares, the history and the en-passant target
/// are empty, the clock is zero and every piece is fresh.
pub proof fn lemma_start_gen_ready()
    ensures
        gen_ready(start_model()),
{
    let m = start_model();
    assert(m.squares[4] == start_square(4));
    assert(m.squares[60] == start_square(60));
    lemma_first_king_exists(m, Color::White, Position { row: 0, col: 4 });
    lemma_first_king_exists(m, Color::Black, Position { row: 7, col: 4 });
    assert forall|i: int| 0 <= i < 64 implies piece_count_ok(#[trigger] m.squares[i]) by {
        assert(m.squares[i] == start_square(i));
    }
}

/// The position at a row-major index.
fn index_to_position(i: usize) -> (r: Position)
    requires
        i < 64,
    ensures
        r.wf(),
        sq_index(r) == i as int,
        r == (Position { row: (i as int / 8) as i8, col: (i as int % 8) as i8 }),
{
    proof {
        lemma_fundamental_div_mod(i as int, 8);
        lemma_mod_bound(i as int, 8);
    }
    let row = (i / 8) as i8;
    let col = (i % 8) as i8;
    Position { row, col }
}

impl Board {
    /// The verdict of one ray: does the nearest piece in direction
    /// `(dr, dc)` attack the target square for `color`?
    fn ray_hits(&self, target: Position, color: Color, dr: i8, dc: i8) -> (r: bool)
        requires
            self@.wf(),
            history_last_wf(self@),
            target.wf(),
            -1 <= dr <= 1,
            -1 <= dc <= 1,
            !(dr == 0 && dc == 0),
        ensures
            r == ray_attacks(self@, target, color, dr as int, dc as int),
    {
        let mut pos = target;
        loop
            invariant
                self@.wf(),
                history_last_wf(self@),
                target.wf(),
                pos.wf(),
                -1 <= dr <= 1,
                -1 <= dc <= 1,
                !(dr == 0 && dc == 0),
                ray_first(self@, target, dr as int, dc as int) == ray_first(
                    self@,
                    pos,
                    dr as int,
                    dc as int,
                ),
            decreases ray_fuel(pos, dr as int, dc as int),
        {
            match pos.offset(dr, dc) {
                None => {
                    return false;
                },
                Some(q) => {
                    pos = q;
                    if let Some(piece) = self.at_position(pos) {
                        return piece.color == color && piece.could_move_to(pos, target, self);
                    }
                },
            }
        }
    }

    /// A knight of `color` on the square `(dr, dc)` away from the target.
    fn knight_at(&self, target: Position, color: Color, dr: i8, dc: i8) -> (r: bool)
        requires
            self@.wf(),
            target.wf(),
            -2 <= dr <= 2,
            -2 <= dc <= 2,
        ensures
            r == knight_threat(self@, target, color, dr as int, dc as int),
    {
        if let Some(q) = target.offset(dr, dc) {
            if let Some(p) = self.at_position(q) {
                p.kind == PieceType::Knight && p.color == color
            } else {
                false
            }
        } else {
            false
        }
    }

    /// Returns `true` if a piece of the given color is attacking the
    /// given position: the nearest piece on some ray reaches it, or a
    /// knight sits a knight's jump away.
    pub fn are_pieces_attacking(&self, position: Position, color: Color) -> (r: bool)
        requires
            self@.wf(),
            history_last_wf(self@),
            position.wf(),
        ensures
            r == attacked(self@, position, color),
    {
        if self.ray_hits(position, color, -1, -1) {
            return true;
        }
        if self.ray_hits(position, color, -1, 0) {
            return true;
        }
        if self.ray_hits(position, color, -1, 1) {
            return true;
        }
        if self.ray_hits(position, color, 0, -1) {
            return true;
        }
        if self.ray_hits(position, color, 0, 1) {
            return true;
        }
        if self.ray_hits(position, color, 1, -1) {
            return true;
        }
        if self.ray_hits(position, color, 1, 0) {
            return true;
        }
        if self.ray_hits(position, color, 1, 1) {
            return true;
        }
        if self.knight_at(position, color, -2, -1) {
            return true;
        }
        if self.knight_at(position, color, -2, 1) {
            return true;
        }
        if self.knight_at(position, color, -1, -2) {
            return true;
        }
        if self.knight_at(position, color, -1, 2) {
            return true;
        }
        if self.knight_at(position, color, 1, -2) {
            return true;
        }
        if self.knight_at(position, color, 1, 2) {
            return true;
        }
        if self.knight_at(position, color, 2, -1) {
            return true;
        }
        if self.knight_at(position, color, 2, 1) {
            return true;
        }
        false
    }

    /// Find the king of a particular color: the first square, row-major,
    /// holding it. The board must have such a king.
    fn find_king(&self, color: Color) -> (r: Position)
        requires
            self@.wf(),
            first_king(self@, color) is Some,
        ensures
            Some(r) == first_king(self@, color),
            r.wf(),
    {
        let mut i: usize = 0;
        while i < 64
            invariant
                self@.wf(),
                i <= 64,
                first_king(self@, color) is Some,
                first_king(self@, color) == first_king_from(self@, color, i as int),
            decreases 64 - i,
        {
            let pos = index_to_position(i);
            if let Some(piece) = self.at_position(pos) {
                if piece.kind == PieceType::King && piece.color == color {
                    proof {
                        lemma_first_king_found(self@, color, i as int);
                    }
                    return pos;
                }
            }
            i = i + 1;
        }
        proof {
            assert(false);
        }
        unreached()
    }

    /// Returns whether the king of the given color is under attack.
    pub fn is_king_attacked(&self, color: Color) -> (r: bool)
        requires
            self@.wf(),
            history_last_wf(self@),
            first_king(self@, color) is Some,
        ensures
            r == king_attacked_spec(self@, color),
    {
        let kp = self.find_king(color);
        self.are_pieces_attacking(kp, color.opposite())
    }

    /// Returns whether a move is legal - i.e. whether the mover's own
    /// king is safe from capture after the move is made. The board is
    /// probed by making the move and undoing it again; it comes back
    /// exactly as it was.
    pub fn is_move_legal(&mut self, turn: Turn) -> (r: bool)
        requires
            probe_ready(old(self)@, turn),
        ensures
            final(self)@ == old(self)@,
            r == king_safe_after(old(self)@, turn),
    {
        let ghost m0 = self@;
        let mover = self.whose_turn();
        self.make_turn(turn);
        proof {
            lemma_make_undo(m0, turn);
        }
        let valid = !self.is_king_attacked(mover);
        let _ = self.undo_turn();
        valid
    }

    /// Probe the turn and keep it when it is legal.
    fn add_move_if_legal(&mut self, turn: Turn, moves: &mut Vec<Turn>)
        requires
            probe_ready(old(self)@, turn),
        ensures
            final(self)@ == old(self)@,
            final(moves)@ == (if turn_allowed(old(self)@, turn) {
                old(moves)@.push(turn)
            } else {
                old(moves)@
            }),
    {
        if self.is_move_legal(turn) {
            moves.push(turn);
        }
    }
}

/// The turn that moves the piece at `from` onto `to` when the square is
/// free or held by an enemy piece, and nothing when a friendly piece
/// blocks it. It does not account for the kind of piece moved.
pub open spec fn spec_simple_turn(m: BoardModel, from: Position, to: Position) -> Option<Turn> {
    let p = m.squares[sq_index(from)]->0;
    match m.squares[sq_index(to)] {
        Some(q) => if q.color != p.color {
            Some(Turn {
                kind: p.kind,
                from,
                to,
                capture: Some(to),
                additional_move: None,
                promote_to: None,
                promote_from: None,
            })
        } else {
            None
        },
        None => Some(Turn {
            kind: p.kind,
            from,
            to,
            capture: None,
            additional_move: None,
            promote_to: None,
            promote_from: None,
        }),
    }
}

/// A simple move or capture by a piece other than a pawn can be probed.
proof fn lemma_simple_ready(m: BoardModel, from: Position, to: Position)
    requires
        gen_ready(m),
        from.wf(),
        to.wf(),
        from != to,
        m.squares[sq_index(from)] matches Some(p) && p.color == m.whose_turn && p.kind
            != PieceType::Pawn,
        spec_simple_turn(m, from, to) is Some,
    ensures
        probe_ready(m, spec_simple_turn(m, from, to)->0),
{
    lemma_sq_index_injective(from, to);
    let t = spec_simple_turn(m, from, to)->0;
    let c = m.whose_turn;
    let p = m.squares[sq_index(from)]->0;
    assert(turn_applicable(m, t));
    let m2 = spec_make(m, t);
    if p.kind == PieceType::King {
        assert(m2.squares[sq_index(to)] == Some(moved_piece_after(m, t)));
        assert(moved_piece_after(m, t).kind == PieceType::King);
        lemma_first_king_exists(m2, c, to);
    } else {
        lemma_first_king_found(m, c, 0);
        let kp = first_king(m, c)->0;
        assert(kp != from);
        assert(kp != to);
        lemma_sq_index_injective(kp, from);
        lemma_sq_index_injective(kp, to);
        assert(m2.squares[sq_index(kp)] == m.squares[sq_index(kp)]);
        lemma_first_king_exists(m2, c, kp);
    }
}

/// A pawn step onto an empty square, optionally promoting, can be probed.
proof fn lemma_pawn_quiet_ready(m: BoardModel, from: Position, to: Position, promo: Option<
    PieceType,
>)
    requires
        gen_ready(m),
        from.wf(),
        to.wf(),
        from != to,
        m.squares[sq_index(from)] matches Some(p) && p.color == m.whose_turn && p.kind
            == PieceType::Pawn,
        m.squares[sq_index(to)] is None,
    ensures
        probe_ready(
            m,
            Turn {
                kind: PieceType::Pawn,
                from,
                to,
                capture: None,
                additional_move: None,
                promote_to: promo,
                promote_from: if promo is Some {
                    Some(PieceType::Pawn)
                } else {
                    None
                },
            },
        ),
{
    lemma_sq_index_injective(from, to);
    let t = Turn {
        kind: PieceType::Pawn,
        from,
        to,
        capture: None,
        additional_move: None,
        promote_to: promo,
        promote_from: if promo is Some {
            Some(PieceType::Pawn)
        } else {
            None
        },
    };
    let c = m.whose_turn;
    assert(turn_applicable(m, t));
    let m2 = spec_make(m, t);
    lemma_first_king_found(m, c, 0);
    let kp = first_king(m, c)->0;
    assert(kp != from);
    assert(kp != to);
    lemma_sq_index_injective(kp, from);
    lemma_sq_index_injective(kp, to);
    assert(m2.squares[sq_index(kp)] == m.squares[sq_index(kp)]);
    lemma_first_king_exists(m2, c, kp);
}

/// A pawn's diagonal capture of an enemy piece, optionally promoting,
/// can be probed.
proof fn lemma_pawn_capture_ready(m: BoardModel, from: Position, to: Position, promo: Option<
    PieceType,
>)
    requires
        gen_ready(m),
        from.wf(),
        to.wf(),
        abs_spec(to.row - from.row) == 1,
        m.squares[sq_index(from)] matches Some(p) && p.color == m.whose_turn && p.kind
            == PieceType::Pawn,
        m.squares[sq_index(to)] matches Some(q) && q.color == spec_opposite(m.whose_turn),
    ensures
        probe_ready(
            m,
            Turn {
                kind: PieceType::Pawn,
                from,
                to,
                capture: Some(to),
                additional_move: None,
                promote_to: promo,
                promote_from: if promo is Some {
                    Some(PieceType::Pawn)
                } else {
                    None
                },
            },
        ),
{
    assert(from != to);
    lemma_sq_index_injective(from, to);
    let t = Turn {
        kind: PieceType::Pawn,
        from,
        to,
        capture: Some(to),
        additional_move: None,
        promote_to: promo,
        promote_from: if promo is Some {
            Some(PieceType::Pawn)
        } else {
            None
        },
    };
    let c = m.whose_turn;
    assert(turn_applicable(m, t));
    let m2 = spec_make(m, t);
    lemma_first_king_found(m, c, 0);
    let kp = first_king(m, c)->0;
    assert(kp != from);
    assert(kp != to);
    lemma_sq_index_injective(kp, from);
    lemma_sq_index_injective(kp, to);
    assert(m2.squares[sq_index(kp)] == m.squares[sq_index(kp)]);
    lemma_first_king_exists(m2, c, kp);
}

/// An en-passant capture of the pawn that just double-pushed can be
/// probed.
proof fn lemma_pawn_ep_ready(m: BoardModel, from: Position, target: Position)
    requires
        gen_ready(m),
        from.wf(),
        m.squares[sq_index(from)] matches Some(p) && p.color == m.whose_turn && p.kind
            == PieceType::Pawn,
        m.en_passant_target == Some(target),
        from.row + spec_direction(m.whose_turn) == target.row,
        abs_spec(from.col - target.col) == 1,
    ensures
        probe_ready(
            m,
            Turn {
                kind: PieceType::Pawn,
                from,
                to: target,
                capture: Some(Position { row: from.row, col: target.col }),
                additional_move: None,
                promote_to: None,
                promote_from: None,
            },
        ),
{
    let c = m.whose_turn;
    let capsq = Position { row: from.row, col: target.col };
    let lt = m.moves.last();
    assert(lt.to == capsq);
    assert(m.squares[sq_index(capsq)] matches Some(q) && q.color == spec_opposite(c));
    let t = Turn {
        kind: PieceType::Pawn,
        from,
        to: target,
        capture: Some(capsq),
        additional_move: None,
        promote_to: None,
        promote_from: None,
    };
    lemma_sq_index_injective(from, capsq);
    lemma_sq_index_injective(from, target);
    lemma_sq_index_injective(capsq, target);
    assert(turn_applicable(m, t));
    let m2 = spec_make(m, t);
    lemma_first_king_found(m, c, 0);
    let kp = first_king(m, c)->0;
    assert(kp != from);
    assert(kp != capsq);
    assert(kp != target);
    lemma_sq_index_injective(kp, from);
    lemma_sq_index_injective(kp, capsq);
    lemma_sq_index_injective(kp, target);
    assert(m2.squares[sq_index(kp)] == m.squares[sq_index(kp)]);
    lemma_first_king_exists(m2, c, kp);
}

/// A castling move: the king two columns toward its unmoved rook, the
/// rook to the square just past the king, can be probed.
proof fn lemma_castle_ready(
    m: BoardModel,
    from_pos: Position,
    rook_pos: Position,
    king_to: Position,
    rook_to: Position,
)
    requires
        gen_ready(m),
        from_pos.wf(),
        rook_pos.wf(),
        king_to.wf(),
        rook_to.wf(),
        rook_pos != from_pos,
        rook_pos.row == from_pos.row,
        king_to.row == from_pos.row,
        rook_to.row == from_pos.row,
        king_to.col != rook_to.col,
        rook_to != rook_pos,
        m.squares[sq_index(from_pos)] matches Some(p) && p.color == m.whose_turn && p.kind
            == PieceType::King,
        m.squares[sq_index(rook_pos)] is Some,
        rook_to == from_pos || m.squares[sq_index(rook_to)] is None,
        king_to == from_pos || king_to == rook_pos || m.squares[sq_index(king_to)] is None,
    ensures
        probe_ready(
            m,
            Turn {
                kind: PieceType::King,
                from: from_pos,
                to: king_to,
                capture: None,
                additional_move: Some((rook_pos, rook_to)),
                promote_to: None,
                promote_from: None,
            },
        ),
{
    let t = Turn {
        kind: PieceType::King,
        from: from_pos,
        to: king_to,
        capture: None,
        additional_move: Some((rook_pos, rook_to)),
        promote_to: None,
        promote_from: None,
    };
    let c = m.whose_turn;
    assert(turn_applicable(m, t));
    let m2 = spec_make(m, t);
    assert(m2.squares[sq_index(king_to)] == Some(moved_piece_after(m, t)));
    assert(moved_piece_after(m, t).kind == PieceType::King);
    lemma_first_king_exists(m2, c, king_to);
}

/// Keep the turn when the probe allows it.
pub open spec fn probe_push(m: BoardModel, acc: Seq<Turn>, t: Turn) -> Seq<Turn> {
    if turn_allowed(m, t) {
        acc.push(t)
    } else {
        acc
    }
}

/// The outcome of probing the single square `(dr, dc)` away from `pos`.
pub open spec fn simple_probe(m: BoardModel, pos: Position, dr: int, dc: int, acc: Seq<Turn>) -> Seq<
    Turn,
> {
    match spec_offset(pos, dr, dc) {
        Some(to) => match spec_simple_turn(m, pos, to) {
            Some(t) => probe_push(m, acc, t),
            None => acc,
        },
        None => acc,
    }
}

/// The outcome of walking one ray from `cur` for the piece at `pos`:
/// each square is probed until the walk is blocked, including a
/// blocking capture, excluding squares past a friendly piece.
pub open spec fn line_probe_from(
    m: BoardModel,
    pos: Position,
    cur: Position,
    dr: int,
    dc: int,
    acc: Seq<Turn>,
) -> Seq<Turn>
    decreases ray_fuel(cur, dr, dc),
{
    if !cur.wf() || (dr == 0 && dc == 0) || !(-1 <= dr <= 1) || !(-1 <= dc <= 1) {
        acc
    } else {
        match spec_offset(cur, dr, dc) {
            None => acc,
            Some(q) => match spec_simple_turn(m, pos, q) {
                None => acc,
                Some(t) => {
                    let acc2 = probe_push(m, acc, t);
                    if t.capture is Some {
                        acc2
                    } else {
                        line_probe_from(m, pos, q, dr, dc, acc2)
                    }
                },
            },
        }
    }
}

/// The outcome of probing a rook's four directions from `pos`.
pub open spec fn rook_probes(m: BoardModel, pos: Position) -> Seq<Turn> {
    line_probe_from(
        m,
        pos,
        pos,
        0,
        -1,
        line_probe_from(
            m,
            pos,
            pos,
            -1,
            0,
            line_probe_from(m, pos, pos, 0, 1, line_probe_from(m, pos, pos, 1, 0, Seq::empty())),
        ),
    )
}

/// The outcome of probing a bishop's four diagonals from `pos`.
pub open spec fn bishop_probes(m: BoardModel, pos: Position) -> Seq<Turn> {
    line_probe_from(
        m,
        pos,
        pos,
        -1,
        1,
        line_probe_from(
            m,
            pos,
            pos,
            -1,
            -1,
            line_probe_from(m, pos, pos, 1, -1, line_probe_from(m, pos, pos, 1, 1, Seq::empty())),
        ),
    )
}

/// The outcome of probing a queen's eight directions from `pos`.
pub open spec fn queen_probes(m: BoardModel, pos: Position) -> Seq<Turn> {
    line_probe_from(
        m,
        pos,
        pos,
        -1,
        1,
        line_probe_from(
            m,
            pos,
            pos,
            -1,
            -1,
            line_probe_from(
                m,
                pos,
                pos,
                1,
                -1,
                line_probe_from(
                    m,
                    pos,
                    pos,
                    1,
                    1,
                    line_probe_from(
                        m,
                        pos,
                        pos,
                        0,
                        -1,
                        line_probe_from(
                            m,
                            pos,
                            pos,
                            -1,
                            0,
                            line_probe_from(
                                m,
                                pos,
                                pos,
                                0,
                                1,
                                line_probe_from(m, pos, pos, 1, 0, Seq::empty()),
                            ),
                        ),
                    ),
                ),
            ),
        ),
    )
}

/// The outcome of probing the eight knight jumps from `pos`.
pub open spec fn knight_probes(m: BoardModel, pos: Position) -> Seq<Turn> {
    simple_probe(
        m,
        pos,
        2,
        1,
        simple_probe(
            m,
            pos,
            2,
            -1,
            simple_probe(
                m,
                pos,
                1,
                2,
                simple_probe(
                    m,
                    pos,
                    1,
                    -2,
                    simple_probe(
                        m,
                        pos,
                        -1,
                        2,
                        simple_probe(
                            m,
                            pos,
                            -1,
                            -2,
                            simple_probe(m, pos, -2, 1, simple_probe(m, pos, -2, -1, Seq::empty())),
                        ),
                    ),
                ),
            ),
        ),
    )
}

/// The outcome of probing the eight squares adjacent to `pos`.
pub open spec fn king_simple_probes(m: BoardModel, pos: Position) -> Seq<Turn> {
    simple_probe(
        m,
        pos,
        1,
        1,
        simple_probe(
            m,
            pos,
            1,
            0,
            simple_probe(
                m,
                pos,
                1,
                -1,
                simple_probe(
                    m,
                    pos,
                    0,
                    1,
                    simple_probe(
                        m,
                        pos,
                        0,
                        -1,
                        simple_probe(
                            m,
                            pos,
                            -1,
                            1,
                            simple_probe(m, pos, -1, 0, simple_probe(m, pos, -1, -1, Seq::empty())),
                        ),
                    ),
                ),
            ),
        ),
    )
}

/// No square strictly between the columns `lo` and `hi` on the given
/// row is attacked by the opponent of the side to move.
pub open spec fn castle_window_clear(m: BoardModel, row: int, lo: int, hi: int) -> bool {
    forall|c: int| lo < c < hi ==> !attacked(m, square_at(row, c), spec_opposite(m.whose_turn))
}

/// The compound turn that moves the king to `res_col` and the rook just
/// past it.
pub open spec fn castle_turn(from_pos: Position, rook_pos: Position, res_col: int, col_dir: int) -> Turn {
    Turn {
        kind: PieceType::King,
        from: from_pos,
        to: square_at(from_pos.row as int, res_col),
        capture: None,
        additional_move: Some((rook_pos, square_at(from_pos.row as int, res_col - col_dir))),
        promote_to: None,
        promote_from: None,
    }
}

/// The outcome of judging the first piece found on the castling scan:
/// the possibly extended move list, and whether the scan goes on.
pub open spec fn castle_try_probe(
    m: BoardModel,
    rook_pos: Position,
    from_pos: Position,
    col_dir: int,
    res_col: int,
    acc: Seq<Turn>,
) -> (Seq<Turn>, bool) {
    let this = m.squares[sq_index(from_pos)]->0;
    match m.squares[sq_index(rook_pos)] {
        Some(other) => {
            if !(other.kind == PieceType::Rook && other.color == this.color && other.move_count
                == 0) {
                (acc, false)
            } else {
                let kc = from_pos.col as int;
                let lo = if kc < res_col {
                    kc
                } else {
                    res_col
                };
                let hi = if kc < res_col {
                    res_col
                } else {
                    kc
                };
                if !castle_window_clear(m, from_pos.row as int, lo, hi) {
                    (acc, false)
                } else {
                    let king_to = square_at(from_pos.row as int, res_col);
                    let rook_to = square_at(from_pos.row as int, res_col - col_dir);
                    let rook_to_free = rook_to.col != rook_pos.col && (rook_to.col == from_pos.col
                        || m.squares[sq_index(rook_to)] is None);
                    let king_to_free = king_to.col == from_pos.col || king_to.col == rook_pos.col
                        || m.squares[sq_index(king_to)] is None;
                    if rook_to_free && king_to_free {
                        (
                            probe_push(m, acc, castle_turn(from_pos, rook_pos, res_col, col_dir)),
                            true,
                        )
                    } else {
                        (acc, true)
                    }
                }
            }
        },
        None => (acc, true),
    }
}

/// The outcome of scanning outward from `cur` for a castling partner.
pub open spec fn castle_scan(
    m: BoardModel,
    from_pos: Position,
    cur: Position,
    col_dir: int,
    res_col: int,
    acc: Seq<Turn>,
) -> Seq<Turn>
    decreases (if col_dir > 0 {
        7 - cur.col
    } else {
        cur.col as int
    }),
{
    if !cur.wf() || !(col_dir == 1 || col_dir == -1) {
        acc
    } else {
        match spec_offset(cur, 0, col_dir) {
            None => acc,
            Some(q) => {
                if m.squares[sq_index(q)] is Some {
                    let pr = castle_try_probe(m, q, from_pos, col_dir, res_col, acc);
                    if pr.1 {
                        castle_scan(m, from_pos, q, col_dir, res_col, pr.0)
                    } else {
                        pr.0
                    }
                } else {
                    castle_scan(m, from_pos, q, col_dir, res_col, acc)
                }
            },
        }
    }
}

/// The outcome of probing every move of the king at `pos`: its eight
/// neighbors, plus castling toward each side when it has never moved and
/// stands on its home rank.
pub open spec fn king_probes(m: BoardModel, pos: Position) -> Seq<Turn> {
    let base = king_simple_probes(m, pos);
    let p = m.squares[sq_index(pos)]->0;
    if p.move_count == 0 && pos.row == spec_home(p.color) {
        castle_scan(m, pos, pos, -1, 2, castle_scan(m, pos, pos, 1, 6, base))
    } else {
        base
    }
}

/// The pawn turn from `from` to `to` with the given capture and
/// promotion parts.
pub open spec fn pawn_turn(
    from: Position,
    to: Position,
    capture: Option<Position>,
    promo: Option<PieceType>,
) -> Turn {
    Turn {
        kind: PieceType::Pawn,
        from,
        to,
        capture,
        additional_move: None,
        promote_to: promo,
        promote_from: if promo is Some {
            Some(PieceType::Pawn)
        } else {
            None
        },
    }
}

/// The outcome of probing the four promotions of a pawn move.
pub open spec fn promo_probes(
    m: BoardModel,
    from: Position,
    to: Position,
    capture: bool,
    acc: Seq<Turn>,
) -> Seq<Turn> {
    let cap = if capture {
        Some(to)
    } else {
        None::<Position>
    };
    probe_push(
        m,
        probe_push(
            m,
            probe_push(
                m,
                probe_push(m, acc, pawn_turn(from, to, cap, Some(PieceType::Queen))),
                pawn_turn(from, to, cap, Some(PieceType::Rook)),
            ),
            pawn_turn(from, to, cap, Some(PieceType::Bishop)),
        ),
        pawn_turn(from, to, cap, Some(PieceType::Knight)),
    )
}

/// The outcome of probing the pawn's forward steps from `pos`.
pub open spec fn pawn_advance_probes(m: BoardModel, pos: Position, acc: Seq<Turn>) -> Seq<Turn> {
    let p = m.squares[sq_index(pos)]->0;
    let dir = spec_direction(p.color);
    match spec_offset(pos, dir, 0) {
        None => acc,
        Some(one) => {
            if m.squares[sq_index(one)] is Some {
                acc
            } else {
                let acc1 = if one.row == spec_home(spec_opposite(p.color)) {
                    promo_probes(m, pos, one, false, acc)
                } else {
                    probe_push(m, acc, pawn_turn(pos, one, None, None))
                };
                if pos.row == spec_home(p.color) + dir {
                    match spec_offset(one, dir, 0) {
                        Some(two) => if m.squares[sq_index(two)] is None {
                            probe_push(m, acc1, pawn_turn(pos, two, None, None))
                        } else {
                            acc1
                        },
                        None => acc1,
                    }
                } else {
                    acc1
                }
            }
        },
    }
}

/// The outcome of probing the pawn's diagonal capture toward column
/// offset `c_off`.
pub open spec fn pawn_capture_probes(m: BoardModel, pos: Position, c_off: int, acc: Seq<
    Turn,
>) -> Seq<Turn> {
    let p = m.squares[sq_index(pos)]->0;
    let dir = spec_direction(p.color);
    match spec_offset(pos, dir, c_off) {
        None => acc,
        Some(tgt) => match m.squares[sq_index(tgt)] {
            Some(other) => if other.color != p.color {
                if tgt.row == spec_home(other.color) {
                    promo_probes(m, pos, tgt, true, acc)
                } else {
                    probe_push(m, acc, pawn_turn(pos, tgt, Some(tgt), None))
                }
            } else {
                acc
            },
            None => acc,
        },
    }
}

/// The outcome of probing the pawn's en-passant capture from `pos`.
pub open spec fn pawn_ep_probes(m: BoardModel, pos: Position, acc: Seq<Turn>) -> Seq<Turn> {
    let p = m.squares[sq_index(pos)]->0;
    match m.en_passant_target {
        Some(target) => {
            let dir = spec_direction(p.color);
            let cd = pos.col - target.col;
            if pos.row + dir == target.row && (cd == 1 || cd == -1) {
                probe_push(
                    m,
                    acc,
                    pawn_turn(
                        pos,
                        target,
                        Some(Position { row: pos.row, col: target.col }),
                        None,
                    ),
                )
            } else {
                acc
            }
        },
        None => acc,
    }
}

/// The outcome of probing every pawn move from `pos`.
pub open spec fn pawn_probes(m: BoardModel, pos: Position) -> Seq<Turn> {
    pawn_ep_probes(
        m,
        pos,
        pawn_capture_probes(
            m,
            pos,
            1,
            pawn_capture_probes(m, pos, -1, pawn_advance_probes(m, pos, Seq::empty())),
        ),
    )
}

/// The outcome of probing every move of the piece at `pos`, by its kind.
pub open spec fn piece_probes(m: BoardModel, pos: Position) -> Seq<Turn> {
    match m.squares[sq_index(pos)]->0.kind {
        PieceType::King => king_probes(m, pos),
        PieceType::Queen => queen_probes(m, pos),
        PieceType::Rook => rook_probes(m, pos),
        PieceType::Bishop => bishop_probes(m, pos),
        PieceType::Knight => knight_probes(m, pos),
        PieceType::Pawn => pawn_probes(m, pos),
    }
}

/// The legal moves of every piece of the side to move on squares `i`
/// and beyond, appended to `acc`.
pub open spec fn all_probes_from(m: BoardModel, i: int, acc: Seq<Turn>) -> Seq<Turn>
    decreases 64 - i,
{
    if i < 0 || i >= 64 {
        acc
    } else {
        let pos = Position { row: (i / 8) as i8, col: (i % 8) as i8 };
        let acc2 = match m.squares[i] {
            Some(p) => if p.color == m.whose_turn {
                acc + piece_probes(m, pos)
            } else {
                acc
            },
            None => acc,
        };
        all_probes_from(m, i + 1, acc2)
    }
}

/// Every legal move of the side to move, in generation order.
pub open spec fn legal_moves(m: BoardModel) -> Seq<Turn> {
    all_probes_from(m, 0, Seq::empty())
}

/// The side to move is checkmated: in check with no legal move.
pub open spec fn checkmate_spec(m: BoardModel) -> bool {
    in_check(m) && legal_moves(m).len() == 0
}

/// The side to move is stalemated: no legal move, yet not in check.
pub open spec fn stalemate_spec(m: BoardModel) -> bool {
    !in_check(m) && legal_moves(m).len() == 0
}

/// The game is drawn: stalemate or the fifty-move rule, and not
/// checkmate.
pub open spec fn draw_spec(m: BoardModel) -> bool {
    !checkmate_spec(m) && (stalemate_spec(m) || fifty_move_spec(m))
}

/// The game is over: drawn or checkmated.
pub open spec fn game_over_spec(m: BoardModel) -> bool {
    draw_spec(m) || checkmate_spec(m)
}

/// The state of the game: a checkmate is a win for the side that just
/// moved, then stalemate and the fifty-move rule give draws, and
/// otherwise play goes on.
pub open spec fn game_state_spec(m: BoardModel) -> GameState {
    if checkmate_spec(m) {
        GameState::Win(spec_opposite(m.whose_turn), WinReason::Checkmate)
    } else if stalemate_spec(m) {
        GameState::Draw(DrawReason::Stalemate)
    } else if fifty_move_spec(m) {
        GameState::Draw(DrawReason::FiftyMoveRule)
    } else {
        GameState::Playing
    }
}

impl Board {
    /// Returns the move of the piece at `from` into `to` when the square
    /// is empty or holds a piece of the opposite color, and `None`
    /// otherwise. It does not account for the kind of piece this is.
    fn get_turn_simple(&self, from: Position, to: Position) -> (r: Option<Turn>)
        requires
            self@.wf(),
            from.wf(),
            to.wf(),
            self@.at(from) is Some,
        ensures
            r == spec_simple_turn(self@, from, to),
    {
        let this_piece = self.at_position(from).unwrap();
        if let Some(other_piece) = self.at_position(to) {
            if other_piece.color != this_piece.color {
                Some(Turn::new_capture(this_piece.kind, from, to))
            } else {
                None
            }
        } else {
            Some(Turn::new_basic(this_piece.kind, from, to))
        }
    }

    /// Probe the single square `(dr, dc)` away, if it is on the board.
    fn try_simple(&mut self, pos: Position, dr: i8, dc: i8, moves: &mut Vec<Turn>)
        requires
            gen_ready(old(self)@),
            pos.wf(),
            old(self)@.at(pos) matches Some(p) && p.color == old(self)@.whose_turn && p.kind
                != PieceType::Pawn,
            -2 <= dr <= 2,
            -2 <= dc <= 2,
            !(dr == 0 && dc == 0),
            forall|j: int| 0 <= j < old(moves)@.len() ==> turn_allowed(
                old(self)@,
                #[trigger] old(moves)@[j],
            ),
        ensures
            final(self)@ == old(self)@,
            final(moves)@ == simple_probe(old(self)@, pos, dr as int, dc as int, old(moves)@),
            forall|j: int| 0 <= j < final(moves)@.len() ==> turn_allowed(
                old(self)@,
                #[trigger] final(moves)@[j],
            ),
    {
        if let Some(to) = pos.offset(dr, dc) {
            if let Some(t) = self.get_turn_simple(pos, to) {
                proof {
                    lemma_simple_ready(self@, pos, to);
                }
                self.add_move_if_legal(t, moves);
            }
        }
    }

    /// Probe each square along a ray until the walk is blocked,
    /// including a blocking capture and excluding squares past a
    /// friendly piece.
    fn line_moves_dir(&mut self, pos: Position, dr: i8, dc: i8, moves: &mut Vec<Turn>)
        requires
            gen_ready(old(self)@),
            pos.wf(),
            old(self)@.at(pos) matches Some(p) && p.color == old(self)@.whose_turn && p.kind
                != PieceType::Pawn,
            -1 <= dr <= 1,
            -1 <= dc <= 1,
            !(dr == 0 && dc == 0),
            forall|j: int| 0 <= j < old(moves)@.len() ==> turn_allowed(
                old(self)@,
                #[trigger] old(moves)@[j],
            ),
        ensures
            final(self)@ == old(self)@,
            final(moves)@ == line_probe_from(
                old(self)@,
                pos,
                pos,
                dr as int,
                dc as int,
                old(moves)@,
            ),
            forall|j: int| 0 <= j < final(moves)@.len() ==> turn_allowed(
                old(self)@,
                #[trigger] final(moves)@[j],
            ),
    {
        let mut new_pos = pos;
        loop
            invariant_except_break
                line_probe_from(old(self)@, pos, new_pos, dr as int, dc as int, moves@)
                    == line_probe_from(old(self)@, pos, pos, dr as int, dc as int, old(moves)@),
            invariant
                self@ == old(self)@,
                gen_ready(self@),
                pos.wf(),
                new_pos.wf(),
                -1 <= dr <= 1,
                -1 <= dc <= 1,
                !(dr == 0 && dc == 0),
                self@.at(pos) matches Some(p) && p.color == self@.whose_turn && p.kind
                    != PieceType::Pawn,
                dr > 0 ==> new_pos.row >= pos.row,
                dr < 0 ==> new_pos.row <= pos.row,
                dr == 0 ==> new_pos.row == pos.row,
                dc > 0 ==> new_pos.col >= pos.col,
                dc < 0 ==> new_pos.col <= pos.col,
                dc == 0 ==> new_pos.col == pos.col,
                forall|j: int| 0 <= j < moves@.len() ==> turn_allowed(
                    old(self)@,
                    #[trigger] moves@[j],
                ),
            ensures
                moves@ == line_probe_from(
                    old(self)@,
                    pos,
                    pos,
                    dr as int,
                    dc as int,
                    old(moves)@,
                ),
            decreases ray_fuel(new_pos, dr as int, dc as int),
        {
            match new_pos.offset(dr, dc) {
                None => {
                    break;
                },
                Some(off_pos) => {
                    new_pos = off_pos;
                    match self.get_turn_simple(pos, new_pos) {
                        Some(t) => {
                            let was_capture = t.capture.is_some();
                            proof {
                                lemma_simple_ready(self@, pos, new_pos);
                            }
                            self.add_move_if_legal(t, moves);
                            if was_capture {
                                break;
                            }
                        },
                        None => {
                            break;
                        },
                    }
                },
            }
        }
    }

    /// Legal moves of the rook at `pos`: along its four directions.
    fn rook_moves(&mut self, pos: Position) -> (r: Vec<Turn>)
        requires
            gen_ready(old(self)@),
            pos.wf(),
            old(self)@.at(pos) matches Some(p) && p.color == old(self)@.whose_turn && p.kind
                != PieceType::Pawn,
        ensures
            final(self)@ == old(self)@,
            r@ == rook_probes(old(self)@, pos),
            forall|j: int| 0 <= j < r@.len() ==> turn_allowed(old(self)@, #[trigger] r@[j]),
    {
        let mut moves: Vec<Turn> = Vec::new();
        self.line_moves_dir(pos, 1, 0, &mut moves);
        self.line_moves_dir(pos, 0, 1, &mut moves);
        self.line_moves_dir(pos, -1, 0, &mut moves);
        self.line_moves_dir(pos, 0, -1, &mut moves);
        moves
    }

    /// Legal moves of the bishop at `pos`: along its four diagonals.
    fn bishop_moves(&mut self, pos: Position) -> (r: Vec<Turn>)
        requires
            gen_ready(old(self)@),
            pos.wf(),
            old(self)@.at(pos) matches Some(p) && p.color == old(self)@.whose_turn && p.kind
                != PieceType::Pawn,
        ensures
            final(self)@ == old(self)@,
            r@ == bishop_probes(old(self)@, pos),
            forall|j: int| 0 <= j < r@.len() ==> turn_allowed(old(self)@, #[trigger] r@[j]),
    {
        let mut moves: Vec<Turn> = Vec::new();
        self.line_moves_dir(pos, 1, 1, &mut moves);
        self.line_moves_dir(pos, 1, -1, &mut moves);
        self.line_moves_dir(pos, -1, -1, &mut moves);
        self.line_moves_dir(pos, -1, 1, &mut moves);
        moves
    }

    /// Legal moves of the queen at `pos`: along all eight directions.
    fn queen_moves(&mut self, pos: Position) -> (r: Vec<Turn>)
        requires
            gen_ready(old(self)@),
            pos.wf(),
            old(self)@.at(pos) matches Some(p) && p.color == old(self)@.whose_turn && p.kind
                != PieceType::Pawn,
        ensures
            final(self)@ == old(self)@,
            r@ == queen_probes(old(self)@, pos),
            forall|j: int| 0 <= j < r@.len() ==> turn_allowed(old(self)@, #[trigger] r@[j]),
    {
        let mut moves: Vec<Turn> = Vec::new();
        self.line_moves_dir(pos, 1, 0, &mut moves);
        self.line_moves_dir(pos, 0, 1, &mut moves);
        self.line_moves_dir(pos, -1, 0, &mut moves);
        self.line_moves_dir(pos, 0, -1, &mut moves);
        self.line_moves_dir(pos, 1, 1, &mut moves);
        self.line_moves_dir(pos, 1, -1, &mut moves);
        self.line_moves_dir(pos, -1, -1, &mut moves);
        self.line_moves_dir(pos, -1, 1, &mut moves);
        moves
    }

    /// Legal moves of the knight at `pos`: its eight fixed offsets.
    fn knight_moves(&mut self, pos: Position) -> (r: Vec<Turn>)
        requires
            gen_ready(old(self)@),
            pos.wf(),
            old(self)@.at(pos) matches Some(p) && p.color == old(self)@.whose_turn && p.kind
                != PieceType::Pawn,
        ensures
            final(self)@ == old(self)@,
            r@ == knight_probes(old(self)@, pos),
            forall|j: int| 0 <= j < r@.len() ==> turn_allowed(old(self)@, #[trigger] r@[j]),
    {
        let mut moves: Vec<Turn> = Vec::new();
        self.try_simple(pos, -2, -1, &mut moves);
        self.try_simple(pos, -2, 1, &mut moves);
        self.try_simple(pos, -1, -2, &mut moves);
        self.try_simple(pos, -1, 2, &mut moves);
        self.try_simple(pos, 1, -2, &mut moves);
        self.try_simple(pos, 1, 2, &mut moves);
        self.try_simple(pos, 2, -1, &mut moves);
        self.try_simple(pos, 2, 1, &mut moves);
        moves
    }

    /// Legal moves of the king at `pos`: the eight adjacent squares,
    /// plus castling when the king has never moved and stands on its
    /// home rank.
    fn king_moves(&mut self, from_pos: Position) -> (r: Vec<Turn>)
        requires
            gen_ready(old(self)@),
            from_pos.wf(),
            old(self)@.at(from_pos) matches Some(p) && p.color == old(self)@.whose_turn && p.kind
                == PieceType::King,
        ensures
            final(self)@ == old(self)@,
            r@ == king_probes(old(self)@, from_pos),
            forall|j: int| 0 <= j < r@.len() ==> turn_allowed(old(self)@, #[trigger] r@[j]),
    {
        let mut moves: Vec<Turn> = Vec::new();
        self.try_simple(from_pos, -1, -1, &mut moves);
        self.try_simple(from_pos, -1, 0, &mut moves);
        self.try_simple(from_pos, -1, 1, &mut moves);
        self.try_simple(from_pos, 0, -1, &mut moves);
        self.try_simple(from_pos, 0, 1, &mut moves);
        self.try_simple(from_pos, 1, -1, &mut moves);
        self.try_simple(from_pos, 1, 0, &mut moves);
        self.try_simple(from_pos, 1, 1, &mut moves);
        // Castling: the king can't have moved, and must be on its home
        // rank.
        let piece = self.at_position(from_pos).unwrap();
        if piece.move_count == 0 && from_pos.row() == piece.color.get_home() {
            self.castling_moves(from_pos, &mut moves);
        }
        moves
    }

    /// Probe castling toward each side's rook.
    fn castling_moves(&mut self, from_pos: Position, moves: &mut Vec<Turn>)
        requires
            gen_ready(old(self)@),
            from_pos.wf(),
            old(self)@.at(from_pos) matches Some(p) && p.color == old(self)@.whose_turn && p.kind
                == PieceType::King,
            forall|j: int| 0 <= j < old(moves)@.len() ==> turn_allowed(
                old(self)@,
                #[trigger] old(moves)@[j],
            ),
        ensures
            final(self)@ == old(self)@,
            final(moves)@ == castle_scan(
                old(self)@,
                from_pos,
                from_pos,
                -1,
                2,
                castle_scan(old(self)@, from_pos, from_pos, 1, 6, old(moves)@),
            ),
            forall|j: int| 0 <= j < final(moves)@.len() ==> turn_allowed(
                old(self)@,
                #[trigger] final(moves)@[j],
            ),
    {
        self.castling_side(from_pos, 1, 6, moves);
        self.castling_side(from_pos, -1, 2, moves);
    }

    /// Scan outward from the king; the first piece found decides whether
    /// castling to this side can be probed.
    fn castling_side(&mut self, from_pos: Position, col_dir: i8, res_col: i8, moves: &mut Vec<
        Turn,
    >)
        requires
            gen_ready(old(self)@),
            from_pos.wf(),
            (col_dir == 1 && res_col == 6) || (col_dir == -1 && res_col == 2),
            old(self)@.at(from_pos) matches Some(p) && p.color == old(self)@.whose_turn && p.kind
                == PieceType::King,
            forall|j: int| 0 <= j < old(moves)@.len() ==> turn_allowed(
                old(self)@,
                #[trigger] old(moves)@[j],
            ),
        ensures
            final(self)@ == old(self)@,
            final(moves)@ == castle_scan(
                old(self)@,
                from_pos,
                from_pos,
                col_dir as int,
                res_col as int,
                old(moves)@,
            ),
            forall|j: int| 0 <= j < final(moves)@.len() ==> turn_allowed(
                old(self)@,
                #[trigger] final(moves)@[j],
            ),
    {
        let mut new_pos = from_pos;
        loop
            invariant
                self@ == old(self)@,
                gen_ready(self@),
                from_pos.wf(),
                new_pos.wf(),
                new_pos.row == from_pos.row,
                col_dir == 1 ==> new_pos.col >= from_pos.col,
                col_dir == -1 ==> new_pos.col <= from_pos.col,
                (col_dir == 1 && res_col == 6) || (col_dir == -1 && res_col == 2),
                self@.at(from_pos) matches Some(p) && p.color == self@.whose_turn && p.kind
                    == PieceType::King,
                castle_scan(old(self)@, from_pos, new_pos, col_dir as int, res_col as int, moves@)
                    == castle_scan(
                    old(self)@,
                    from_pos,
                    from_pos,
                    col_dir as int,
                    res_col as int,
                    old(moves)@,
                ),
                forall|j: int| 0 <= j < moves@.len() ==> turn_allowed(
                    old(self)@,
                    #[trigger] moves@[j],
                ),
            decreases (if col_dir == 1 {
                7 - new_pos.col
            } else {
                new_pos.col as int
            }),
        {
            match new_pos.offset(0, col_dir) {
                None => {
                    return;
                },
                Some(p) => {
                    new_pos = p;
                    if self.at_position(new_pos).is_some() {
                        if !self.castling_try(new_pos, from_pos, col_dir, res_col, moves) {
                            return;
                        }
                    }
                },
            }
        }
    }

    /// The first piece on the scan was found at `rook_pos`: it must be
    /// the matching-color rook that has never moved, no square strictly
    /// between the king's current and destination columns may be
    /// attacked, and the two destination squares must be free. Returns
    /// whether the scan should continue.
    fn castling_try(
        &mut self,
        rook_pos: Position,
        from_pos: Position,
        col_dir: i8,
        res_col: i8,
        moves: &mut Vec<Turn>,
    ) -> (cont: bool)
        requires
            gen_ready(old(self)@),
            rook_pos.wf(),
            from_pos.wf(),
            rook_pos.row == from_pos.row,
            rook_pos != from_pos,
            (col_dir == 1 && res_col == 6) || (col_dir == -1 && res_col == 2),
            old(self)@.at(from_pos) matches Some(p) && p.color == old(self)@.whose_turn && p.kind
                == PieceType::King,
            old(self)@.at(rook_pos) is Some,
            forall|j: int| 0 <= j < old(moves)@.len() ==> turn_allowed(
                old(self)@,
                #[trigger] old(moves)@[j],
            ),
        ensures
            final(self)@ == old(self)@,
            final(moves)@ == castle_try_probe(
                old(self)@,
                rook_pos,
                from_pos,
                col_dir as int,
                res_col as int,
                old(moves)@,
            ).0,
            cont == castle_try_probe(
                old(self)@,
                rook_pos,
                from_pos,
                col_dir as int,
                res_col as int,
                old(moves)@,
            ).1,
            forall|j: int| 0 <= j < final(moves)@.len() ==> turn_allowed(
                old(self)@,
                #[trigger] final(moves)@[j],
            ),
    {
        let this_piece = self.at_position(from_pos).unwrap();
        let other_piece = self.at_position(rook_pos).unwrap();
        // If it's not our rook, untouched, this side is out.
        if !(other_piece.kind == PieceType::Rook && other_piece.color == this_piece.color
            && other_piece.move_count == 0) {
            return false;
        }
        // No square strictly between the king's current and destination
        // columns may be attacked by the opponent.
        let kc = from_pos.col();
        let lo = if kc < res_col {
            kc
        } else {
            res_col
        };
        let hi = if kc < res_col {
            res_col
        } else {
            kc
        };
        let mut c = lo + 1;
        while c < hi
            invariant
                self@ == old(self)@,
                gen_ready(self@),
                from_pos.wf(),
                rook_pos.wf(),
                rook_pos.row == from_pos.row,
                (col_dir == 1 && res_col == 6) || (col_dir == -1 && res_col == 2),
                old(self)@.at(from_pos) matches Some(p) && p.color == old(self)@.whose_turn
                    && p.kind == PieceType::King,
                this_piece == old(self)@.at(from_pos)->0,
                old(self)@.at(rook_pos) matches Some(o) && o.kind == PieceType::Rook && o.color
                    == this_piece.color && o.move_count == 0,
                lo == (if from_pos.col < res_col {
                    from_pos.col as int
                } else {
                    res_col as int
                }),
                hi == (if from_pos.col < res_col {
                    res_col as int
                } else {
                    from_pos.col as int
                }),
                0 <= lo,
                hi < 8,
                lo < c,
                moves@ == old(moves)@,
                forall|c2: int| lo < c2 < c ==> !attacked(
                    old(self)@,
                    square_at(from_pos.row as int, c2),
                    spec_opposite(old(self)@.whose_turn),
                ),
                forall|j: int| 0 <= j < moves@.len() ==> turn_allowed(
                    old(self)@,
                    #[trigger] moves@[j],
                ),
            decreases hi - c,
        {
            let sq = Position::new(from_pos.row(), c);
            if self.are_pieces_attacking(sq, this_piece.color.opposite()) {
                proof {
                    assert(attacked(
                        old(self)@,
                        square_at(from_pos.row as int, c as int),
                        spec_opposite(old(self)@.whose_turn),
                    ));
                    assert(!castle_window_clear(old(self)@, from_pos.row as int, lo as int, hi as int));
                }
                return false;
            }
            c = c + 1;
        }
        proof {
            assert(castle_window_clear(old(self)@, from_pos.row as int, lo as int, hi as int));
        }
        let king_to = Position::new(from_pos.row(), res_col);
        let rook_to = Position::new(from_pos.row(), res_col - col_dir);
        // The compound move must find the rook's destination free (or
        // just vacated by the king) and the king's destination free (or
        // just vacated by either mover).
        let rook_to_free = rook_to.col() != rook_pos.col() && (rook_to.col() == from_pos.col()
            || self.at_position(rook_to).is_none());
        let king_to_free = king_to.col() == from_pos.col() || king_to.col() == rook_pos.col()
            || self.at_position(king_to).is_none();
        if rook_to_free && king_to_free {
            let t = Turn::new_additional(
                this_piece.kind,
                (from_pos, king_to),
                (rook_pos, rook_to),
            );
            proof {
                lemma_castle_ready(self@, from_pos, rook_pos, king_to, rook_to);
            }
            self.add_move_if_legal(t, moves);
        }
        true
    }

    /// Probe the four promotions of the pawn moving from `from` to `to`.
    fn try_pawn_promotions(&mut self, from: Position, to: Position, capture: bool, moves: &mut Vec<
        Turn,
    >)
        requires
            gen_ready(old(self)@),
            from.wf(),
            to.wf(),
            from != to,
            old(self)@.at(from) matches Some(p) && p.color == old(self)@.whose_turn && p.kind
                == PieceType::Pawn,
            capture ==> abs_spec(to.row - from.row) == 1 && (old(self)@.at(to) matches Some(q)
                && q.color == spec_opposite(old(self)@.whose_turn)),
            !capture ==> old(self)@.at(to) is None,
            forall|j: int| 0 <= j < old(moves)@.len() ==> turn_allowed(
                old(self)@,
                #[trigger] old(moves)@[j],
            ),
        ensures
            final(self)@ == old(self)@,
            final(moves)@ == promo_probes(old(self)@, from, to, capture, old(moves)@),
            forall|j: int| 0 <= j < final(moves)@.len() ==> turn_allowed(
                old(self)@,
                #[trigger] final(moves)@[j],
            ),
    {
        let kind = self.at_position(from).unwrap().kind;
        self.try_one_promotion(from, to, capture, PieceType::Queen, kind, moves);
        self.try_one_promotion(from, to, capture, PieceType::Rook, kind, moves);
        self.try_one_promotion(from, to, capture, PieceType::Bishop, kind, moves);
        self.try_one_promotion(from, to, capture, PieceType::Knight, kind, moves);
    }

    /// Probe one promotion candidate.
    fn try_one_promotion(
        &mut self,
        from: Position,
        to: Position,
        capture: bool,
        promo: PieceType,
        kind: PieceType,
        moves: &mut Vec<Turn>,
    )
        requires
            gen_ready(old(self)@),
            from.wf(),
            to.wf(),
            from != to,
            kind == PieceType::Pawn,
            old(self)@.at(from) matches Some(p) && p.color == old(self)@.whose_turn && p.kind
                == PieceType::Pawn,
            capture ==> abs_spec(to.row - from.row) == 1 && (old(self)@.at(to) matches Some(q)
                && q.color == spec_opposite(old(self)@.whose_turn)),
            !capture ==> old(self)@.at(to) is None,
            forall|j: int| 0 <= j < old(moves)@.len() ==> turn_allowed(
                old(self)@,
                #[trigger] old(moves)@[j],
            ),
        ensures
            final(self)@ == old(self)@,
            final(moves)@ == probe_push(
                old(self)@,
                old(moves)@,
                pawn_turn(
                    from,
                    to,
                    if capture {
                        Some(to)
                    } else {
                        None::<Position>
                    },
                    Some(promo),
                ),
            ),
            forall|j: int| 0 <= j < final(moves)@.len() ==> turn_allowed(
                old(self)@,
                #[trigger] final(moves)@[j],
            ),
    {
        let t = Turn::new_promotion(kind, from, to, promo, capture);
        proof {
            if capture {
                lemma_pawn_capture_ready(self@, from, to, Some(promo));
            } else {
                lemma_pawn_quiet_ready(self@, from, to, Some(promo));
            }
        }
        self.add_move_if_legal(t, moves);
    }

    /// Probe the pawn's forward steps: one square, a promotion on the
    /// far rank, and two squares from the rank next to home.
    fn pawn_advance(&mut self, pos: Position, moves: &mut Vec<Turn>)
        requires
            gen_ready(old(self)@),
            pos.wf(),
            old(self)@.at(pos) matches Some(p) && p.color == old(self)@.whose_turn && p.kind
                == PieceType::Pawn,
            forall|j: int| 0 <= j < old(moves)@.len() ==> turn_allowed(
                old(self)@,
                #[trigger] old(moves)@[j],
            ),
        ensures
            final(self)@ == old(self)@,
            final(moves)@ == pawn_advance_probes(old(self)@, pos, old(moves)@),
            forall|j: int| 0 <= j < final(moves)@.len() ==> turn_allowed(
                old(self)@,
                #[trigger] final(moves)@[j],
            ),
    {
        let piece = self.at_position(pos).unwrap();
        let dir = piece.color.get_direction();
        if let Some(one) = pos.offset(dir, 0) {
            if self.at_position(one).is_none() {
                if one.row() == piece.color.opposite().get_home() {
                    // Promotion.
                    self.try_pawn_promotions(pos, one, false, moves);
                } else {
                    let t = Turn::new_basic(piece.kind, pos, one);
                    proof {
                        lemma_pawn_quiet_ready(self@, pos, one, None);
                    }
                    self.add_move_if_legal(t, moves);
                }
                // The first move can be two squares.
                if pos.row() == piece.color.get_home() + dir {
                    if let Some(two) = one.offset(dir, 0) {
                        if self.at_position(two).is_none() {
                            let t = Turn::new_basic(piece.kind, pos, two);
                            proof {
                                lemma_pawn_quiet_ready(self@, pos, two, None);
                            }
                            self.add_move_if_legal(t, moves);
                        }
                    }
                }
            }
        }
    }

    /// Probe the pawn's diagonal capture toward column offset `c_off`.
    fn pawn_capture(&mut self, pos: Position, c_off: i8, moves: &mut Vec<Turn>)
        requires
            gen_ready(old(self)@),
            pos.wf(),
            c_off == 1 || c_off == -1,
            old(self)@.at(pos) matches Some(p) && p.color == old(self)@.whose_turn && p.kind
                == PieceType::Pawn,
            forall|j: int| 0 <= j < old(moves)@.len() ==> turn_allowed(
                old(self)@,
                #[trigger] old(moves)@[j],
            ),
        ensures
            final(self)@ == old(self)@,
            final(moves)@ == pawn_capture_probes(old(self)@, pos, c_off as int, old(moves)@),
            forall|j: int| 0 <= j < final(moves)@.len() ==> turn_allowed(
                old(self)@,
                #[trigger] final(moves)@[j],
            ),
    {
        let this_piece = self.at_position(pos).unwrap();
        let dir = this_piece.color.get_direction();
        if let Some(tgt) = pos.offset(dir, c_off) {
            if let Some(other_piece) = self.at_position(tgt) {
                if other_piece.color != this_piece.color {
                    // Promotion on the far rank.
                    if tgt.row() == other_piece.color.get_home() {
                        self.try_pawn_promotions(pos, tgt, true, moves);
                    } else {
                        let t = Turn::new_capture(this_piece.kind, pos, tgt);
                        proof {
                            lemma_pawn_capture_ready(self@, pos, tgt, None);
                        }
                        self.add_move_if_legal(t, moves);
                    }
                }
            }
        }
    }

    /// Probe the en-passant capture onto the current target square.
    fn pawn_en_passant(&mut self, pos: Position, moves: &mut Vec<Turn>)
        requires
            gen_ready(old(self)@),
            pos.wf(),
            old(self)@.at(pos) matches Some(p) && p.color == old(self)@.whose_turn && p.kind
                == PieceType::Pawn,
            forall|j: int| 0 <= j < old(moves)@.len() ==> turn_allowed(
                old(self)@,
                #[trigger] old(moves)@[j],
            ),
        ensures
            final(self)@ == old(self)@,
            final(moves)@ == pawn_ep_probes(old(self)@, pos, old(moves)@),
            forall|j: int| 0 <= j < final(moves)@.len() ==> turn_allowed(
                old(self)@,
                #[trigger] final(moves)@[j],
            ),
    {
        let this_piece = self.at_position(pos).unwrap();
        if let Some(target) = self.ep_target() {
            let dir = this_piece.color.get_direction();
            let cd = pos.col() - target.col();
            if pos.row() + dir == target.row() && (cd == 1 || cd == -1) {
                let capsq = Position::new(pos.row(), target.col());
                let t = Turn::new_capture_complex(this_piece.kind, pos, target, capsq);
                proof {
                    lemma_pawn_ep_ready(self@, pos, target);
                }
                self.add_move_if_legal(t, moves);
            }
        }
    }

    /// Legal moves of the pawn at `pos`: advances, the two diagonal
    /// captures, and en passant.
    fn pawn_moves(&mut self, pos: Position) -> (r: Vec<Turn>)
        requires
            gen_ready(old(self)@),
            pos.wf(),
            old(self)@.at(pos) matches Some(p) && p.color == old(self)@.whose_turn && p.kind
                == PieceType::Pawn,
        ensures
            final(self)@ == old(self)@,
            r@ == pawn_probes(old(self)@, pos),
            forall|j: int| 0 <= j < r@.len() ==> turn_allowed(old(self)@, #[trigger] r@[j]),
    {
        let mut moves: Vec<Turn> = Vec::new();
        self.pawn_advance(pos, &mut moves);
        self.pawn_capture(pos, -1, &mut moves);
        self.pawn_capture(pos, 1, &mut moves);
        self.pawn_en_passant(pos, &mut moves);
        moves
    }

    /// Return the moves that can be legally made by the piece of the
    /// side to move standing at `pos`: every returned turn is executable
    /// and leaves the mover's own king safe.
    pub fn get_piece_moves(&mut self, pos: Position) -> (r: Vec<Turn>)
        requires
            gen_ready(old(self)@),
            pos.wf(),
            old(self)@.at(pos) matches Some(p) && p.color == old(self)@.whose_turn,
        ensures
            final(self)@ == old(self)@,
            r@ == piece_probes(old(self)@, pos),
            forall|j: int| 0 <= j < r@.len() ==> turn_allowed(old(self)@, #[trigger] r@[j]),
    {
        let kind = self.at_position(pos).unwrap().kind;
        match kind {
            PieceType::King => self.king_moves(pos),
            PieceType::Queen => self.queen_moves(pos),
            PieceType::Rook => self.rook_moves(pos),
            PieceType::Bishop => self.bishop_moves(pos),
            PieceType::Knight => self.knight_moves(pos),
            PieceType::Pawn => self.pawn_moves(pos),
        }
    }

    /// Enumerate the legal moves of every piece of the side to move.
    pub fn do_get_moves(&mut self) -> (r: Vec<Turn>)
        requires
            gen_ready(old(self)@),
        ensures
            final(self)@ == old(self)@,
            r@ == legal_moves(old(self)@),
            forall|j: int| 0 <= j < r@.len() ==> turn_allowed(old(self)@, #[trigger] r@[j]),
    {
        let mut turns: Vec<Turn> = Vec::new();
        let mut i: usize = 0;
        while i < 64
            invariant
                self@ == old(self)@,
                gen_ready(self@),
                i <= 64,
                all_probes_from(old(self)@, i as int, turns@) == legal_moves(old(self)@),
                forall|j: int| 0 <= j < turns@.len() ==> turn_allowed(
                    old(self)@,
                    #[trigger] turns@[j],
                ),
            decreases 64 - i,
        {
            let pos = index_to_position(i);
            if let Some(piece) = self.at_position(pos) {
                if piece.color == self.whose_turn() {
                    let mut more = self.get_piece_moves(pos);
                    turns.append(&mut more);
                }
            }
            i = i + 1;
        }
        turns
    }

    /// Returns all legal moves that can be made: empty when the game is
    /// already drawn by repetition or the fifty-move rule, and otherwise
    /// only turns that are executable and leave the mover's king safe —
    /// the generator never offers a move into check.
    pub fn get_moves(&mut self) -> (r: Vec<Turn>)
        requires
            gen_ready(old(self)@),
        ensures
            final(self)@ == old(self)@,
            r@ == (if fifty_move_spec(old(self)@) {
                Seq::<Turn>::empty()
            } else {
                legal_moves(old(self)@)
            }),
            forall|j: int| 0 <= j < r@.len() ==> turn_allowed(old(self)@, #[trigger] r@[j]),
            fifty_move_spec(old(self)@) ==> r@.len() == 0,
    {
        // If it's threefold repetition or the fifty-move rule, skip all
        // the checks.
        if self.is_threefold_repetition() || self.is_50_move_rule() {
            Vec::new()
        } else {
            self.do_get_moves()
        }
    }

    /// Returns whether the position is check: the side to move has its
    /// king attacked.
    pub fn is_check(&self) -> (r: bool)
        requires
            self@.wf(),
            history_last_wf(self@),
            first_king(self@, self@.whose_turn) is Some,
        ensures
            r == in_check(self@),
    {
        self.is_king_attacked(self.whose_turn())
    }

    /// Returns whether the position is checkmate: check, with no legal
    /// move out of it.
    pub fn is_checkmate(&mut self) -> (r: bool)
        requires
            gen_ready(old(self)@),
        ensures
            final(self)@ == old(self)@,
            r == checkmate_spec(old(self)@),
    {
        if !self.is_check() {
            return false;
        }
        let ms = self.do_get_moves();
        ms.len() == 0
    }

    /// Returns whether the position is stalemate: no legal move, yet not
    /// check.
    pub fn is_stalemate(&mut self) -> (r: bool)
        requires
            gen_ready(old(self)@),
        ensures
            final(self)@ == old(self)@,
            r == stalemate_spec(old(self)@),
    {
        if self.is_check() {
            return false;
        }
        let ms = self.do_get_moves();
        ms.len() == 0
    }

    /// Returns whether the game is a draw: stalemate or one of the
    /// tracked draw rules, and not checkmate.
    pub fn is_draw(&mut self) -> (r: bool)
        requires
            gen_ready(old(self)@),
        ensures
            final(self)@ == old(self)@,
            r == draw_spec(old(self)@),
    {
        if self.is_checkmate() {
            return false;
        }
        if self.is_stalemate() {
            return true;
        }
        if self.is_threefold_repetition() {
            return true;
        }
        if self.is_50_move_rule() {
            return true;
        }
        if self.is_insufficient_material() {
            return true;
        }
        false
    }

    /// Returns whether the game is over: a draw or checkmate.
    pub fn is_game_over(&mut self) -> (r: bool)
        requires
            gen_ready(old(self)@),
        ensures
            final(self)@ == old(self)@,
            r == game_over_spec(old(self)@),
    {
        if self.is_draw() {
            return true;
        }
        self.is_checkmate()
    }

    /// Returns the state of the game: a checkmate is a win for the side
    /// that just moved; otherwise stalemate or a tracked draw rule gives
    /// a draw; otherwise play goes on.
    pub fn get_game_state(&mut self) -> (r: GameState)
        requires
            gen_ready(old(self)@),
        ensures
            final(self)@ == old(self)@,
            r == game_state_spec(old(self)@),
    {
        if self.is_checkmate() {
            GameState::Win(self.whose_turn().opposite(), WinReason::Checkmate)
        } else if self.is_stalemate() {
            GameState::Draw(DrawReason::Stalemate)
        } else if self.is_50_move_rule() {
            GameState::Draw(DrawReason::FiftyMoveRule)
        } else if self.is_threefold_repetition() {
            GameState::Draw(DrawReason::ThreefoldRepetition)
        } else if self.is_insufficient_material() {
            GameState::Draw(DrawReason::InsufficientMaterial)
        } else {
            GameState::Playing
        }
    }
}

} // verus!
