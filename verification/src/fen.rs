//! Decoding a position from Forsyth-Edwards notation: piece placement,
//! side to move, castling rights, en-passant target, half-move clock and
//! full-move number, with a structured error for each malformed part.

use crate::board::Board;
use crate::color::Color;
use crate::piece::{Piece, PieceType};
use crate::position::Position;
use vstd::prelude::*;
use vstd::string::*;

verus! {

/// Error with FEN parsing.
#[derive(Debug, Clone, PartialEq, Eq)]
pub enum FenError {
    /// FEN strings must be ASCII.
    NotAscii,
    /// Wrong number of sections in the FEN string. Expect: positions,
    /// color, castling rights, en passant target, half-move clock,
    /// number of turns. Includes the actual number of sections given.
    IncorrectSections(usize),
    /// Wrong number of rows (expected 8).
    IncorrectRows(i8),
    /// Wrong number of cols (expected 8). Includes the row number and
    /// the column number.
    IncorrectCols(i8, i8),
    /// Invalid piece type. Includes the character for that piece type.
    InvalidPiece(char),
    /// Invalid color for a piece. Includes the given color.
    InvalidColor(String),
    /// Invalid position for the en passant target.
    InvalidPosition(String),
    /// Invalid string for castling.
    InvalidCastling(String),
    /// Castles aren't on the home row, but castling is enabled.
    IllegalCastling(String),
    /// Failed to parse a number. Includes the offending section.
    InvalidNumber(String),
}

/// The numeric value of a digit character.
pub open spec fn char_digit(c: char) -> int {
    c as int - 48
}

/// Every character of the sequence is a decimal digit.
pub open spec fn all_digits(s: Seq<char>) -> bool {
    forall|i: int| 0 <= i < s.len() ==> '0' <= #[trigger] s[i] <= '9'
}

/// The value of a digit string, most significant digit first.
pub open spec fn digits_val(s: Seq<char>) -> int
    decreases s.len(),
{
    if s.len() == 0 {
        0
    } else {
        10 * digits_val(s.drop_last()) + char_digit(s.last())
    }
}

/// The sequence is a decimal integer: digits with an optional sign.
pub open spec fn int_token(s: Seq<char>) -> bool {
    if s.len() > 0 && (s[0] == '-' || s[0] == '+') {
        s.len() > 1 && all_digits(s.subrange(1, s.len() as int))
    } else {
        s.len() > 0 && all_digits(s)
    }
}

/// The integer a well-formed decimal token denotes.
pub open spec fn int_token_val(s: Seq<char>) -> int {
    if s.len() > 0 && s[0] == '-' {
        -digits_val(s.subrange(1, s.len() as int))
    } else if s.len() > 0 && s[0] == '+' {
        digits_val(s.subrange(1, s.len() as int))
    } else {
        digits_val(s)
    }
}

/// A digit string's value is non-negative.
proof fn lemma_digits_nonneg(s: Seq<char>)
    requires
        all_digits(s),
    ensures
        digits_val(s) >= 0,
    decreases s.len(),
{
    if s.len() > 0 {
        assert(all_digits(s.drop_last())) by {
            assert(forall|i: int| 0 <= i < s.len() - 1 ==> s.drop_last()[i] == s[i]);
        }
        lemma_digits_nonneg(s.drop_last());
    }
}

/// Extending a digit string never lowers its value.
proof fn lemma_digits_prefix(s: Seq<char>, k: int)
    requires
        all_digits(s),
        0 <= k <= s.len(),
    ensures
        digits_val(s) >= digits_val(s.subrange(0, k)),
    decreases s.len() - k,
{
    if k == s.len() {
        assert(s.subrange(0, k) =~= s);
    } else {
        lemma_digits_prefix(s, k + 1);
        let a = s.subrange(0, k);
        let b = s.subrange(0, k + 1);
        assert(b.drop_last() =~= a);
        assert(all_digits(a)) by {
            assert(forall|i: int| 0 <= i < k ==> a[i] == s[i]);
        }
        assert(all_digits(b)) by {
            assert(forall|i: int| 0 <= i < k + 1 ==> b[i] == s[i]);
        }
        lemma_digits_nonneg(a);
        assert(digits_val(b) == 10 * digits_val(a) + char_digit(s[k]));
        assert(char_digit(s[k]) >= 0);
        assert(digits_val(b) >= digits_val(a));
    }
}

/// An ASCII whitespace byte, as the section splitter skips them.
pub open spec fn is_ws(b: u8) -> bool {
    b == 32 || b == 9 || b == 10 || b == 13 || b == 12
}

/// An ASCII whitespace character.
pub open spec fn is_ws_char(c: char) -> bool {
    c == ' ' || c == '\t' || c == '\n' || c == '\r' || c == '\u{c}'
}

/// The whitespace-separated tokens of `s` from index `i` on, given the
/// token read so far and the tokens already complete.
pub open spec fn ws_split_from(s: Seq<char>, i: int, cur: Seq<char>, acc: Seq<Seq<char>>) -> Seq<
    Seq<char>,
>
    decreases s.len() - i,
{
    if i < 0 || i >= s.len() {
        if cur.len() > 0 {
            acc.push(cur)
        } else {
            acc
        }
    } else if is_ws_char(s[i]) {
        ws_split_from(
            s,
            i + 1,
            Seq::empty(),
            if cur.len() > 0 {
                acc.push(cur)
            } else {
                acc
            },
        )
    } else {
        ws_split_from(s, i + 1, cur.push(s[i]), acc)
    }
}

/// The whitespace-separated tokens of `s`, in order.
pub open spec fn ws_split(s: Seq<char>) -> Seq<Seq<char>> {
    ws_split_from(s, 0, Seq::empty(), Seq::empty())
}

/// The token of `s` that each index range of `ranges` designates.
pub open spec fn token_views(s: Seq<char>, ranges: Seq<(usize, usize)>) -> Seq<Seq<char>> {
    Seq::new(ranges.len(), |j: int| s.subrange(ranges[j].0 as int, ranges[j].1 as int))
}

/// Whether the character at index `j` is ASCII whitespace.
fn ws_at(s: &str, j: usize) -> (r: bool)
    requires
        s.is_ascii(),
        j < s@.len(),
    ensures
        r == is_ws(s@[j as int] as u8),
{
    let b = s.get_ascii(j);
    b == 32 || b == 9 || b == 10 || b == 13 || b == 12
}

/// Split an ASCII string into its whitespace-separated sections, each as
/// a half-open index range designating one token of `ws_split`.
fn split_ws(s: &str) -> (r: Vec<(usize, usize)>)
    requires
        s.is_ascii(),
    ensures
        forall|j: int| 0 <= j < r@.len() ==> #[trigger] r@[j].0 < r@[j].1 <= s@.len(),
        token_views(s@, r@) == ws_split(s@),
{
    let n = s.unicode_len();
    let mut out: Vec<(usize, usize)> = Vec::new();
    let mut i: usize = 0;
    proof {
        assert(token_views(s@, out@) =~= Seq::<Seq<char>>::empty());
    }
    while i < n
        invariant
            s.is_ascii(),
            i <= n,
            n == s@.len(),
            forall|j: int| 0 <= j < out@.len() ==> #[trigger] out@[j].0 < out@[j].1 <= s@.len(),
            ws_split_from(s@, i as int, Seq::empty(), token_views(s@, out@)) == ws_split(s@),
        decreases n - i,
    {
        if ws_at(s, i) {
            proof {
                assert(s@[i as int] <= '\u{7f}');
                assert(is_ws_char(s@[i as int]));
            }
            i = i + 1;
        } else {
            let start = i;
            proof {
                assert(s@[i as int] <= '\u{7f}');
                assert(!is_ws_char(s@[i as int]));
                assert(Seq::<char>::empty().push(s@[i as int]) =~= s@.subrange(
                    start as int,
                    start + 1,
                ));
            }
            i = i + 1;
            while i < n && !ws_at(s, i)
                invariant
                    s.is_ascii(),
                    n == s@.len(),
                    start < i <= n,
                    ws_split_from(
                        s@,
                        i as int,
                        s@.subrange(start as int, i as int),
                        token_views(s@, out@),
                    ) == ws_split(s@),
                decreases n - i,
            {
                proof {
                    let cur = s@.subrange(start as int, i as int);
                    assert(cur.push(s@[i as int]) =~= s@.subrange(start as int, i + 1));
                }
                i = i + 1;
            }
            let ghost old_out = out@;
            out.push((start, i));
            proof {
                let tok = s@.subrange(start as int, i as int);
                assert(token_views(s@, out@) =~= token_views(s@, old_out).push(tok));
                if i < n {
                    assert(s@[i as int] <= '\u{7f}');
                    assert(is_ws_char(s@[i as int]));
                    assert(ws_split_from(s@, i as int, tok, token_views(s@, old_out))
                        == ws_split_from(s@, i + 1, Seq::empty(), token_views(s@, out@)));
                    assert(ws_split_from(s@, i as int, Seq::empty(), token_views(s@, out@))
                        == ws_split_from(s@, i + 1, Seq::empty(), token_views(s@, out@)));
                } else {
                    assert(ws_split_from(s@, i as int, tok, token_views(s@, old_out))
                        == token_views(s@, out@));
                    assert(ws_split_from(s@, i as int, Seq::empty(), token_views(s@, out@))
                        == token_views(s@, out@));
                }
            }
        }
    }
    proof {
        assert(ws_split_from(s@, n as int, Seq::<char>::empty(), token_views(s@, out@))
            == token_views(s@, out@));
    }
    out
}

/// Parse the decimal integer in `s[start..end]`, accepting it only when
/// it lies in `[lo, hi]`.
fn parse_int_range(s: &str, start: usize, end: usize, lo: i64, hi: i64) -> (r: Option<i64>)
    requires
        s.is_ascii(),
        start <= end <= s@.len(),
        -2147483648 <= lo <= 0 <= hi <= 2147483647,
    ensures
        ({
            let tok = s@.subrange(start as int, end as int);
            &&& (r is Some <==> int_token(tok) && lo <= int_token_val(tok) <= hi)
            &&& (r matches Some(v) ==> v == int_token_val(tok))
        }),
{
    let ghost tok = s@.subrange(start as int, end as int);
    let mut i = start;
    let mut neg = false;
    let mut signed = false;
    if i < end {
        let b = s.get_ascii(i);
        if b == 45 {
            neg = true;
            signed = true;
            i = i + 1;
        } else if b == 43 {
            signed = true;
            i = i + 1;
        }
    }
    let ghost dstart = i as int;
    if i >= end {
        // No digits at all.
        assert(!int_token(tok));
        return None;
    }
    let mut acc: i64 = 0;
    while i < end
        invariant
            s.is_ascii(),
            -2147483648 <= lo <= 0 <= hi <= 2147483647,
            start <= dstart <= i <= end <= s@.len(),
            dstart == if signed {
                start + 1
            } else {
                start as int
            },
            tok == s@.subrange(start as int, end as int),
            signed ==> tok.len() > 0 && (tok[0] == '-' || tok[0] == '+'),
            neg ==> signed && tok[0] == '-',
            signed && !neg ==> tok[0] == '+',
            !signed && tok.len() > 0 ==> !(tok[0] == '-' || tok[0] == '+'),
            tok.len() == end - start,
            all_digits(s@.subrange(dstart, i as int)),
            acc == digits_val(s@.subrange(dstart, i as int)),
            0 <= acc <= 2147483648,
        decreases end - i,
    {
        let b = s.get_ascii(i);
        if !(48 <= b && b <= 57) {
            // A non-digit inside the token: not an integer at all.
            proof {
                let digit_part = tok.subrange(dstart - start, tok.len() as int);
                assert(digit_part[i - dstart] == s@[i as int]);
                assert(!('0' <= digit_part[i - dstart] <= '9'));
                assert(!int_token(tok));
            }
            return None;
        }
        let ghost old_i = i as int;
        acc = acc * 10 + ((b - 48) as i64);
        i = i + 1;
        proof {
            let pre = s@.subrange(dstart, old_i);
            let ext = s@.subrange(dstart, i as int);
            assert(ext.drop_last() =~= pre);
            assert(ext.last() == s@[old_i]);
            assert(s@[old_i] <= '\u{7f}');
            assert(s@[old_i] as u8 == b);
            assert(char_digit(ext.last()) == b - 48);
            assert forall|k: int| 0 <= k < ext.len() implies '0' <= #[trigger] ext[k] <= '9' by {
                if k < ext.len() - 1 {
                    assert(ext[k] == pre[k]);
                } else {
                    assert(ext[k] == s@[old_i]);
                }
            }
            assert(digits_val(ext) == 10 * digits_val(pre) + char_digit(ext.last()));
            assert(acc == digits_val(ext));
        }
        if acc > 2147483648 {
            // Too large in magnitude ever to come back into range.
            proof {
                let digit_part = tok.subrange(dstart - start, tok.len() as int);
                let pre = s@.subrange(dstart, i as int);
                if int_token(tok) {
                    assert(digit_part =~= s@.subrange(dstart, end as int));
                    assert(pre =~= digit_part.subrange(0, i - dstart));
                    assert(all_digits(digit_part));
                    lemma_digits_prefix(digit_part, i - dstart);
                    assert(digits_val(digit_part) >= acc);
                    if signed {
                        assert(digit_part =~= tok.subrange(1, tok.len() as int));
                    } else {
                        assert(digit_part =~= tok);
                    }
                    assert(digits_val(digit_part) >= 2147483649);
                    if neg {
                        assert(int_token_val(tok) == -digits_val(digit_part));
                        assert(int_token_val(tok) <= -2147483649);
                        assert(lo >= -2147483648);
                        assert(int_token_val(tok) < lo);
                    } else {
                        assert(int_token_val(tok) == digits_val(digit_part));
                        assert(int_token_val(tok) >= 2147483649);
                        assert(hi <= 2147483647);
                        assert(int_token_val(tok) > hi);
                    }
                }
            }
            return None;
        }
    }
    proof {
        let digit_part = tok.subrange(dstart - start, tok.len() as int);
        assert(digit_part =~= s@.subrange(dstart, end as int));
        assert(int_token(tok));
        assert(digits_val(digit_part) == acc);
        assert(int_token_val(tok) == if neg {
            -acc
        } else {
            acc as int
        });
    }
    let v: i64 = if neg {
        -acc
    } else {
        acc
    };
    if v < lo || v > hi {
        None
    } else {
        Some(v)
    }
}

impl Color {
    /// Get a color from the to-move section of a FEN string: `w` or `b`.
    pub fn from_fen(fen_color: &str) -> (r: Result<Self, FenError>)
        ensures
            r == Ok::<Color, FenError>(Color::White) <==> fen_color@ == seq!['w'],
            r == Ok::<Color, FenError>(Color::Black) <==> fen_color@ == seq!['b'],
            r matches Err(e) ==> e matches FenError::InvalidColor(t) && t@ == fen_color@,
    {
        let n = fen_color.unicode_len();
        if n == 1 {
            let c = fen_color.get_char(0);
            if c == 'w' {
                proof {
                    assert(fen_color@ =~= seq!['w']);
                }
                return Ok(Color::White);
            }
            if c == 'b' {
                proof {
                    assert(fen_color@ =~= seq!['b']);
                }
                return Ok(Color::Black);
            }
        }
        Err(FenError::InvalidColor(String::from_str(fen_color)))
    }
}

/// The lower-case form of an ASCII letter byte.
pub open spec fn lower_byte(b: u8) -> u8 {
    if 65 <= b <= 90 {
        (b + 32) as u8
    } else {
        b
    }
}

/// The token denotes a square: a file letter `a`-`h` in either case
/// followed by a rank digit `1`-`8`.
pub open spec fn square_token_valid(s: Seq<char>) -> bool {
    &&& s.len() == 2
    &&& s[0] <= '\u{ff}'
    &&& s[1] <= '\u{ff}'
    &&& 97 <= lower_byte(s[0] as u8) <= 104
    &&& 49 <= s[1] as u8 <= 56
}

/// The square a well-formed token denotes.
pub open spec fn square_token_value(s: Seq<char>) -> Position {
    Position { row: (s[1] as u8 - 49) as i8, col: (lower_byte(s[0] as u8) - 97) as i8 }
}

impl Position {
    /// Read an en-passant target from a FEN section: `-` for none, or a
    /// file letter followed by a rank digit.
    pub fn from_fen(fen_pos: &str) -> (r: Result<Option<Self>, FenError>)
        ensures
            fen_pos@ == seq!['-'] <==> r == Ok::<Option<Position>, FenError>(None),
            square_token_valid(fen_pos@) ==> r == Ok::<Option<Position>, FenError>(
                Some(square_token_value(fen_pos@)),
            ),
            r matches Ok(Some(p)) ==> square_token_valid(fen_pos@) && p == square_token_value(
                fen_pos@,
            ) && p.wf(),
            r matches Err(e) ==> e matches FenError::InvalidPosition(t) && t@ == fen_pos@
                && !square_token_valid(fen_pos@) && fen_pos@ != seq!['-'],
    {
        let n = fen_pos.unicode_len();
        if n == 1 {
            if fen_pos.get_char(0) == '-' {
                proof {
                    assert(fen_pos@ =~= seq!['-']);
                }
                return Ok(None);
            }
            proof {
                assert(fen_pos@ != seq!['-']) by {
                    assert(fen_pos@[0] != '-');
                }
            }
            return Err(FenError::InvalidPosition(String::from_str(fen_pos)));
        }
        if n != 2 {
            proof {
                assert(fen_pos@ != seq!['-']) by {
                    assert(fen_pos@.len() != 1);
                }
            }
            return Err(FenError::InvalidPosition(String::from_str(fen_pos)));
        }
        let c0 = fen_pos.get_char(0);
        let c1 = fen_pos.get_char(1);
        if !(c0 as u32 <= 255 && c1 as u32 <= 255) {
            return Err(FenError::InvalidPosition(String::from_str(fen_pos)));
        }
        let b0 = c0 as u8;
        let b1 = c1 as u8;
        let col_byte = if 65 <= b0 && b0 <= 90 {
            b0 + 32
        } else {
            b0
        };
        if !(97 <= col_byte && col_byte <= 104) || !(49 <= b1 && b1 <= 56) {
            return Err(FenError::InvalidPosition(String::from_str(fen_pos)));
        }
        let row = (b1 - 49) as i8;
        let col = (col_byte - 97) as i8;
        Ok(Some(Position::new(row, col)))
    }
}

/// The piece kind and color a placement letter denotes: upper case is
/// White, and the letter (case folded) names the kind.
pub open spec fn piece_of_byte(b: u8) -> Option<Piece> {
    let l = lower_byte(b);
    let color = if 65 <= b <= 90 {
        Color::White
    } else {
        Color::Black
    };
    if l == 107 {
        Some(Piece { kind: PieceType::King, color, move_count: 0 })
    } else if l == 113 {
        Some(Piece { kind: PieceType::Queen, color, move_count: 0 })
    } else if l == 98 {
        Some(Piece { kind: PieceType::Bishop, color, move_count: 0 })
    } else if l == 110 {
        Some(Piece { kind: PieceType::Knight, color, move_count: 0 })
    } else if l == 114 {
        Some(Piece { kind: PieceType::Rook, color, move_count: 0 })
    } else if l == 112 {
        Some(Piece { kind: PieceType::Pawn, color, move_count: 0 })
    } else {
        None
    }
}

/// The cursor of the placement decoder: the rank and file it stands on
/// and the squares filled so far.
pub ghost struct PlacementState {
    pub row: int,
    pub col: int,
    pub squares: Seq<Option<Piece>>,
}

/// One character of the placement section: a digit skips squares, `/`
/// closes the rank, and a letter places a piece.
pub open spec fn placement_step(st: PlacementState, b: u8) -> Result<PlacementState, FenError> {
    if 48 <= b <= 57 {
        let c2 = st.col + (b - 48);
        if c2 > 8 {
            Err(FenError::IncorrectCols(st.row as i8, c2 as i8))
        } else {
            Ok(PlacementState { row: st.row, col: c2, squares: st.squares })
        }
    } else if b == 47 {
        if st.col != 8 {
            Err(FenError::IncorrectCols(st.row as i8, st.col as i8))
        } else if st.row == 0 {
            Err(FenError::IncorrectRows(-1i8))
        } else {
            Ok(PlacementState { row: st.row - 1, col: 0, squares: st.squares })
        }
    } else {
        if st.col >= 8 {
            Err(FenError::IncorrectCols(st.row as i8, st.col as i8))
        } else {
            match piece_of_byte(b) {
                Some(p) => Ok(
                    PlacementState {
                        row: st.row,
                        col: st.col + 1,
                        squares: st.squares.update(8 * st.row + st.col, Some(p)),
                    },
                ),
                None => Err(FenError::InvalidPiece(b as char)),
            }
        }
    }
}

/// Run the placement decoder over the section from index `i` on.
pub open spec fn placement_run(s: Seq<char>, i: int, st: PlacementState) -> Result<
    PlacementState,
    FenError,
>
    decreases s.len() - i,
{
    if i < 0 || i >= s.len() {
        Ok(st)
    } else {
        match placement_step(st, s[i] as u8) {
            Ok(st2) => placement_run(s, i + 1, st2),
            Err(e) => Err(e),
        }
    }
}

/// The squares a placement section decodes to: ranks from the top down,
/// ending on the first rank, every piece fresh.
pub open spec fn decode_placement(s: Seq<char>) -> Result<Seq<Option<Piece>>, FenError> {
    match placement_run(
        s,
        0,
        PlacementState { row: 7, col: 0, squares: Seq::new(64, |i: int| None::<Piece>) },
    ) {
        Ok(st) => if st.row != 0 {
            Err(FenError::IncorrectRows(st.row as i8))
        } else {
            Ok(st.squares)
        },
        Err(e) => Err(e),
    }
}

/// Set the move count of the rook on the given corner, when a rook of
/// the color stands there.
pub open spec fn spec_set_rook(
    sq: Seq<Option<Piece>>,
    row: int,
    col: int,
    color: Color,
    count: i32,
) -> Seq<Option<Piece>> {
    let i = 8 * row + col;
    match sq[i] {
        Some(p) => if p.kind == PieceType::Rook && p.color == color {
            sq.update(i, Some(Piece { kind: p.kind, color: p.color, move_count: count }))
        } else {
            sq
        },
        None => sq,
    }
}

/// Mark every corner rook as moved: the default before the castling
/// section re-enables the flagged ones.
pub open spec fn castling_defaults(sq: Seq<Option<Piece>>) -> Seq<Option<Piece>> {
    spec_set_rook(
        spec_set_rook(
            spec_set_rook(spec_set_rook(sq, 0, 0, Color::White, 1), 0, 7, Color::White, 1),
            7,
            0,
            Color::Black,
            1,
        ),
        7,
        7,
        Color::Black,
        1,
    )
}

/// The castling section is `-` or a string of the four flag letters.
pub open spec fn castling_token_ok(s: Seq<char>) -> bool {
    s == seq!['-'] || forall|i: int|
        0 <= i < s.len() ==> (#[trigger] s[i] == 'Q' || s[i] == 'K' || s[i] == 'q' || s[i] == 'k')
}

/// Re-enable the corner rook each flag letter names, from index `i` on.
pub open spec fn castling_enable_from(sq: Seq<Option<Piece>>, s: Seq<char>, i: int) -> Seq<
    Option<Piece>,
>
    decreases s.len() - i,
{
    if i < 0 || i >= s.len() {
        sq
    } else {
        let b = s[i] as u8;
        let sq2 = if b == 81 {
            spec_set_rook(sq, 0, 0, Color::White, 0)
        } else if b == 75 {
            spec_set_rook(sq, 0, 7, Color::White, 0)
        } else if b == 113 {
            spec_set_rook(sq, 7, 0, Color::Black, 0)
        } else if b == 107 {
            spec_set_rook(sq, 7, 7, Color::Black, 0)
        } else {
            sq
        };
        castling_enable_from(sq2, s, i + 1)
    }
}

/// The squares of a decoded position: the placement, the corner rooks
/// marked moved, and the flagged ones re-enabled.
pub open spec fn decoded_squares(placed: Seq<Option<Piece>>, castling: Seq<char>) -> Seq<
    Option<Piece>,
> {
    let defaults = castling_defaults(placed);
    if castling == seq!['-'] {
        defaults
    } else {
        castling_enable_from(defaults, castling, 0)
    }
}

/// The half-move-clock section parses into its counter.
pub open spec fn clock_token_ok(s: Seq<char>) -> bool {
    int_token(s) && -128 <= int_token_val(s) <= 127
}

/// The full-move-number section parses into its counter.
pub open spec fn move_number_token_ok(s: Seq<char>) -> bool {
    int_token(s) && -2147483648 <= int_token_val(s) <= 2147483647
}

/// Mark the rook on the given corner, when it matches the color, as
/// having moved `count` times: castling rights are encoded in the rook's
/// move count.
fn set_corner_rook(squares: &mut Vec<Option<Piece>>, row: i8, col: i8, color: Color, count: i32)
    requires
        old(squares)@.len() == 64,
        0 <= row < 8,
        0 <= col < 8,
        0 <= count,
    ensures
        final(squares)@.len() == 64,
        final(squares)@ == spec_set_rook(old(squares)@, row as int, col as int, color, count),
{
    let pos = Position::new(row, col);
    let idx = pos.pos();
    if let Some(piece) = squares[idx] {
        if piece.kind == PieceType::Rook && piece.color == color {
            squares[idx] = Some(Piece { kind: piece.kind, color: piece.color, move_count: count });
        }
    }
}

impl Board {
    /// Create a new board from a FEN string. The six sections decode the
    /// piece placement, the side to move, the castling rights (kept as
    /// the corner rooks' move counts), the en-passant target, the
    /// half-move clock and the full-move number; each malformed part
    /// yields its own error.
    pub fn from_fen(fen: &str) -> (r: Result<Self, FenError>)
        ensures
            !fen.is_ascii() <==> r == Err::<Board, FenError>(FenError::NotAscii),
            fen.is_ascii() && ws_split(fen@).len() != 6 ==> r == Err::<Board, FenError>(
                FenError::IncorrectSections(ws_split(fen@).len() as usize),
            ),
            r matches Err(FenError::IncorrectSections(n)) ==> n == ws_split(fen@).len() && n != 6,
            fen.is_ascii() && ws_split(fen@).len() == 6 && !clock_token_ok(ws_split(fen@)[4])
                ==> (r matches Err(FenError::InvalidNumber(t)) && t@ == ws_split(fen@)[4]),
            fen.is_ascii() && ws_split(fen@).len() == 6 && clock_token_ok(ws_split(fen@)[4])
                && !move_number_token_ok(ws_split(fen@)[5]) ==> (r matches Err(
                FenError::InvalidNumber(t),
            ) && t@ == ws_split(fen@)[5]),
            fen.is_ascii() && ws_split(fen@).len() == 6 && clock_token_ok(ws_split(fen@)[4])
                && move_number_token_ok(ws_split(fen@)[5]) && decode_placement(
                ws_split(fen@)[0],
            ) is Err ==> r == Err::<Board, FenError>(
                decode_placement(ws_split(fen@)[0])->Err_0,
            ),
            r matches Err(FenError::IllegalCastling(t)) ==> t@ == ws_split(fen@)[2]
                && !castling_token_ok(t@),
            r matches Err(FenError::InvalidColor(t)) ==> t@ == ws_split(fen@)[1] && t@ != seq![
                'w',
            ] && t@ != seq!['b'],
            r matches Err(FenError::InvalidPosition(t)) ==> t@ == ws_split(fen@)[3]
                && !square_token_valid(t@) && t@ != seq!['-'],
            ({
                let toks = ws_split(fen@);
                fen.is_ascii() && toks.len() == 6 && clock_token_ok(toks[4])
                    && move_number_token_ok(toks[5]) && decode_placement(toks[0]) is Ok
                    && castling_token_ok(toks[2]) && (toks[1] == seq!['w'] || toks[1] == seq!['b'])
                    && (toks[3] == seq!['-'] || square_token_valid(toks[3]))
            }) ==> r is Ok,
            r matches Ok(b) ==> ({
                let toks = ws_split(fen@);
                &&& fen.is_ascii()
                &&& toks.len() == 6
                &&& b@.wf()
                &&& b@.squares.len() == 64
                &&& b@.captures.len() == 0
                &&& b@.moves.len() == 0
                &&& b@.half_move_clock == seq![int_token_val(toks[4]) as i8]
                &&& b@.num_moves == int_token_val(toks[5])
                &&& (toks[1] == seq!['w'] || toks[1] == seq!['b'])
                &&& b@.whose_turn == (if toks[1] == seq!['w'] {
                    Color::White
                } else {
                    Color::Black
                })
                &&& (toks[3] == seq!['-'] ==> b@.en_passant_target is None)
                &&& (toks[3] != seq!['-'] ==> square_token_valid(toks[3])
                    && b@.en_passant_target == Some(square_token_value(toks[3])))
                &&& decode_placement(toks[0]) is Ok
                &&& castling_token_ok(toks[2])
                &&& b@.squares == decoded_squares(decode_placement(toks[0])->Ok_0, toks[2])
            }),
    {
        if !fen.is_ascii() {
            return Err(FenError::NotAscii);
        }
        let sections = split_ws(fen);
        if sections.len() != 6 {
            return Err(FenError::IncorrectSections(sections.len()));
        }
        let (p_start, p_end) = sections[0];
        let (m_start, m_end) = sections[1];
        let (c_start, c_end) = sections[2];
        let (e_start, e_end) = sections[3];
        let (h_start, h_end) = sections[4];
        let (n_start, n_end) = sections[5];
        proof {
            assert(ws_split(fen@)[0] == fen@.subrange(p_start as int, p_end as int));
            assert(ws_split(fen@)[1] == fen@.subrange(m_start as int, m_end as int));
            assert(ws_split(fen@)[2] == fen@.subrange(c_start as int, c_end as int));
            assert(ws_split(fen@)[3] == fen@.subrange(e_start as int, e_end as int));
            assert(ws_split(fen@)[4] == fen@.subrange(h_start as int, h_end as int));
            assert(ws_split(fen@)[5] == fen@.subrange(n_start as int, n_end as int));
        }
        let ghost tok0 = fen@.subrange(p_start as int, p_end as int);
        let ghost tok2 = fen@.subrange(c_start as int, c_end as int);

        // Clock and move number, before the board itself.
        let half_move_clock: i8 = match parse_int_range(fen, h_start, h_end, -128, 127) {
            Some(v) => v as i8,
            None => {
                return Err(
                    FenError::InvalidNumber(String::from_str(fen.substring_ascii(h_start, h_end))),
                );
            },
        };
        let num_moves: i32 = match parse_int_range(
            fen,
            n_start,
            n_end,
            -2147483648,
            2147483647,
        ) {
            Some(v) => v as i32,
            None => {
                return Err(
                    FenError::InvalidNumber(String::from_str(fen.substring_ascii(n_start, n_end))),
                );
            },
        };

        // Piece positions: ranks from the top row down, `/` between
        // ranks, digits for runs of empty squares.
        let mut squares: Vec<Option<Piece>> = Vec::new();
        let mut k: usize = 0;
        while k < 64
            invariant
                k <= 64,
                squares@.len() == k,
                forall|j: int| 0 <= j < k ==> #[trigger] squares@[j] is None,
            decreases 64 - k,
        {
            squares.push(None);
            k = k + 1;
        }
        let ghost init_st = PlacementState {
            row: 7,
            col: 0,
            squares: Seq::new(64, |j: int| None::<Piece>),
        };
        proof {
            assert(squares@ =~= init_st.squares);
        }
        let mut row: i8 = 7;
        let mut col: i8 = 0;
        let mut i = p_start;
        while i < p_end
            invariant
                fen.is_ascii(),
                ws_split(fen@).len() == 6,
                ws_split(fen@)[0] == tok0,
                tok0 == fen@.subrange(p_start as int, p_end as int),
                clock_token_ok(ws_split(fen@)[4]),
                move_number_token_ok(ws_split(fen@)[5]),
                p_start <= i <= p_end <= fen@.len(),
                squares@.len() == 64,
                0 <= row <= 7,
                0 <= col <= 8,
                init_st == (PlacementState {
                    row: 7,
                    col: 0,
                    squares: Seq::new(64, |j: int| None::<Piece>),
                }),
                placement_run(
                    tok0,
                    i - p_start,
                    PlacementState { row: row as int, col: col as int, squares: squares@ },
                ) == placement_run(tok0, 0, init_st),
            decreases p_end - i,
        {
            let b = fen.get_ascii(i);
            proof {
                assert(tok0[i - p_start] == fen@[i as int]);
                assert(tok0[i - p_start] as u8 == b);
            }
            let ghost st = PlacementState {
                row: row as int,
                col: col as int,
                squares: squares@,
            };
            if 48 <= b && b <= 57 {
                // A digit: that many empty squares.
                col = col + ((b - 48) as i8);
                if col > 8 {
                    proof {
                        assert(placement_step(st, b) == Err::<PlacementState, FenError>(
                            FenError::IncorrectCols(row, col),
                        ));
                    }
                    return Err(FenError::IncorrectCols(row, col));
                }
            } else if b == 47 {
                // '/': the row must be complete.
                if col != 8 {
                    proof {
                        assert(placement_step(st, b) == Err::<PlacementState, FenError>(
                            FenError::IncorrectCols(row, col),
                        ));
                    }
                    return Err(FenError::IncorrectCols(row, col));
                }
                row = row - 1;
                col = 0;
                // Too many rows.
                if row == -1 {
                    proof {
                        assert(placement_step(st, b) == Err::<PlacementState, FenError>(
                            FenError::IncorrectRows(-1i8),
                        ));
                    }
                    return Err(FenError::IncorrectRows(row));
                }
            } else {
                // A piece letter.
                if col >= 8 {
                    proof {
                        assert(placement_step(st, b) == Err::<PlacementState, FenError>(
                            FenError::IncorrectCols(row, col),
                        ));
                    }
                    return Err(FenError::IncorrectCols(row, col));
                }
                let color = if 65 <= b && b <= 90 {
                    Color::White
                } else {
                    Color::Black
                };
                let lower = if 65 <= b && b <= 90 {
                    b + 32
                } else {
                    b
                };
                let kind = if lower == 107 {
                    PieceType::King
                } else if lower == 113 {
                    PieceType::Queen
                } else if lower == 98 {
                    PieceType::Bishop
                } else if lower == 110 {
                    PieceType::Knight
                } else if lower == 114 {
                    PieceType::Rook
                } else if lower == 112 {
                    PieceType::Pawn
                } else {
                    proof {
                        assert(piece_of_byte(b) is None);
                        assert(placement_step(st, b) == Err::<PlacementState, FenError>(
                            FenError::InvalidPiece(b as char),
                        ));
                    }
                    return Err(FenError::InvalidPiece(b as char));
                };
                let pos = Position::new(row, col);
                let idx = pos.pos();
                squares[idx] = Some(Piece::new(kind, color));
                proof {
                    assert(piece_of_byte(b) == Some(
                        Piece { kind, color, move_count: 0 },
                    ));
                    assert(squares@ == st.squares.update(
                        8 * st.row + st.col,
                        Some(Piece { kind, color, move_count: 0 }),
                    ));
                }
                col = col + 1;
            }
            i = i + 1;
        }
        // Afterwards, we should have walked down to the first row.
        proof {
            assert(placement_run(tok0, p_end - p_start, PlacementState {
                row: row as int,
                col: col as int,
                squares: squares@,
            }) == Ok::<PlacementState, FenError>(PlacementState {
                row: row as int,
                col: col as int,
                squares: squares@,
            }));
        }
        if row != 0 {
            return Err(FenError::IncorrectRows(row));
        }
        let ghost placed = squares@;
        proof {
            assert(decode_placement(tok0) == Ok::<Seq<Option<Piece>>, FenError>(placed));
        }

        // Castling: disable the corner rooks by default, then re-enable
        // the flagged ones.
        set_corner_rook(&mut squares, 0, 0, Color::White, 1);
        set_corner_rook(&mut squares, 0, 7, Color::White, 1);
        set_corner_rook(&mut squares, 7, 0, Color::Black, 1);
        set_corner_rook(&mut squares, 7, 7, Color::Black, 1);
        proof {
            assert(squares@ == castling_defaults(placed));
        }
        let ghost defaults = squares@;
        let castling_none = c_end - c_start == 1 && fen.get_ascii(c_start) == 45;
        if castling_none {
            proof {
                assert(tok2 =~= seq!['-']);
            }
        } else {
            proof {
                assert(tok2 != seq!['-']) by {
                    if tok2.len() == 1 {
                        assert(tok2[0] == fen@[c_start as int]);
                    }
                }
            }
            let mut ci = c_start;
            while ci < c_end
                invariant
                    fen.is_ascii(),
                    ws_split(fen@).len() == 6,
                    ws_split(fen@)[0] == tok0,
                    ws_split(fen@)[2] == tok2,
                    tok2 == fen@.subrange(c_start as int, c_end as int),
                    tok2 != seq!['-'],
                    decode_placement(tok0) == Ok::<Seq<Option<Piece>>, FenError>(placed),
                    clock_token_ok(ws_split(fen@)[4]),
                    move_number_token_ok(ws_split(fen@)[5]),
                    c_start <= ci <= c_end <= fen@.len(),
                    squares@.len() == 64,
                    castling_enable_from(squares@, tok2, ci - c_start) == castling_enable_from(
                        defaults,
                        tok2,
                        0,
                    ),
                    forall|j: int| 0 <= j < ci - c_start ==> (#[trigger] tok2[j] == 'Q' || tok2[j]
                        == 'K' || tok2[j] == 'q' || tok2[j] == 'k'),
                decreases c_end - ci,
            {
                let b = fen.get_ascii(ci);
                proof {
                    assert(tok2[ci - c_start] == fen@[ci as int]);
                    assert(tok2[ci - c_start] as u8 == b);
                    assert(tok2[ci - c_start] <= '\u{7f}');
                }
                if b == 81 {
                    set_corner_rook(&mut squares, 0, 0, Color::White, 0);
                } else if b == 75 {
                    set_corner_rook(&mut squares, 0, 7, Color::White, 0);
                } else if b == 113 {
                    set_corner_rook(&mut squares, 7, 0, Color::Black, 0);
                } else if b == 107 {
                    set_corner_rook(&mut squares, 7, 7, Color::Black, 0);
                } else {
                    proof {
                        assert(!castling_token_ok(tok2)) by {
                            assert(!(tok2[ci - c_start] == 'Q' || tok2[ci - c_start] == 'K'
                                || tok2[ci - c_start] == 'q' || tok2[ci - c_start] == 'k'));
                        }
                    }
                    return Err(
                        FenError::IllegalCastling(
                            String::from_str(fen.substring_ascii(c_start, c_end)),
                        ),
                    );
                }
                ci = ci + 1;
            }
            proof {
                assert(castling_token_ok(tok2));
                assert(castling_enable_from(squares@, tok2, c_end - c_start) == squares@);
            }
        }
        proof {
            assert(squares@ == decoded_squares(placed, tok2));
        }

        // Side to move and en-passant target.
        let whose_turn = match Color::from_fen(fen.substring_ascii(m_start, m_end)) {
            Ok(c) => c,
            Err(e) => {
                return Err(e);
            },
        };
        let en_passant_target = match Position::from_fen(fen.substring_ascii(e_start, e_end)) {
            Ok(p) => p,
            Err(e) => {
                return Err(e);
            },
        };

        Ok(Board::assemble(squares, whose_turn, half_move_clock, num_moves, en_passant_target))
    }
}

} // verus!
