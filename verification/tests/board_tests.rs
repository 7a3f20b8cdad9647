//! The board state machine: construction, queries, the make/undo
//! protocol and its exact-inverse guarantee, and the clock rules.

use chess_core::{Board, Color, Piece, PieceType, Position, Turn};

/// Everything a caller can observe about a board through its queries.
fn snapshot(board: &Board) -> (Vec<Option<Piece>>, Color, Option<Turn>) {
    let mut squares = Vec::new();
    for row in 0..8 {
        for col in 0..8 {
            squares.push(board.at_position(Position::new(row, col)));
        }
    }
    (squares, board.whose_turn(), board.get_prev_turn())
}

fn piece_at(board: &Board, row: i8, col: i8) -> Piece {
    board
        .at_position(Position::new(row, col))
        .expect("expected a piece on the square")
}

#[test]
fn start_position_layout() {
    let board = Board::from_start();
    assert_eq!(piece_at(&board, 0, 0).kind, PieceType::Rook);
    assert_eq!(piece_at(&board, 0, 1).kind, PieceType::Knight);
    assert_eq!(piece_at(&board, 0, 2).kind, PieceType::Bishop);
    assert_eq!(piece_at(&board, 0, 3).kind, PieceType::Queen);
    assert_eq!(piece_at(&board, 0, 4).kind, PieceType::King);
    assert_eq!(piece_at(&board, 0, 5).kind, PieceType::Bishop);
    assert_eq!(piece_at(&board, 0, 6).kind, PieceType::Knight);
    assert_eq!(piece_at(&board, 0, 7).kind, PieceType::Rook);
    for col in 0..8 {
        assert_eq!(piece_at(&board, 1, col).kind, PieceType::Pawn);
        assert_eq!(piece_at(&board, 1, col).color, Color::White);
        assert_eq!(piece_at(&board, 6, col).kind, PieceType::Pawn);
        assert_eq!(piece_at(&board, 6, col).color, Color::Black);
        assert_eq!(piece_at(&board, 0, col).color, Color::White);
        assert_eq!(piece_at(&board, 7, col).color, Color::Black);
        assert_eq!(piece_at(&board, 0, col).move_count, 0);
    }
    for row in 2..6 {
        for col in 0..8 {
            assert!(board.at_position(Position::new(row, col)).is_none());
        }
    }
    assert_eq!(board.whose_turn(), Color::White);
    assert!(board.get_prev_turn().is_none());
    assert!(!board.is_50_move_rule());
}

#[test]
fn new_from_start_matches_from_start() {
    let a = Board::from_start();
    let b = Board::new_from_start();
    assert_eq!(snapshot(&a), snapshot(&b));
}

#[test]
fn make_turn_moves_the_piece() {
    let mut board = Board::from_start();
    let e2 = Position::new(1, 4);
    let e4 = Position::new(3, 4);
    board.make_turn(Turn::new_basic(PieceType::Pawn, e2, e4));
    assert!(board.at_position(e2).is_none());
    let pawn = board.at_position(e4).expect("pawn should be on e4");
    assert_eq!(pawn.kind, PieceType::Pawn);
    assert_eq!(pawn.color, Color::White);
    assert_eq!(pawn.move_count, 1);
    assert_eq!(board.whose_turn(), Color::Black);
    let prev = board.get_prev_turn().expect("one turn was made");
    assert_eq!(prev.from, e2);
    assert_eq!(prev.to, e4);
}

#[test]
fn undo_on_empty_history_is_none() {
    let mut board = Board::from_start();
    assert!(board.undo_turn().is_none());
}

#[test]
fn undo_returns_the_turn() {
    let mut board = Board::from_start();
    let t = Turn::new_basic(PieceType::Knight, Position::new(0, 1), Position::new(2, 2));
    board.make_turn(t);
    let undone = board.undo_turn().expect("there is a turn to undo");
    assert_eq!(undone, t);
    assert!(board.get_prev_turn().is_none());
}

#[test]
fn make_then_undo_restores_the_board() {
    let mut board = Board::from_start();
    let before = snapshot(&board);
    board.make_turn(Turn::new_basic(PieceType::Pawn, Position::new(1, 4), Position::new(3, 4)));
    board.undo_turn().expect("there is a turn to undo");
    assert_eq!(snapshot(&board), before);
}

#[test]
fn make_then_undo_restores_after_every_legal_opening_move() {
    let mut board = Board::from_start();
    let before = snapshot(&board);
    let moves = board.get_moves();
    assert!(!moves.is_empty());
    for t in moves {
        board.make_turn(t);
        board.undo_turn().expect("there is a turn to undo");
        assert_eq!(snapshot(&board), before);
    }
}

#[test]
fn undo_restores_a_capture() {
    let mut board = Board::from_start();
    // 1. e4 d5 2. exd5, then undo the capture.
    board.make_turn(Turn::new_basic(PieceType::Pawn, Position::new(1, 4), Position::new(3, 4)));
    board.make_turn(Turn::new_basic(PieceType::Pawn, Position::new(6, 3), Position::new(4, 3)));
    let before = snapshot(&board);
    board.make_turn(Turn::new_capture(PieceType::Pawn, Position::new(3, 4), Position::new(4, 3)));
    assert!(board.at_position(Position::new(3, 4)).is_none());
    assert_eq!(piece_at(&board, 4, 3).color, Color::White);
    board.undo_turn().expect("there is a turn to undo");
    assert_eq!(snapshot(&board), before);
}

#[test]
fn promotion_applies_and_undoes() {
    let board = Board::from_fen("8/P6k/8/8/8/8/7K/8 w - - 0 1");
    let mut board = board.expect("the notation is well formed");
    let before = snapshot(&board);
    let from = Position::new(6, 0);
    let to = Position::new(7, 0);
    board.make_turn(Turn::new_promotion(PieceType::Pawn, from, to, PieceType::Queen, false));
    let promoted = board.at_position(to).expect("the promoted piece stands on a8");
    assert_eq!(promoted.kind, PieceType::Queen);
    assert_eq!(promoted.color, Color::White);
    board.undo_turn().expect("there is a turn to undo");
    assert_eq!(snapshot(&board), before);
    assert_eq!(piece_at(&board, 6, 0).kind, PieceType::Pawn);
}

#[test]
fn fifty_move_rule_becomes_true_and_persists_until_reset() {
    let board = Board::from_fen("rnbqkbnr/pppppppp/8/8/8/8/PPPPPPPP/RNBQKBNR w KQkq - 99 1");
    let mut board = board.expect("the notation is well formed");
    assert!(!board.is_50_move_rule());
    // A quiet knight move reaches 100 half-moves.
    board.make_turn(Turn::new_basic(PieceType::Knight, Position::new(0, 1), Position::new(2, 2)));
    assert!(board.is_50_move_rule());
    // Another quiet move keeps the rule in force.
    board.make_turn(Turn::new_basic(PieceType::Knight, Position::new(7, 1), Position::new(5, 2)));
    assert!(board.is_50_move_rule());
    // A pawn move resets the clock.
    board.make_turn(Turn::new_basic(PieceType::Pawn, Position::new(1, 4), Position::new(2, 4)));
    assert!(!board.is_50_move_rule());
}

#[test]
fn fifty_move_rule_empties_the_move_list() {
    let board = Board::from_fen("rnbqkbnr/pppppppp/8/8/8/8/PPPPPPPP/RNBQKBNR w KQkq - 100 1");
    let mut board = board.expect("the notation is well formed");
    assert!(board.is_50_move_rule());
    assert!(board.get_moves().is_empty());
}

#[test]
fn stubbed_draw_rules_report_false() {
    let board = Board::from_start();
    assert!(!board.is_threefold_repetition());
    assert!(!board.is_insufficient_material());
}

#[test]
fn position_accessors() {
    let p = Position::new(2, 4);
    assert_eq!(p.row(), 2);
    assert_eq!(p.col(), 4);
    assert_eq!(p.rank(), 3);
    assert_eq!(p.file(), 'E');
    assert_eq!(p.pos(), 20);
    // A1 is a dark square.
    assert_eq!(Position::new(0, 0).color(), Color::Black);
    assert_eq!(Position::new(0, 1).color(), Color::White);
}

#[test]
fn position_offset_stays_on_the_board() {
    let p = Position::new(0, 0);
    assert_eq!(p.offset(1, 1), Some(Position::new(1, 1)));
    assert_eq!(p.offset(-1, 0), None);
    assert_eq!(p.offset(0, -1), None);
    assert_eq!(Position::new(7, 7).offset(1, 0), None);
    assert_eq!(Position::new(7, 7).offset(0, -3), Some(Position::new(7, 4)));
}

#[test]
fn color_accessors() {
    assert_eq!(Color::White.get_home(), 0);
    assert_eq!(Color::Black.get_home(), 7);
    assert_eq!(Color::White.get_direction(), 1);
    assert_eq!(Color::Black.get_direction(), -1);
    assert_eq!(Color::White.opposite(), Color::Black);
    assert_eq!(Color::Black.opposite(), Color::White);
}

#[test]
fn turn_constructors_fill_the_fields() {
    let a = Position::new(1, 4);
    let b = Position::new(3, 4);
    let c = Position::new(4, 3);

    let basic = Turn::new_basic(PieceType::Pawn, a, b);
    assert_eq!(basic.kind, PieceType::Pawn);
    assert_eq!(basic.from, a);
    assert_eq!(basic.to, b);
    assert!(basic.capture.is_none());
    assert!(basic.additional_move.is_none());
    assert!(basic.promote_to.is_none());
    assert!(basic.promote_from.is_none());

    let capture = Turn::new_capture(PieceType::Pawn, b, c);
    assert_eq!(capture.capture, Some(c));

    let complex = Turn::new_capture_complex(PieceType::Pawn, b, c, a);
    assert_eq!(complex.capture, Some(a));
    assert_eq!(complex.to, c);

    let additional = Turn::new_additional(PieceType::King, (a, b), (b, c));
    assert_eq!(additional.additional_move, Some((b, c)));

    let promo = Turn::new_promotion(PieceType::Pawn, a, b, PieceType::Queen, true);
    assert_eq!(promo.promote_to, Some(PieceType::Queen));
    assert_eq!(promo.promote_from, Some(PieceType::Pawn));
    assert_eq!(promo.capture, Some(b));

    let general = Turn::new(PieceType::Pawn, a, b, None, None, Some(PieceType::Rook));
    assert_eq!(general.promote_from, Some(PieceType::Pawn));
    let general2 = Turn::new(PieceType::Pawn, a, b, None, None, None);
    assert!(general2.promote_from.is_none());
}

#[test]
fn piece_new_starts_unmoved() {
    let p = Piece::new(PieceType::Bishop, Color::Black);
    assert_eq!(p.kind, PieceType::Bishop);
    assert_eq!(p.color, Color::Black);
    assert_eq!(p.move_count, 0);
}
