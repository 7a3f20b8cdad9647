//! Move generation: perft counts, attack detection, en passant,
//! castling, promotion choices, and terminal-state classification.

use chess_core::{Board, Color, DrawReason, GameState, PieceType, Position, Turn, WinReason};

/// Count the legal move sequences of the given depth.
fn perft(board: &mut Board, depth: u32) -> u64 {
    if depth == 0 {
        return 1;
    }
    let moves = board.get_moves();
    let mut count = 0;
    for t in moves {
        board.make_turn(t);
        count += perft(board, depth - 1);
        board.undo_turn().expect("there is a turn to undo");
    }
    count
}

#[test]
fn perft_depth_1_is_20() {
    let mut board = Board::from_start();
    assert_eq!(perft(&mut board, 1), 20);
}

#[test]
fn perft_depth_2_is_400() {
    let mut board = Board::from_start();
    assert_eq!(perft(&mut board, 2), 400);
}

#[test]
fn perft_depth_3_is_8902() {
    let mut board = Board::from_start();
    assert_eq!(perft(&mut board, 3), 8902);
}

#[test]
fn perft_depth_4_is_197281() {
    let mut board = Board::from_start();
    assert_eq!(perft(&mut board, 4), 197281);
}

#[test]
fn generator_moves_leave_own_king_safe() {
    // After any legal reply sequence of two plies, the mover's king was
    // never left attacked: probe by replaying and asking directly.
    let mut board = Board::from_start();
    let moves = board.get_moves();
    for t in moves {
        let mover = board.whose_turn();
        board.make_turn(t);
        assert!(!board.are_pieces_attacking(
            find_king(&board, mover),
            mover.opposite()
        ));
        board.undo_turn().expect("there is a turn to undo");
    }
}

fn find_king(board: &Board, color: Color) -> Position {
    for row in 0..8 {
        for col in 0..8 {
            let pos = Position::new(row, col);
            if let Some(p) = board.at_position(pos) {
                if p.kind == PieceType::King && p.color == color {
                    return pos;
                }
            }
        }
    }
    panic!("no king of that color");
}

#[test]
fn en_passant_after_e4_e6_e5_d5() {
    let mut board = Board::from_start();
    // 1. e4 e6 2. e5 d5
    board.make_turn(Turn::new_basic(PieceType::Pawn, Position::new(1, 4), Position::new(3, 4)));
    board.make_turn(Turn::new_basic(PieceType::Pawn, Position::new(6, 4), Position::new(5, 4)));
    board.make_turn(Turn::new_basic(PieceType::Pawn, Position::new(3, 4), Position::new(4, 4)));
    board.make_turn(Turn::new_basic(PieceType::Pawn, Position::new(6, 3), Position::new(4, 3)));
    // The pawn on e5 has exactly one legal capture: onto d6, removing
    // the pawn on d5 - not the piece on d6.
    let moves = board.get_piece_moves(Position::new(4, 4));
    assert_eq!(moves.len(), 1);
    let ep = moves[0];
    assert_eq!(ep.to, Position::new(5, 3));
    assert_eq!(ep.capture, Some(Position::new(4, 3)));
    board.make_turn(ep);
    assert!(board.at_position(Position::new(4, 3)).is_none());
    let pawn = board
        .at_position(Position::new(5, 3))
        .expect("the capturing pawn stands on d6");
    assert_eq!(pawn.color, Color::White);
    assert_eq!(pawn.kind, PieceType::Pawn);
}

#[test]
fn en_passant_round_trips() {
    let mut board = Board::from_start();
    board.make_turn(Turn::new_basic(PieceType::Pawn, Position::new(1, 4), Position::new(3, 4)));
    board.make_turn(Turn::new_basic(PieceType::Pawn, Position::new(6, 4), Position::new(5, 4)));
    board.make_turn(Turn::new_basic(PieceType::Pawn, Position::new(3, 4), Position::new(4, 4)));
    board.make_turn(Turn::new_basic(PieceType::Pawn, Position::new(6, 3), Position::new(4, 3)));
    let moves = board.get_piece_moves(Position::new(4, 4));
    assert_eq!(moves.len(), 1);
    board.make_turn(moves[0]);
    board.undo_turn().expect("there is a turn to undo");
    // The captured pawn is back and the capture is offered again.
    let back = board
        .at_position(Position::new(4, 3))
        .expect("the captured pawn is restored");
    assert_eq!(back.color, Color::Black);
    let again = board.get_piece_moves(Position::new(4, 4));
    assert_eq!(again.len(), 1);
    assert_eq!(again[0].capture, Some(Position::new(4, 3)));
}

#[test]
fn castling_both_sides_with_cleared_squares() {
    // The standard position with the f,g and b,c,d squares cleared;
    // neither the king nor the rooks have moved.
    let board = Board::from_fen("r3k2r/pppppppp/8/8/8/8/PPPPPPPP/R3K2R w KQkq - 0 1");
    let mut board = board.expect("the notation is well formed");
    let moves = board.get_piece_moves(Position::new(0, 4));
    let king_side = moves
        .iter()
        .find(|t| t.to == Position::new(0, 6))
        .expect("king-side castling is offered");
    assert_eq!(
        king_side.additional_move,
        Some((Position::new(0, 7), Position::new(0, 5)))
    );
    let queen_side = moves
        .iter()
        .find(|t| t.to == Position::new(0, 2))
        .expect("queen-side castling is offered");
    assert_eq!(
        queen_side.additional_move,
        Some((Position::new(0, 0), Position::new(0, 3)))
    );
    // Executing the king-side castle relocates the rook in the same turn.
    board.make_turn(*king_side);
    assert_eq!(
        board.at_position(Position::new(0, 6)).map(|p| p.kind),
        Some(PieceType::King)
    );
    assert_eq!(
        board.at_position(Position::new(0, 5)).map(|p| p.kind),
        Some(PieceType::Rook)
    );
    assert!(board.at_position(Position::new(0, 4)).is_none());
    assert!(board.at_position(Position::new(0, 7)).is_none());
}

#[test]
fn no_castling_without_the_rights() {
    let board = Board::from_fen("r3k2r/pppppppp/8/8/8/8/PPPPPPPP/R3K2R w - - 0 1");
    let mut board = board.expect("the notation is well formed");
    let moves = board.get_piece_moves(Position::new(0, 4));
    assert!(moves.iter().all(|t| t.additional_move.is_none()));
}

#[test]
fn no_castling_after_the_king_has_moved() {
    let board = Board::from_fen("r3k2r/8/8/8/8/8/8/R3K2R w KQkq - 0 1");
    let mut board = board.expect("the notation is well formed");
    // The white king steps aside and back; its move count is now 2, so
    // neither castle may be offered although the rooks never moved.
    board.make_turn(Turn::new_basic(PieceType::King, Position::new(0, 4), Position::new(0, 3)));
    board.make_turn(Turn::new_basic(PieceType::King, Position::new(7, 4), Position::new(7, 3)));
    board.make_turn(Turn::new_basic(PieceType::King, Position::new(0, 3), Position::new(0, 4)));
    board.make_turn(Turn::new_basic(PieceType::King, Position::new(7, 3), Position::new(7, 4)));
    let moves = board.get_piece_moves(Position::new(0, 4));
    assert!(moves.iter().all(|t| t.additional_move.is_none()));
}

#[test]
fn no_castling_through_an_attacked_square() {
    // A black rook on f8 attacks f1, the square the king passes over;
    // king-side castling must not be offered, queen-side still is.
    let board = Board::from_fen("5r2/8/8/8/8/8/8/R3K2R w KQ - 0 1");
    let mut board = board.expect("the notation is well formed");
    let moves = board.get_piece_moves(Position::new(0, 4));
    assert!(moves.iter().all(|t| t.to != Position::new(0, 6)));
    assert!(moves
        .iter()
        .any(|t| t.to == Position::new(0, 2) && t.additional_move.is_some()));
}

#[test]
fn promotion_offers_all_four_kinds() {
    let board = Board::from_fen("8/P6k/8/8/8/8/7K/8 w - - 0 1");
    let mut board = board.expect("the notation is well formed");
    let moves = board.get_piece_moves(Position::new(6, 0));
    let mut kinds: Vec<PieceType> = moves.iter().filter_map(|t| t.promote_to).collect();
    kinds.sort_by_key(|k| match k {
        PieceType::Queen => 0,
        PieceType::Rook => 1,
        PieceType::Bishop => 2,
        PieceType::Knight => 3,
        _ => 4,
    });
    assert_eq!(
        kinds,
        vec![
            PieceType::Queen,
            PieceType::Rook,
            PieceType::Bishop,
            PieceType::Knight
        ]
    );
}

#[test]
fn attack_detection_from_the_start() {
    let board = Board::from_start();
    // The knight on b1 attacks a3 and c3.
    assert!(board.are_pieces_attacking(Position::new(2, 0), Color::White));
    assert!(board.are_pieces_attacking(Position::new(2, 2), Color::White));
    // Nothing attacks e5 yet.
    assert!(!board.are_pieces_attacking(Position::new(4, 4), Color::White));
    // Black pieces attack h6 (the knight on g8).
    assert!(board.are_pieces_attacking(Position::new(5, 7), Color::Black));
}

#[test]
fn could_move_to_geometry() {
    let board = Board::from_fen("8/8/8/8/8/8/8/8 w - - 0 1").expect("an empty board");
    let rook = chess_core::Piece::new(PieceType::Rook, Color::White);
    assert!(rook.could_move_to(Position::new(0, 0), Position::new(0, 5), &board));
    assert!(rook.could_move_to(Position::new(0, 0), Position::new(6, 0), &board));
    assert!(!rook.could_move_to(Position::new(0, 0), Position::new(1, 2), &board));
    let bishop = chess_core::Piece::new(PieceType::Bishop, Color::White);
    assert!(bishop.could_move_to(Position::new(2, 2), Position::new(5, 5), &board));
    assert!(bishop.could_move_to(Position::new(2, 2), Position::new(0, 4), &board));
    assert!(!bishop.could_move_to(Position::new(2, 2), Position::new(2, 4), &board));
    let knight = chess_core::Piece::new(PieceType::Knight, Color::White);
    assert!(knight.could_move_to(Position::new(3, 3), Position::new(5, 4), &board));
    assert!(knight.could_move_to(Position::new(3, 3), Position::new(1, 2), &board));
    assert!(!knight.could_move_to(Position::new(3, 3), Position::new(5, 5), &board));
    let king = chess_core::Piece::new(PieceType::King, Color::White);
    assert!(king.could_move_to(Position::new(3, 3), Position::new(4, 4), &board));
    assert!(!king.could_move_to(Position::new(3, 3), Position::new(5, 3), &board));
    assert!(!king.could_move_to(Position::new(3, 3), Position::new(3, 3), &board));
}

#[test]
fn pawn_could_move_forward_and_capture() {
    let mut board = Board::from_start();
    let pawn = board
        .at_position(Position::new(1, 4))
        .expect("the e2 pawn is there");
    // One or two squares forward from the home-adjacent rank.
    assert!(pawn.could_move_to(Position::new(1, 4), Position::new(2, 4), &board));
    assert!(pawn.could_move_to(Position::new(1, 4), Position::new(3, 4), &board));
    assert!(!pawn.could_move_to(Position::new(1, 4), Position::new(4, 4), &board));
    // Not backwards, not diagonally onto an empty square.
    assert!(!pawn.could_move_to(Position::new(1, 4), Position::new(0, 4), &board));
    assert!(!pawn.could_move_to(Position::new(1, 4), Position::new(2, 5), &board));
    // Diagonally onto an enemy piece after 1. e4 d5.
    board.make_turn(Turn::new_basic(PieceType::Pawn, Position::new(1, 4), Position::new(3, 4)));
    board.make_turn(Turn::new_basic(PieceType::Pawn, Position::new(6, 3), Position::new(4, 3)));
    let pawn = board
        .at_position(Position::new(3, 4))
        .expect("the e4 pawn is there");
    assert!(pawn.could_move_to(Position::new(3, 4), Position::new(4, 3), &board));
    assert!(!pawn.could_move_to(Position::new(3, 4), Position::new(4, 5), &board));
}

#[test]
fn fools_mate_is_checkmate() {
    let mut board = Board::from_start();
    // 1. f3 e5 2. g4 Qh4#
    board.make_turn(Turn::new_basic(PieceType::Pawn, Position::new(1, 5), Position::new(2, 5)));
    board.make_turn(Turn::new_basic(PieceType::Pawn, Position::new(6, 4), Position::new(4, 4)));
    board.make_turn(Turn::new_basic(PieceType::Pawn, Position::new(1, 6), Position::new(3, 6)));
    board.make_turn(Turn::new_basic(PieceType::Queen, Position::new(7, 3), Position::new(3, 7)));
    assert!(board.is_check());
    assert!(board.is_checkmate());
    assert!(!board.is_stalemate());
    assert!(!board.is_draw());
    assert!(board.is_game_over());
    assert!(board.get_moves().is_empty());
    assert_eq!(
        board.get_game_state(),
        GameState::Win(Color::Black, WinReason::Checkmate)
    );
}

#[test]
fn bare_kings_with_a_cornered_king_is_stalemate() {
    let board = Board::from_fen("k7/8/1Q6/8/8/8/8/7K b - - 0 1");
    let mut board = board.expect("the notation is well formed");
    assert!(!board.is_check());
    assert!(board.is_stalemate());
    assert!(!board.is_checkmate());
    assert!(board.is_draw());
    assert!(board.is_game_over());
    assert_eq!(board.get_game_state(), GameState::Draw(DrawReason::Stalemate));
}

#[test]
fn ordinary_position_is_still_playing() {
    let mut board = Board::from_start();
    assert!(!board.is_check());
    assert!(!board.is_checkmate());
    assert!(!board.is_stalemate());
    assert!(!board.is_draw());
    assert!(!board.is_game_over());
    assert_eq!(board.get_game_state(), GameState::Playing);
}

#[test]
fn fifty_move_clock_at_limit_classifies_as_draw() {
    let board = Board::from_fen("rnbqkbnr/pppppppp/8/8/8/8/PPPPPPPP/RNBQKBNR w KQkq - 100 1");
    let mut board = board.expect("the notation is well formed");
    assert!(board.is_draw());
    assert!(board.is_game_over());
    assert_eq!(
        board.get_game_state(),
        GameState::Draw(DrawReason::FiftyMoveRule)
    );
}

#[test]
fn blocked_position_has_no_sliding_moves() {
    let mut board = Board::from_start();
    // The rooks, bishops and the queen are boxed in at the start.
    assert!(board.get_piece_moves(Position::new(0, 0)).is_empty());
    assert!(board.get_piece_moves(Position::new(0, 2)).is_empty());
    assert!(board.get_piece_moves(Position::new(0, 3)).is_empty());
    // Each knight has two moves.
    assert_eq!(board.get_piece_moves(Position::new(0, 1)).len(), 2);
    assert_eq!(board.get_piece_moves(Position::new(0, 6)).len(), 2);
    // Each pawn has two.
    assert_eq!(board.get_piece_moves(Position::new(1, 0)).len(), 2);
}

#[test]
fn pinned_piece_may_not_expose_the_king() {
    // A white knight on e4 is pinned against the king on e1 by the rook
    // on e8: every knight move would leave the king attacked.
    let board = Board::from_fen("4r2k/8/8/8/4N3/8/8/4K3 w - - 0 1");
    let mut board = board.expect("the notation is well formed");
    assert!(board.get_piece_moves(Position::new(3, 4)).is_empty());
}
