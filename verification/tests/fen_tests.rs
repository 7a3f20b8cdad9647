//! Decoding positions from FEN: the happy path, each error kind, and
//! the castling-rights encoding.

use chess_core::{Board, Color, FenError, Position};

#[test]
fn start_fen_matches_from_start() {
    let parsed = Board::from_fen("rnbqkbnr/pppppppp/8/8/8/8/PPPPPPPP/RNBQKBNR w KQkq - 0 1")
        .expect("the standard start is well formed");
    let built = Board::from_start();
    for row in 0..8 {
        for col in 0..8 {
            let p = Position::new(row, col);
            assert_eq!(
                parsed.at_position(p).map(|x| (x.kind, x.color)),
                built.at_position(p).map(|x| (x.kind, x.color)),
                "squares differ at row {row} col {col}"
            );
        }
    }
    assert_eq!(parsed.whose_turn(), Color::White);
    assert!(parsed.get_prev_turn().is_none());
    assert!(!parsed.is_50_move_rule());
}

#[test]
fn parsed_start_counts_twenty_moves() {
    let mut board = Board::from_fen("rnbqkbnr/pppppppp/8/8/8/8/PPPPPPPP/RNBQKBNR w KQkq - 0 1")
        .expect("the standard start is well formed");
    assert_eq!(board.get_moves().len(), 20);
}

#[test]
fn side_to_move_is_read() {
    let board = Board::from_fen("rnbqkbnr/pppppppp/8/8/8/8/PPPPPPPP/RNBQKBNR b KQkq - 0 1")
        .expect("the notation is well formed");
    assert_eq!(board.whose_turn(), Color::Black);
}

#[test]
fn non_ascii_is_rejected() {
    assert!(matches!(Board::from_fen("é"), Err(FenError::NotAscii)));
}

#[test]
fn wrong_section_count_is_rejected() {
    assert!(matches!(
        Board::from_fen("rnbqkbnr/pppppppp/8/8/8/8/PPPPPPPP/RNBQKBNR w KQkq -"),
        Err(FenError::IncorrectSections(4))
    ));
    assert!(matches!(Board::from_fen(""), Err(FenError::IncorrectSections(0))));
}

#[test]
fn bad_piece_letter_is_rejected() {
    assert!(matches!(
        Board::from_fen("rnbqxbnr/pppppppp/8/8/8/8/PPPPPPPP/RNBQKBNR w KQkq - 0 1"),
        Err(FenError::InvalidPiece('x'))
    ));
}

#[test]
fn too_many_columns_is_rejected() {
    assert!(matches!(
        Board::from_fen("rnbqkbnrr/pppppppp/8/8/8/8/PPPPPPPP/RNBQKBNR w KQkq - 0 1"),
        Err(FenError::IncorrectCols(_, _))
    ));
    assert!(matches!(
        Board::from_fen("9/pppppppp/8/8/8/8/PPPPPPPP/RNBQKBNR w KQkq - 0 1"),
        Err(FenError::IncorrectCols(_, _))
    ));
}

#[test]
fn wrong_row_count_is_rejected() {
    assert!(matches!(
        Board::from_fen("8/8/8/8/8/8/8/8/8 w - - 0 1"),
        Err(FenError::IncorrectRows(_))
    ));
    assert!(matches!(
        Board::from_fen("8/8/8/8/8/8/8 w - - 0 1"),
        Err(FenError::IncorrectRows(_))
    ));
}

#[test]
fn bad_color_token_is_rejected() {
    let r = Board::from_fen("rnbqkbnr/pppppppp/8/8/8/8/PPPPPPPP/RNBQKBNR x KQkq - 0 1");
    match r {
        Err(FenError::InvalidColor(s)) => assert_eq!(s, "x"),
        other => panic!("expected an invalid-color error, got {other:?}"),
    }
}

#[test]
fn bad_castling_token_is_rejected() {
    let r = Board::from_fen("rnbqkbnr/pppppppp/8/8/8/8/PPPPPPPP/RNBQKBNR w KQxq - 0 1");
    match r {
        Err(FenError::IllegalCastling(s)) => assert_eq!(s, "KQxq"),
        other => panic!("expected an illegal-castling error, got {other:?}"),
    }
}

#[test]
fn bad_en_passant_square_is_rejected() {
    assert!(matches!(
        Board::from_fen("rnbqkbnr/pppppppp/8/8/8/8/PPPPPPPP/RNBQKBNR w KQkq e9 0 1"),
        Err(FenError::InvalidPosition(_))
    ));
    assert!(matches!(
        Board::from_fen("rnbqkbnr/pppppppp/8/8/8/8/PPPPPPPP/RNBQKBNR w KQkq zz 0 1"),
        Err(FenError::InvalidPosition(_))
    ));
}

#[test]
fn non_numeric_counters_are_rejected() {
    let r = Board::from_fen("rnbqkbnr/pppppppp/8/8/8/8/PPPPPPPP/RNBQKBNR w KQkq - x 1");
    match r {
        Err(FenError::InvalidNumber(s)) => assert_eq!(s, "x"),
        other => panic!("expected an invalid-number error, got {other:?}"),
    }
    assert!(matches!(
        Board::from_fen("rnbqkbnr/pppppppp/8/8/8/8/PPPPPPPP/RNBQKBNR w KQkq - 0 nine"),
        Err(FenError::InvalidNumber(_))
    ));
    // A clock too large for its counter is a number error too.
    assert!(matches!(
        Board::from_fen("rnbqkbnr/pppppppp/8/8/8/8/PPPPPPPP/RNBQKBNR w KQkq - 300 1"),
        Err(FenError::InvalidNumber(_))
    ));
}

#[test]
fn clock_value_is_read() {
    let board = Board::from_fen("rnbqkbnr/pppppppp/8/8/8/8/PPPPPPPP/RNBQKBNR w KQkq - 100 3")
        .expect("the notation is well formed");
    assert!(board.is_50_move_rule());
    let board = Board::from_fen("rnbqkbnr/pppppppp/8/8/8/8/PPPPPPPP/RNBQKBNR w KQkq - 99 3")
        .expect("the notation is well formed");
    assert!(!board.is_50_move_rule());
}

#[test]
fn castling_rights_are_encoded_in_rook_move_counts() {
    // With only king-side rights, the queen-side rooks count as moved.
    let board = Board::from_fen("r3k2r/8/8/8/8/8/8/R3K2R w Kk - 0 1")
        .expect("the notation is well formed");
    assert_eq!(
        board.at_position(Position::new(0, 7)).map(|p| p.move_count),
        Some(0)
    );
    assert_eq!(
        board.at_position(Position::new(0, 0)).map(|p| p.move_count),
        Some(1)
    );
    assert_eq!(
        board.at_position(Position::new(7, 7)).map(|p| p.move_count),
        Some(0)
    );
    assert_eq!(
        board.at_position(Position::new(7, 0)).map(|p| p.move_count),
        Some(1)
    );
}

#[test]
fn color_from_fen_reads_the_two_tokens() {
    assert_eq!(Color::from_fen("w").expect("a side token"), Color::White);
    assert_eq!(Color::from_fen("b").expect("a side token"), Color::Black);
    match Color::from_fen("white") {
        Err(FenError::InvalidColor(s)) => assert_eq!(s, "white"),
        other => panic!("expected an invalid-color error, got {other:?}"),
    }
}

#[test]
fn position_from_fen_reads_squares() {
    assert_eq!(
        Position::from_fen("-").expect("no target"),
        None
    );
    assert_eq!(
        Position::from_fen("e3").expect("a square"),
        Some(Position::new(2, 4))
    );
    assert_eq!(
        Position::from_fen("A1").expect("a square, case folded"),
        Some(Position::new(0, 0))
    );
    assert_eq!(
        Position::from_fen("h8").expect("a square"),
        Some(Position::new(7, 7))
    );
    assert!(matches!(Position::from_fen("i1"), Err(FenError::InvalidPosition(_))));
    assert!(matches!(Position::from_fen("a9"), Err(FenError::InvalidPosition(_))));
    assert!(matches!(Position::from_fen("a12"), Err(FenError::InvalidPosition(_))));
}

#[test]
fn en_passant_section_parses() {
    let board = Board::from_fen("rnbqkbnr/pppppppp/8/8/4P3/8/PPPP1PPP/RNBQKBNR b KQkq e3 0 1");
    assert!(board.is_ok());
}
