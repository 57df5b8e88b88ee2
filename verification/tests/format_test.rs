use pigin::engine::execute_moves;
use pigin::format::{castling_availability, from_board, pieces, to_char};
use pigin::model::{AvailableCastle, Board, Piece, PieceColour, PieceType, Position};
use pigin::parse::{fen, movement};

#[test]
fn returns_dash_if_no_castles_available() {
    assert_eq!(castling_availability(&[]), "-".to_string())
}

#[test]
fn returns_formatted_castles() {
    let castles = &[
        AvailableCastle::WhiteQueenside,
        AvailableCastle::BlackKingside,
    ];
    assert_eq!(castling_availability(castles), "Qk".to_string())
}

#[test]
fn constucts_fen_string_from_board_positions() {
    let mut builder = Board::builder();
    builder.piece(
        Piece::new(PieceColour::Black, PieceType::Bishop),
        Position::new(7, 5),
    );
    builder.piece(
        Piece::new(PieceColour::White, PieceType::King),
        Position::new(3, 3),
    );

    let board = builder.build();
    assert_eq!(pieces(&board), "5b2/8/8/8/3K4/8/8/8".to_string())
}

#[test]
fn writes_a_letter_for_each_piece() {
    let kinds = [
        (PieceType::Pawn, 'p'),
        (PieceType::Knight, 'n'),
        (PieceType::Bishop, 'b'),
        (PieceType::Rook, 'r'),
        (PieceType::Queen, 'q'),
        (PieceType::King, 'k'),
    ];
    for (kind, letter) in kinds {
        assert_eq!(to_char(&Piece::new(PieceColour::Black, kind)), letter);
        assert_eq!(
            to_char(&Piece::new(PieceColour::White, kind)),
            letter.to_ascii_uppercase()
        );
    }
}

#[test]
fn writes_the_record_that_was_read() {
    let records = [
        "rnbqkbnr/pppppppp/8/8/8/8/PPPPPPPP/RNBQKBNR w KQkq - 0 1",
        "r7/8/8/8/8/8/8/6K1 b Qk d4 12 5",
        "8/8/8/8/8/8/8/8 w - - 255 255",
        "1n1Rkb1r/p4ppp/4q3/4p1B1/4P3/8/PPP2PPP/2K5 b k - 1 17",
        "rnbqkbnr/pp1ppppp/8/2p5/4P3/8/PPPP1PPP/RNBQKBNR w KQkq c6 0 2",
    ];
    for record in records {
        let parsed = fen::parse(record).unwrap();
        assert_eq!(from_board(parsed.starting_board()), record.to_string());
    }
}

#[test]
fn writes_the_board_after_a_game() {
    let start = fen::parse("rnbqkbnr/pppppppp/8/8/8/8/PPPPPPPP/RNBQKBNR w KQkq - 0 1").unwrap();
    let text: Vec<char> = "1.e4 e5 2.Nf3 d6 3.d4 Bg4 4.dxe5 Bxf3 5.Qxf3 dxe5 6.Bc4 Nf6 7.Qb3 Qe7 \
8.Nc3 c6 9.Bg5 b5 10.Nxb5 cxb5 11.Bxb5+ Nbd7 12.O-O-O Rd8 13.Rxd7 Rxd7 14.Rd1 Qe6 \
15.Bxd7+ Nxd7 16.Qb8+ Nxb8 17.Rd8# 1-0"
        .chars()
        .collect();
    let (plies, _) = movement::parse(&text, 0).unwrap();
    let boards = execute_moves(start.starting_board(), &plies).unwrap();
    assert_eq!(
        from_board(&boards[1]),
        "rnbqkbnr/pppppppp/8/8/4P3/8/PPPP1PPP/RNBQKBNR b KQkq e3 0 1"
    );
    assert_eq!(
        from_board(&boards[33]),
        "1n1Rkb1r/p4ppp/4q3/4p1B1/4P3/8/PPP2PPP/2K5 b k - 1 17"
    );
}

#[test]
fn writes_large_clocks() {
    let mut builder = Board::builder();
    builder.halfmove_clock(1234567).fullmove_clock(usize::MAX);
    let board = builder.build();
    assert_eq!(
        from_board(&board),
        format!("8/8/8/8/8/8/8/8 w - - 1234567 {}", usize::MAX)
    );
}
