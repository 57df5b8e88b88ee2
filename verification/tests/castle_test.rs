use pigin::engine::castle::{kingside, queenside, remove_castling_for_colour};
use pigin::engine::{CastleSide, EngineError};
use pigin::model::{AvailableCastle, Board, Piece, PieceColour, PieceType, Position};

fn white_king_position() -> Position {
    Position::new(0, 4)
}

fn white_kings_rook_position() -> Position {
    Position::new(0, 7)
}

fn white_queens_rook_position() -> Position {
    Position::new(0, 0)
}

fn black_king_position() -> Position {
    Position::new(7, 4)
}

fn black_kings_rook_position() -> Position {
    Position::new(7, 7)
}

fn black_queens_rook_position() -> Position {
    Position::new(7, 0)
}

#[test]
fn castle_returns_err_if_castle_is_not_in_available_castles() {
    let mut board_builder = Board::builder();
    board_builder.available_castles(vec![
        AvailableCastle::WhiteKingside,
        AvailableCastle::BlackQueenside,
    ]);
    let board = board_builder.build();

    assert!(kingside(&board, PieceColour::Black).is_err());
    assert_eq!(
        kingside(&board, PieceColour::Black),
        Err(EngineError::IllegalCastle(
            PieceColour::Black,
            CastleSide::Kingside
        ))
    );

    let mut board_builder = Board::builder();
    board_builder.available_castles(vec![
        AvailableCastle::WhiteQueenside,
        AvailableCastle::BlackKingside,
    ]);
    let board = board_builder.build();

    assert!(queenside(&board, PieceColour::Black).is_err());
    assert_eq!(
        queenside(&board, PieceColour::Black),
        Err(EngineError::IllegalCastle(
            PieceColour::Black,
            CastleSide::Queenside
        ))
    );
}

#[test]
fn performs_kingside_castle_for_white() {
    let mut board_builder = Board::builder();
    board_builder
        .available_castles(vec![
            AvailableCastle::WhiteKingside,
            AvailableCastle::WhiteQueenside,
            AvailableCastle::BlackKingside,
        ])
        .piece(
            Piece::new(PieceColour::White, PieceType::King),
            white_king_position(),
        )
        .piece(
            Piece::new(PieceColour::White, PieceType::Rook),
            white_kings_rook_position(),
        );

    let board = board_builder.build();
    let new_board = kingside(&board, PieceColour::White).unwrap();

    assert!(new_board.occupant(white_king_position()).is_none());
    assert!(new_board.occupant(white_kings_rook_position()).is_none());
    assert_eq!(
        new_board.available_castles(),
        vec![AvailableCastle::BlackKingside]
    );
    assert_eq!(
        new_board.occupant(Position::new(0, 6)),
        Some(&Piece::new(PieceColour::White, PieceType::King))
    );
    assert_eq!(
        new_board.occupant(Position::new(0, 5)),
        Some(&Piece::new(PieceColour::White, PieceType::Rook))
    );
}

#[test]
fn castle_performs_kingside_castle_for_black() {
    let mut board_builder = Board::builder();
    board_builder
        .available_castles(vec![
            AvailableCastle::BlackKingside,
            AvailableCastle::BlackQueenside,
            AvailableCastle::WhiteKingside,
        ])
        .piece(
            Piece::new(PieceColour::Black, PieceType::King),
            black_king_position(),
        )
        .piece(
            Piece::new(PieceColour::Black, PieceType::Rook),
            black_kings_rook_position(),
        );

    let board = board_builder.build();
    let new_board = kingside(&board, PieceColour::Black).unwrap();

    assert!(new_board.occupant(black_king_position()).is_none());
    assert!(new_board.occupant(black_kings_rook_position()).is_none());
    assert_eq!(
        new_board.available_castles(),
        vec![AvailableCastle::WhiteKingside]
    );
    assert_eq!(
        new_board.occupant(Position::new(7, 6)),
        Some(&Piece::new(PieceColour::Black, PieceType::King))
    );
    assert_eq!(
        new_board.occupant(Position::new(7, 5)),
        Some(&Piece::new(PieceColour::Black, PieceType::Rook))
    );

    let mut board_builder = Board::builder();
    board_builder
        .available_castles(vec![
            AvailableCastle::BlackKingside,
            AvailableCastle::BlackQueenside,
            AvailableCastle::WhiteKingside,
        ])
        .piece(
            Piece::new(PieceColour::Black, PieceType::King),
            black_king_position(),
        )
        .piece(
            Piece::new(PieceColour::Black, PieceType::Rook),
            black_queens_rook_position(),
        );

    let board = board_builder.build();
    let new_board = queenside(&board, PieceColour::Black).unwrap();

    assert!(new_board.occupant(black_king_position()).is_none());
    assert!(new_board.occupant(black_kings_rook_position()).is_none());
    assert_eq!(
        new_board.available_castles(),
        vec![AvailableCastle::WhiteKingside]
    );
    assert_eq!(
        new_board.occupant(Position::new(7, 2)),
        Some(&Piece::new(PieceColour::Black, PieceType::King))
    );
    assert_eq!(
        new_board.occupant(Position::new(7, 3)),
        Some(&Piece::new(PieceColour::Black, PieceType::Rook))
    );
}

#[test]
fn performs_queenside_castle_for_white() {
    let mut board_builder = Board::builder();
    board_builder
        .available_castles(vec![
            AvailableCastle::WhiteKingside,
            AvailableCastle::WhiteQueenside,
            AvailableCastle::BlackKingside,
        ])
        .piece(
            Piece::new(PieceColour::White, PieceType::King),
            white_king_position(),
        )
        .piece(
            Piece::new(PieceColour::White, PieceType::Rook),
            white_queens_rook_position(),
        );

    let board = board_builder.build();
    let new_board = queenside(&board, PieceColour::White).unwrap();

    assert!(new_board.occupant(white_king_position()).is_none());
    assert!(new_board.occupant(white_kings_rook_position()).is_none());
    assert!(new_board.occupant(white_queens_rook_position()).is_none());
    assert_eq!(
        new_board.available_castles(),
        vec![AvailableCastle::BlackKingside]
    );
    assert_eq!(
        new_board.occupant(Position::new(0, 2)),
        Some(&Piece::new(PieceColour::White, PieceType::King))
    );
    assert_eq!(
        new_board.occupant(Position::new(0, 3)),
        Some(&Piece::new(PieceColour::White, PieceType::Rook))
    );
}

#[test]
fn removes_castling_for_colour() {
    let mut board_builder = Board::builder();
    board_builder.available_castles(vec![
        AvailableCastle::WhiteKingside,
        AvailableCastle::WhiteQueenside,
        AvailableCastle::BlackKingside,
    ]);
    let mut board = board_builder.build();

    remove_castling_for_colour(&mut board, PieceColour::White);
    assert_eq!(
        board.available_castles(),
        vec![AvailableCastle::BlackKingside]
    )
}

#[test]
fn castle_leaves_the_rest_of_the_board_alone() {
    let mut board_builder = Board::builder();
    board_builder
        .available_castles(vec![AvailableCastle::WhiteKingside])
        .piece(
            Piece::new(PieceColour::White, PieceType::King),
            white_king_position(),
        )
        .piece(
            Piece::new(PieceColour::White, PieceType::Rook),
            white_kings_rook_position(),
        )
        .piece(
            Piece::new(PieceColour::Black, PieceType::Pawn),
            Position::new(6, 3),
        )
        .halfmove_clock(4)
        .fullmove_clock(9);
    let board = board_builder.build();
    let new_board = kingside(&board, PieceColour::White).unwrap();

    assert_eq!(
        new_board.occupant(Position::new(6, 3)),
        Some(&Piece::new(PieceColour::Black, PieceType::Pawn))
    );
    assert_eq!(new_board.halfmove_clock(), 4);
    assert_eq!(new_board.fullmove_clock(), 9);
    assert_eq!(new_board.active_colour(), &PieceColour::White);
    assert_eq!(new_board.search(Piece::new(PieceColour::White, PieceType::King)).len(), 1);
}
