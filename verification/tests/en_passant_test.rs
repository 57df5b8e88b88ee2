use pigin::engine::en_passant::{current, next};
use pigin::model::{Board, Piece, PieceColour, PieceType, Position};

fn en_passant_board() -> Board {
    let mut builder = Board::builder();
    builder.piece(
        Piece::new(PieceColour::White, PieceType::Pawn),
        Position::new(3, 2),
    );
    builder.piece(
        Piece::new(PieceColour::Black, PieceType::Pawn),
        Position::new(5, 6),
    );
    builder.en_passant_square(Position::new(3, 5));
    builder.build()
}

#[test]
fn removes_en_passant_square() {
    let mut board = en_passant_board();
    current(
        Piece::new(PieceColour::White, PieceType::Bishop),
        Position::new(2, 2),
        Position::new(3, 5),
        &mut board,
    );
    assert!(board.en_passant_square().is_none())
}

#[test]
fn does_not_remove_pawn_if_piece_moves_to_en_passant_square() {
    let mut board = en_passant_board();
    current(
        Piece::new(PieceColour::White, PieceType::Bishop),
        Position::new(6, 6),
        Position::new(6, 6),
        &mut board,
    );
    assert_eq!(
        board.occupant(Position::new(5, 6)),
        Some(&Piece::new(PieceColour::Black, PieceType::Pawn))
    )
}

#[test]
fn removes_black_pawn_if_pawn_moves_to_en_passant_square() {
    let mut board = en_passant_board();
    current(
        Piece::new(PieceColour::White, PieceType::Pawn),
        Position::new(6, 6),
        Position::new(6, 6),
        &mut board,
    );
    assert!(board.occupant(Position::new(5, 6)).is_none())
}

#[test]
fn removes_white_pawn_if_pawn_moves_to_en_passant_square() {
    let mut board = en_passant_board();
    current(
        Piece::new(PieceColour::Black, PieceType::Pawn),
        Position::new(2, 2),
        Position::new(2, 2),
        &mut board,
    );
    assert!(board.occupant(Position::new(3, 2)).is_none())
}

#[test]
fn double_push_sets_the_skipped_square() {
    let mut board = Board::builder().build();
    next(
        Piece::new(PieceColour::White, PieceType::Pawn),
        Position::new(1, 4),
        Position::new(3, 4),
        &mut board,
    );
    assert_eq!(board.en_passant_square(), Some(&Position::new(2, 4)));

    let mut board = Board::builder().build();
    next(
        Piece::new(PieceColour::Black, PieceType::Pawn),
        Position::new(6, 3),
        Position::new(4, 3),
        &mut board,
    );
    assert_eq!(board.en_passant_square(), Some(&Position::new(5, 3)));
}

#[test]
fn other_moves_set_no_en_passant_square() {
    let mut board = Board::builder().build();
    next(
        Piece::new(PieceColour::White, PieceType::Pawn),
        Position::new(1, 4),
        Position::new(2, 4),
        &mut board,
    );
    assert!(board.en_passant_square().is_none());
    next(
        Piece::new(PieceColour::White, PieceType::Rook),
        Position::new(1, 4),
        Position::new(3, 4),
        &mut board,
    );
    assert!(board.en_passant_square().is_none());
    next(
        Piece::new(PieceColour::White, PieceType::Pawn),
        Position::new(2, 4),
        Position::new(4, 4),
        &mut board,
    );
    assert!(board.en_passant_square().is_none());
}
