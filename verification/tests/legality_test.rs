use pigin::engine::legality::{can_capture_king, check};
use pigin::model::{Board, Piece, PieceColour, PieceType, Position};

fn bishop_board() -> Board {
    let mut builder = Board::builder();
    builder.piece(
        Piece::new(PieceColour::White, PieceType::Bishop),
        Position::new(3, 3),
    );
    builder.build()
}

#[test]
fn returns_true_if_piece_is_king() {
    let check = check(
        Piece::new(PieceColour::Black, PieceType::King),
        Position::new(4, 4),
        Position::new(5, 3),
        Position::new(6, 5),
        PieceColour::White,
        bishop_board(),
    );
    assert!(check)
}

#[test]
fn returns_true_if_no_ranged_piece_can_capture_king_after_move() {
    let check = check(
        Piece::new(PieceColour::Black, PieceType::Bishop),
        Position::new(4, 4),
        Position::new(5, 3),
        Position::new(6, 5),
        PieceColour::White,
        bishop_board(),
    );
    assert!(check)
}

#[test]
fn returns_true_if_piece_still_blocks_ranged_pieces_after_move() {
    let check = check(
        Piece::new(PieceColour::Black, PieceType::Bishop),
        Position::new(4, 4),
        Position::new(5, 5),
        Position::new(6, 5),
        PieceColour::White,
        bishop_board(),
    );
    assert!(check)
}

#[test]
fn returns_false_if_any_ranged_piece_can_capture_king_after_move() {
    let check = check(
        Piece::new(PieceColour::Black, PieceType::Bishop),
        Position::new(4, 4),
        Position::new(5, 3),
        Position::new(6, 6),
        PieceColour::White,
        bishop_board(),
    );
    assert!(!check)
}

#[test]
fn returns_false_if_no_pieces_of_type_on_board() {
    let check = can_capture_king(
        Position::new(6, 4),
        Piece::new(PieceColour::White, PieceType::Rook),
        &bishop_board(),
    );
    assert!(!check)
}

#[test]
fn returns_false_if_no_piece_of_type_can_capture_king() {
    let check = can_capture_king(
        Position::new(6, 4),
        Piece::new(PieceColour::White, PieceType::Bishop),
        &bishop_board(),
    );
    assert!(!check)
}

#[test]
fn returns_true_if_piece_of_type_can_capture_king() {
    let check = can_capture_king(
        Position::new(6, 6),
        Piece::new(PieceColour::White, PieceType::Bishop),
        &bishop_board(),
    );
    assert!(check)
}
