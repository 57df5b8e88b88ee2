use crate::model::board::{Board, BoardView};
use crate::model::piece::{Piece, PieceColour, PieceType};
use crate::model::position::{group_position, Position};
use vstd::prelude::*;

verus! {

broadcast use group_position;

/// Whether a move of `piece` from `from` to `to` is a pawn's double push
/// from its home row.
pub open spec fn is_double_push(piece: Piece, from: Position, to: Position) -> bool {
    &&& piece.piece_type == PieceType::Pawn
    &&& (piece.colour == PieceColour::White && from@.0 == 1) || (piece.colour
        == PieceColour::Black && from@.0 == 6)
    &&& (to@.0 - from@.0 == 2 || from@.0 - to@.0 == 2)
}

/// The square that a double push of `colour` to file `col` skips.
pub open spec fn skipped_square(colour: PieceColour, col: int) -> Position {
    match colour {
        PieceColour::White => Position::at(2, col),
        PieceColour::Black => Position::at(5, col),
    }
}

/// The en-passant target that a move leaves behind: after a double push the
/// square skipped, on the file of `to`; after any other move what was there.
pub open spec fn spec_next(piece: Piece, from: Position, to: Position, board: BoardView) -> BoardView {
    if is_double_push(piece, from, to) {
        BoardView { en_passant_square: Some(skipped_square(piece.colour, to@.1)), ..board }
    } else {
        board
    }
}

/// The square behind `position` as `colour` sees it: where the pawn stands
/// that a capture en passant on `position` takes.
pub open spec fn square_behind(colour: PieceColour, position: Position) -> Position {
    match colour {
        PieceColour::White => Position::at(position@.0 - 1, position@.1),
        PieceColour::Black => Position::at(position@.0 + 1, position@.1),
    }
}

/// Whether `piece` arriving on `position` captures en passant.
pub open spec fn takes_en_passant(piece: Piece, position: Position, en_passant_square: Position) -> bool {
    position == en_passant_square && piece.piece_type == PieceType::Pawn
}

/// What an en-passant target does to the move that follows it: a pawn that
/// arrives on the target removes the pawn behind it, and in any case the
/// target is cleared.
pub open spec fn spec_current(
    piece: Piece,
    position: Position,
    en_passant_square: Position,
    board: BoardView,
) -> BoardView {
    let taken = if takes_en_passant(piece, position, en_passant_square) {
        board.remove(square_behind(piece.colour, position))
    } else {
        board
    };
    BoardView { en_passant_square: None, ..taken }
}

pub fn next(piece: Piece, from: Position, to: Position, board: &mut Board) -> (updated: &mut Board)
    ensures
        updated@ == spec_next(piece, from, to, old(board)@),
        *final(board) == *final(updated),
{
    if piece.piece_type != PieceType::Pawn {
        return board;
    }
    let from_home_row = (piece.colour == PieceColour::White && from.row() == 1) || (piece.colour
        == PieceColour::Black && from.row() == 6);
    let rows_moved: i8 = if to.row() >= from.row() {
        to.row() - from.row()
    } else {
        from.row() - to.row()
    };
    if from_home_row && rows_moved == 2 {
        let en_passant_square = match piece.colour {
            PieceColour::White => Position::new(2, to.col()),
            PieceColour::Black => Position::new(5, to.col()),
        };
        board.update_en_passant_square(en_passant_square);
    }
    board
}

/// Applies the en-passant target of the board before the move. A pawn that
/// takes en passant needs a square behind it: a White one does not arrive
/// on row 0, nor a Black one on row 7.
pub fn current(
    piece: Piece,
    position: Position,
    en_passant_square: Position,
    board: &mut Board,
) -> (updated: &mut Board)
    requires
        takes_en_passant(piece, position, en_passant_square) ==> match piece.colour {
            PieceColour::White => position@.0 >= 1,
            PieceColour::Black => position@.0 <= 6,
        },
    ensures
        updated@ == spec_current(piece, position, en_passant_square, old(board)@),
        *final(board) == *final(updated),
{
    if position == en_passant_square && piece.piece_type == PieceType::Pawn {
        match piece.colour {
            PieceColour::White => board.remove(Position::new(position.row() - 1, position.col())),
            PieceColour::Black => board.remove(Position::new(position.row() + 1, position.col())),
        }
    }
    board.remove_en_passant_square();
    board
}

} // verus!
