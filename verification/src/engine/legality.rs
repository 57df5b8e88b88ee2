use crate::engine::moves::{contains_position, find, spec_find};
use crate::model::board::{Board, BoardView};
use crate::model::piece::{Piece, PieceColour, PieceType};
use crate::model::position::Position;
use vstd::prelude::*;

verus! {

/// Whether some piece equal to `piece` reaches `king_position` by the way
/// it moves.
pub open spec fn spec_can_capture_king(
    king_position: Position,
    piece: Piece,
    board: BoardView,
) -> bool {
    exists|position: Position|
        #![trigger board.search(piece).contains(position)]
        board.search(piece).contains(position) && spec_find(piece, position, board).contains(
            king_position,
        )
}

/// Whether a bishop, rook or queen of `colour` reaches `king_position`.
pub open spec fn ranged_attack(king_position: Position, colour: PieceColour, board: BoardView) -> bool {
    ||| spec_can_capture_king(
        king_position,
        Piece { colour, piece_type: PieceType::Bishop },
        board,
    )
    ||| spec_can_capture_king(king_position, Piece { colour, piece_type: PieceType::Rook }, board)
    ||| spec_can_capture_king(king_position, Piece { colour, piece_type: PieceType::Queen }, board)
}

/// Whether moving `piece` from `from` to `to` is legal as far as pins go:
/// a king may always move; any other piece may move unless, once it stands
/// on `to`, a ranged piece of `colour` reaches `king_position`.
pub open spec fn spec_check(
    piece: Piece,
    from: Position,
    to: Position,
    king_position: Position,
    colour: PieceColour,
    board: BoardView,
) -> bool {
    piece.piece_type == PieceType::King || !ranged_attack(
        king_position,
        colour,
        board.remove(from).add(piece, to),
    )
}

pub fn check(
    piece: Piece,
    from: Position,
    to: Position,
    king_position: Position,
    colour: PieceColour,
    mut board: Board,
) -> (legal: bool)
    ensures
        legal == spec_check(piece, from, to, king_position, colour, board@),
{
    if piece.piece_type == PieceType::King {
        return true;
    }
    board.remove(from);
    board.add(piece, to);

    if can_capture_king(king_position, Piece::new(colour, PieceType::Bishop), &board) {
        return false;
    }
    if can_capture_king(king_position, Piece::new(colour, PieceType::Rook), &board) {
        return false;
    }
    !can_capture_king(king_position, Piece::new(colour, PieceType::Queen), &board)
}

pub fn can_capture_king(king_position: Position, piece: Piece, board: &Board) -> (attacked: bool)
    ensures
        attacked == spec_can_capture_king(king_position, piece, board@),
{
    let pieces = board.search(piece);
    let mut index: usize = 0;
    while index < pieces.len()
        invariant
            index <= pieces.len(),
            pieces@ == board@.search(piece),
            forall|i: int|
                0 <= i < index ==> !spec_find(piece, pieces@[i], board@).contains(king_position),
        decreases pieces.len() - index,
    {
        let positions = find(piece, pieces[index], board);
        if contains_position(&positions, king_position) {
            assert(board@.search(piece).contains(pieces@[index as int]));
            return true;
        }
        index += 1;
    }
    false
}

} // verus!
