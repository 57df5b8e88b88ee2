use crate::model::board::{Board, BoardView};
use crate::model::piece::{PieceColour, PieceType};
use vstd::prelude::*;

verus! {

/// The halfmove clock after a ply: back to zero when a pawn moved or a
/// piece was captured, one more otherwise.
pub open spec fn spec_halfmove(board: BoardView, piece_type: PieceType, capture: bool) -> BoardView {
    if piece_type == PieceType::Pawn || capture {
        BoardView { halfmove_clock: 0, ..board }
    } else {
        BoardView { halfmove_clock: board.halfmove_clock + 1, ..board }
    }
}

/// The fullmove clock after a ply of `colour`: one more after a ply of
/// Black, the same after a ply of White.
pub open spec fn spec_fullmove(board: BoardView, colour: PieceColour) -> BoardView {
    if colour == PieceColour::Black {
        BoardView { fullmove_clock: board.fullmove_clock + 1, ..board }
    } else {
        board
    }
}

pub fn halfmove(board: &mut Board, piece_type: PieceType, capture: bool) -> (updated: &mut Board)
    requires
        old(board)@.halfmove_clock < usize::MAX,
    ensures
        updated@ == spec_halfmove(old(board)@, piece_type, capture),
        *final(board) == *final(updated),
{
    if piece_type == PieceType::Pawn || capture {
        board.update_halfmove_clock(0);
    } else {
        let clock = board.halfmove_clock();
        board.update_halfmove_clock(clock + 1);
    }
    board
}

pub fn fullmove(board: &mut Board, colour: PieceColour) -> (updated: &mut Board)
    requires
        old(board)@.fullmove_clock < usize::MAX,
    ensures
        updated@ == spec_fullmove(old(board)@, colour),
        *final(board) == *final(updated),
{
    if colour == PieceColour::Black {
        let clock = board.fullmove_clock();
        board.update_fullmove_clock(clock + 1);
    }
    board
}

} // verus!
