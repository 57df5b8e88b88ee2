use crate::model::board::{Board, BoardView};
use crate::model::piece::PieceColour;
use vstd::prelude::*;

verus! {

/// The board with the other side to move.
pub open spec fn spec_update(board: BoardView) -> BoardView {
    BoardView { active_colour: board.active_colour.spec_opposite(), ..board }
}

pub fn update(board: &mut Board) -> (updated: &mut Board)
    ensures
        updated@ == spec_update(old(board)@),
        *final(board) == *final(updated),
{
    let next_active_colour = match board.active_colour() {
        PieceColour::White => PieceColour::Black,
        PieceColour::Black => PieceColour::White,
    };
    board.update_active_colour(next_active_colour);
    board
}

} // verus!
