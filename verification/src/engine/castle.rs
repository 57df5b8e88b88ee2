use crate::engine::error::{CastleSide, EngineError, EngineErrorView};
use crate::model::board::{AvailableCastle, Board, BoardView};
use crate::model::piece::{Piece, PieceColour, PieceType};
use crate::model::position::{group_position, Position};
use vstd::prelude::*;

verus! {

broadcast use group_position;

/// The row on which the pieces of `colour` start.
pub open spec fn back_rank(colour: PieceColour) -> int {
    match colour {
        PieceColour::White => 0,
        PieceColour::Black => 7,
    }
}

/// Where the king of `colour` starts: file `e` of its back rank.
pub open spec fn king_home(colour: PieceColour) -> Position {
    Position::at(back_rank(colour), 4)
}

/// Where the rook of that side starts: file `h` or file `a`.
pub open spec fn rook_home(colour: PieceColour, side: CastleSide) -> Position {
    match side {
        CastleSide::Kingside => Position::at(back_rank(colour), 7),
        CastleSide::Queenside => Position::at(back_rank(colour), 0),
    }
}

/// Where the king stands after castling: file `g` or file `c`.
pub open spec fn king_castled(colour: PieceColour, side: CastleSide) -> Position {
    match side {
        CastleSide::Kingside => Position::at(back_rank(colour), 6),
        CastleSide::Queenside => Position::at(back_rank(colour), 2),
    }
}

/// Where the rook stands after castling: file `f` or file `d`.
pub open spec fn rook_castled(colour: PieceColour, side: CastleSide) -> Position {
    match side {
        CastleSide::Kingside => Position::at(back_rank(colour), 5),
        CastleSide::Queenside => Position::at(back_rank(colour), 3),
    }
}

/// The right that castling on `side` needs.
pub open spec fn castle_right(colour: PieceColour, side: CastleSide) -> AvailableCastle {
    match (colour, side) {
        (PieceColour::White, CastleSide::Kingside) => AvailableCastle::WhiteKingside,
        (PieceColour::White, CastleSide::Queenside) => AvailableCastle::WhiteQueenside,
        (PieceColour::Black, CastleSide::Kingside) => AvailableCastle::BlackKingside,
        (PieceColour::Black, CastleSide::Queenside) => AvailableCastle::BlackQueenside,
    }
}

/// The board without the two castle rights of `colour`.
pub open spec fn spec_remove_castling_for_colour(board: BoardView, colour: PieceColour) -> BoardView {
    board.remove_available_castle(castle_right(colour, CastleSide::Kingside)).remove_available_castle(
        castle_right(colour, CastleSide::Queenside),
    )
}

/// Castling of `colour` on `side`. Without the right it is refused.
/// With it, king and rook leave their home squares and are written on
/// their castled squares, and `colour` loses both its rights.
pub open spec fn spec_castle(board: BoardView, colour: PieceColour, side: CastleSide) -> Result<
    BoardView,
    EngineErrorView,
> {
    if !board.available_castles.contains(castle_right(colour, side)) {
        Err(EngineErrorView::IllegalCastle(colour, side))
    } else {
        Ok(
            spec_remove_castling_for_colour(
                board.remove(king_home(colour)).remove(rook_home(colour, side)).add(
                    Piece { colour, piece_type: PieceType::King },
                    king_castled(colour, side),
                ).add(Piece { colour, piece_type: PieceType::Rook }, rook_castled(colour, side)),
                colour,
            ),
        )
    }
}

pub open spec fn spec_kingside(board: BoardView, colour: PieceColour) -> Result<
    BoardView,
    EngineErrorView,
> {
    spec_castle(board, colour, CastleSide::Kingside)
}

pub open spec fn spec_queenside(board: BoardView, colour: PieceColour) -> Result<
    BoardView,
    EngineErrorView,
> {
    spec_castle(board, colour, CastleSide::Queenside)
}

/// Whether what the engine returned is what the rules say: the same board,
/// or the same error.
pub open spec fn outcome_matches(
    result: Result<Board, EngineError>,
    expected: Result<BoardView, EngineErrorView>,
) -> bool {
    match result {
        Ok(board) => expected == Ok::<BoardView, EngineErrorView>(board@),
        Err(error) => expected == Err::<BoardView, EngineErrorView>(error@),
    }
}

fn back_rank_row(colour: PieceColour) -> (row: i8)
    ensures
        row == back_rank(colour),
{
    match colour {
        PieceColour::White => 0,
        PieceColour::Black => 7,
    }
}

/// The home square of a rook of `colour`.
pub fn rook_home_position(colour: PieceColour, side: CastleSide) -> (position: Position)
    ensures
        position == rook_home(colour, side),
{
    match side {
        CastleSide::Kingside => Position::new(back_rank_row(colour), 7),
        CastleSide::Queenside => Position::new(back_rank_row(colour), 0),
    }
}

fn right_for(colour: PieceColour, side: CastleSide) -> (right: AvailableCastle)
    ensures
        right == castle_right(colour, side),
{
    match (colour, side) {
        (PieceColour::White, CastleSide::Kingside) => AvailableCastle::WhiteKingside,
        (PieceColour::White, CastleSide::Queenside) => AvailableCastle::WhiteQueenside,
        (PieceColour::Black, CastleSide::Kingside) => AvailableCastle::BlackKingside,
        (PieceColour::Black, CastleSide::Queenside) => AvailableCastle::BlackQueenside,
    }
}

fn castle(board: &Board, colour: PieceColour, side: CastleSide) -> (result: Result<
    Board,
    EngineError,
>)
    ensures
        outcome_matches(result, spec_castle(board@, colour, side)),
{
    if !board.has_available_castle(right_for(colour, side)) {
        return Err(EngineError::IllegalCastle(colour, side));
    }
    let row = back_rank_row(colour);
    let king_position_before = Position::new(row, 4);
    let rook_position_before = rook_home_position(colour, side);
    let (king_position_after, rook_position_after) = match side {
        CastleSide::Kingside => (Position::new(row, 6), Position::new(row, 5)),
        CastleSide::Queenside => (Position::new(row, 2), Position::new(row, 3)),
    };

    let mut next_board = board.clone();
    next_board.remove(king_position_before);
    next_board.remove(rook_position_before);
    next_board.add(Piece::new(colour, PieceType::King), king_position_after);
    next_board.add(Piece::new(colour, PieceType::Rook), rook_position_after);

    remove_castling_for_colour(&mut next_board, colour);

    Ok(next_board)
}

pub fn kingside(board: &Board, colour: PieceColour) -> (result: Result<Board, EngineError>)
    ensures
        outcome_matches(result, spec_kingside(board@, colour)),
{
    castle(board, colour, CastleSide::Kingside)
}

pub fn queenside(board: &Board, colour: PieceColour) -> (result: Result<Board, EngineError>)
    ensures
        outcome_matches(result, spec_queenside(board@, colour)),
{
    castle(board, colour, CastleSide::Queenside)
}

pub fn remove_castling_for_colour(board: &mut Board, colour: PieceColour) -> (updated: &mut Board)
    ensures
        updated@ == spec_remove_castling_for_colour(old(board)@, colour),
        *final(board) == *final(updated),
{
    match colour {
        PieceColour::White => {
            board.remove_available_castle(AvailableCastle::WhiteKingside);
            board.remove_available_castle(AvailableCastle::WhiteQueenside);
            board
        },
        PieceColour::Black => {
            board.remove_available_castle(AvailableCastle::BlackKingside);
            board.remove_available_castle(AvailableCastle::BlackQueenside);
            board
        },
    }
}

} // verus!
