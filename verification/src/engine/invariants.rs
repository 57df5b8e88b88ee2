use crate::engine::en_passant::{is_double_push, skipped_square};
use crate::engine::error::EngineErrorView;
use crate::engine::resolve::{
    is_capture, is_pawn_ply, lemma_replay_steps, spec_execute_move, spec_execute_moves,
    spec_origin,
};
use crate::model::board::BoardView;
use crate::model::piece::PieceColour;
use crate::model::ply::PlyMovement;
use crate::model::position::Position;
use vstd::prelude::*;

verus! {

/// The square that the piece of a ply leaves, where the ply is a move or a
/// promotion that can be played.
pub open spec fn origin_of(board: BoardView, ply: PlyMovement) -> Option<Position> {
    match ply {
        PlyMovement::Move { movement, qualifier, .. } => match spec_origin(
            board,
            movement,
            qualifier,
        ) {
            Ok(origin) => Some(origin),
            Err(_) => None,
        },
        PlyMovement::Promotion { movement, qualifier, .. } => match spec_origin(
            board,
            movement,
            qualifier,
        ) {
            Ok(origin) => Some(origin),
            Err(_) => None,
        },
        _ => None,
    }
}

/// Whether the ply, played on `board`, is a pawn's double push from its
/// home row.
pub open spec fn is_double_push_ply(board: BoardView, ply: PlyMovement) -> bool {
    match ply {
        PlyMovement::Move { movement, .. } => origin_of(board, ply) is Some && is_double_push(
            movement.piece,
            origin_of(board, ply)->0,
            movement.position,
        ),
        PlyMovement::Promotion { movement, .. } => origin_of(board, ply) is Some && is_double_push(
            movement.piece,
            origin_of(board, ply)->0,
            movement.position,
        ),
        _ => false,
    }
}

/// The en-passant target that a double push leaves: the square skipped, on
/// the file of the ply's target.
pub open spec fn double_push_target(ply: PlyMovement) -> Position {
    match ply {
        PlyMovement::Move { movement, .. } => skipped_square(
            movement.piece.colour,
            movement.position@.1,
        ),
        PlyMovement::Promotion { movement, .. } => skipped_square(
            movement.piece.colour,
            movement.position@.1,
        ),
        _ => arbitrary(),
    }
}

/// One ply and the fullmove clock: it counts on by one after a ply of
/// Black, and stays after a ply of White.
pub proof fn lemma_step_fullmove_clock(board: BoardView, ply: PlyMovement)
    requires
        spec_execute_move(board, ply) is Ok,
    ensures
        spec_execute_move(board, ply)->Ok_0.fullmove_clock == board.fullmove_clock + (if ply.colour()
            == PieceColour::Black {
            1nat
        } else {
            0nat
        }),
{
}

/// One ply and the halfmove clock: zero after a pawn's ply or a capture,
/// one more after any other ply.
pub proof fn lemma_step_halfmove_clock(board: BoardView, ply: PlyMovement)
    requires
        spec_execute_move(board, ply) is Ok,
    ensures
        spec_execute_move(board, ply)->Ok_0.halfmove_clock == (if is_pawn_ply(ply) || is_capture(
            board,
            ply,
        ) {
            0nat
        } else {
            board.halfmove_clock + 1
        }),
{
}

/// One ply and the en-passant target: the skipped square after a pawn's
/// double push from its home row, none after any other ply.
pub proof fn lemma_step_en_passant(board: BoardView, ply: PlyMovement)
    requires
        spec_execute_move(board, ply) is Ok,
    ensures
        spec_execute_move(board, ply)->Ok_0.en_passant_square == (if is_double_push_ply(
            board,
            ply,
        ) {
            Some(double_push_target(ply))
        } else {
            None
        }),
        !is_pawn_ply(ply) ==> spec_execute_move(board, ply)->Ok_0.en_passant_square is None,
{
}

/// One ply and the castle rights: none is gained.
pub proof fn lemma_step_castle_rights(board: BoardView, ply: PlyMovement)
    requires
        spec_execute_move(board, ply) is Ok,
    ensures
        spec_execute_move(board, ply)->Ok_0.available_castles.subset_of(board.available_castles),
{
}

/// One ply and the side to move: it changes.
pub proof fn lemma_step_active_colour(board: BoardView, ply: PlyMovement)
    requires
        spec_execute_move(board, ply) is Ok,
    ensures
        spec_execute_move(board, ply)->Ok_0.active_colour == board.active_colour.spec_opposite(),
{
}

/// A successful replay returns one board more than there are plies, and
/// the first of them is the starting board.
pub proof fn lemma_replay_length(start: BoardView, plies: Seq<PlyMovement>)
    requires
        spec_execute_moves(start, plies) is Ok,
    ensures
        spec_execute_moves(start, plies)->Ok_0.len() == plies.len() + 1,
        spec_execute_moves(start, plies)->Ok_0[0] == start,
{
    lemma_replay_steps(start, plies);
}

/// In a successful replay, board `i + 1` is what ply `i` makes of board `i`.
pub proof fn lemma_replay_step(start: BoardView, plies: Seq<PlyMovement>, i: int)
    requires
        spec_execute_moves(start, plies) is Ok,
        0 <= i < plies.len(),
    ensures
        spec_execute_move(spec_execute_moves(start, plies)->Ok_0[i], plies[i]) == Ok::<
            BoardView,
            EngineErrorView,
        >(spec_execute_moves(start, plies)->Ok_0[i + 1]),
{
    lemma_replay_steps(start, plies);
}

/// Across a successful replay the fullmove clock counts on by exactly one
/// over a ply of Black, and stays the same over a ply of White.
pub proof fn lemma_fullmove_clock_step(start: BoardView, plies: Seq<PlyMovement>, i: int)
    requires
        spec_execute_moves(start, plies) is Ok,
        0 <= i < plies.len(),
    ensures
        spec_execute_moves(start, plies)->Ok_0[i + 1].fullmove_clock == spec_execute_moves(
            start,
            plies,
        )->Ok_0[i].fullmove_clock + (if plies[i].colour() == PieceColour::Black {
            1nat
        } else {
            0nat
        }),
{
    lemma_replay_step(start, plies, i);
    lemma_step_fullmove_clock(spec_execute_moves(start, plies)->Ok_0[i], plies[i]);
}

/// Across a successful replay in which ply `i` is a ply of the side that
/// is to move on board `i`, the fullmove clock counts on by exactly one
/// from that board to the next when Black is to move on it, and stays the
/// same when White is.
pub proof fn lemma_fullmove_clock_by_side_to_move(
    start: BoardView,
    plies: Seq<PlyMovement>,
    i: int,
)
    requires
        spec_execute_moves(start, plies) is Ok,
        0 <= i < plies.len(),
        plies[i].colour() == spec_execute_moves(start, plies)->Ok_0[i].active_colour,
    ensures
        spec_execute_moves(start, plies)->Ok_0[i + 1].fullmove_clock == spec_execute_moves(
            start,
            plies,
        )->Ok_0[i].fullmove_clock + (if spec_execute_moves(start, plies)->Ok_0[i].active_colour
            == PieceColour::Black {
            1nat
        } else {
            0nat
        }),
{
    lemma_fullmove_clock_step(start, plies, i);
}

/// Across a successful replay the fullmove clock never goes down: an
/// earlier board never shows more than a later one.
pub proof fn lemma_fullmove_clock_monotone(
    start: BoardView,
    plies: Seq<PlyMovement>,
    i: int,
    j: int,
)
    requires
        spec_execute_moves(start, plies) is Ok,
        0 <= i <= j <= plies.len(),
    ensures
        spec_execute_moves(start, plies)->Ok_0[i].fullmove_clock <= spec_execute_moves(
            start,
            plies,
        )->Ok_0[j].fullmove_clock,
    decreases j - i,
{
    if i < j {
        lemma_fullmove_clock_monotone(start, plies, i, j - 1);
        lemma_fullmove_clock_step(start, plies, j - 1);
    }
}

/// Across a successful replay, the board after a pawn's ply or a capture
/// shows a halfmove clock of zero, and the board after any other ply shows
/// one more than the board before it.
pub proof fn lemma_halfmove_clock_reset(start: BoardView, plies: Seq<PlyMovement>, i: int)
    requires
        spec_execute_moves(start, plies) is Ok,
        0 <= i < plies.len(),
    ensures
        spec_execute_moves(start, plies)->Ok_0[i + 1].halfmove_clock == (if is_pawn_ply(plies[i])
            || is_capture(spec_execute_moves(start, plies)->Ok_0[i], plies[i]) {
            0nat
        } else {
            spec_execute_moves(start, plies)->Ok_0[i].halfmove_clock + 1
        }),
{
    lemma_replay_step(start, plies, i);
    lemma_step_halfmove_clock(spec_execute_moves(start, plies)->Ok_0[i], plies[i]);
}

/// Across a successful replay, the board after a ply has an en-passant
/// target only if the ply was a pawn's double push from its home row, and
/// then it is the square skipped. After a ply of any other piece, and
/// after any other ply of a pawn, it has none.
pub proof fn lemma_en_passant_scope(start: BoardView, plies: Seq<PlyMovement>, i: int)
    requires
        spec_execute_moves(start, plies) is Ok,
        0 <= i < plies.len(),
    ensures
        spec_execute_moves(start, plies)->Ok_0[i + 1].en_passant_square == (if is_double_push_ply(
            spec_execute_moves(start, plies)->Ok_0[i],
            plies[i],
        ) {
            Some(double_push_target(plies[i]))
        } else {
            None
        }),
        !is_pawn_ply(plies[i]) ==> spec_execute_moves(start, plies)->Ok_0[i
            + 1].en_passant_square is None,
{
    lemma_replay_step(start, plies, i);
    lemma_step_en_passant(spec_execute_moves(start, plies)->Ok_0[i], plies[i]);
}

/// Across a successful replay no castle right comes back: the rights of a
/// board are among those of every board before it.
pub proof fn lemma_castle_rights_monotone(
    start: BoardView,
    plies: Seq<PlyMovement>,
    i: int,
    j: int,
)
    requires
        spec_execute_moves(start, plies) is Ok,
        0 <= i <= j <= plies.len(),
    ensures
        spec_execute_moves(start, plies)->Ok_0[j].available_castles.subset_of(
            spec_execute_moves(start, plies)->Ok_0[i].available_castles,
        ),
    decreases j - i,
{
    if i < j {
        lemma_castle_rights_monotone(start, plies, i, j - 1);
        lemma_replay_step(start, plies, j - 1);
        lemma_step_castle_rights(spec_execute_moves(start, plies)->Ok_0[j - 1], plies[j - 1]);
    }
}

/// Across a successful replay the side to move alternates.
pub proof fn lemma_active_colour_alternates(start: BoardView, plies: Seq<PlyMovement>, i: int)
    requires
        spec_execute_moves(start, plies) is Ok,
        0 <= i < plies.len(),
    ensures
        spec_execute_moves(start, plies)->Ok_0[i + 1].active_colour == spec_execute_moves(
            start,
            plies,
        )->Ok_0[i].active_colour.spec_opposite(),
{
    lemma_replay_step(start, plies, i);
    lemma_step_active_colour(spec_execute_moves(start, plies)->Ok_0[i], plies[i]);
}

} // verus!
