use crate::engine::active_colour;
use crate::engine::active_colour::spec_update;
use crate::engine::castle;
use crate::engine::castle::{
    outcome_matches, rook_home, rook_home_position, spec_kingside, spec_queenside,
    spec_remove_castling_for_colour, castle_right,
};
use crate::engine::clocks;
use crate::engine::clocks::{spec_fullmove, spec_halfmove};
use crate::engine::en_passant;
use crate::engine::en_passant::{spec_current, spec_next};
use crate::engine::error::{CastleSide, EngineError, EngineErrorView};
use crate::engine::legality;
use crate::engine::legality::spec_check;
use crate::engine::moves::{
    contains_position, find, spec_find, spec_pawn_capture, spec_pawn_moves, spec_pawn_push,
};
use crate::model::board::{all_positions, AvailableCastle, Board, BoardView};
use crate::model::piece::{Piece, PieceColour, PieceType};
use crate::model::ply::{movements, MoveQualifier, Movement, Ply, PlyMovement};
use crate::model::position::{group_position, Position};
use crate::sequences::{lemma_filter_empty, lemma_filter_step};
use vstd::prelude::*;

verus! {

broadcast use group_position;

/// The squares from which `piece` may go to `target`: those that hold it,
/// whose way of moving reaches `target`, and whose move leaves the king on
/// `king_position` out of reach of the enemy's ranged pieces.
pub open spec fn spec_viable(
    board: BoardView,
    piece: Piece,
    target: Position,
    king_position: Position,
) -> Seq<Position> {
    board.search(piece).filter(
        |candidate: Position|
            spec_find(piece, candidate, board).contains(target) && spec_check(
                piece,
                candidate,
                target,
                king_position,
                piece.colour.spec_opposite(),
                board,
            ),
    )
}

/// Whether `position` is what `qualifier` names: a column, or a row.
pub open spec fn qualifier_keeps(qualifier: MoveQualifier, position: Position) -> bool {
    match qualifier {
        MoveQualifier::Col(col) => position@.1 == col,
        MoveQualifier::Row(row) => position@.0 == row,
        MoveQualifier::Position(named) => position == named,
    }
}

/// The square that `qualifier` picks among several `candidates`: a full
/// square is taken as it is; a column or a row must leave exactly one.
pub open spec fn spec_qualified_position(
    candidates: Seq<Position>,
    qualifier: MoveQualifier,
) -> Option<Position> {
    match qualifier {
        MoveQualifier::Position(position) => Some(position),
        _ => {
            let kept = candidates.filter(|position: Position| qualifier_keeps(qualifier, position));
            if kept.len() == 1 {
                Some(kept[0])
            } else {
                None
            }
        },
    }
}

/// The square that the piece of a ply comes from, or why there is none.
pub open spec fn spec_origin(
    board: BoardView,
    movement: Movement,
    qualifier: Option<MoveQualifier>,
) -> Result<Position, EngineErrorView> {
    let piece = movement.piece;
    let target = movement.position;
    let kings = board.search(Piece { colour: piece.colour, piece_type: PieceType::King });
    if kings.len() == 0 {
        Err(EngineErrorView::NoKing(piece.colour))
    } else {
        let viable = spec_viable(board, piece, target, kings[0]);
        let ambiguous = Err::<Position, EngineErrorView>(
            EngineErrorView::AmbiguousPly(piece, target, viable),
        );
        if viable.len() == 0 {
            Err(EngineErrorView::NoCandidate(piece, target))
        } else if viable.len() == 1 {
            Ok(viable[0])
        } else {
            match qualifier {
                None => ambiguous,
                Some(qualifier) => match spec_qualified_position(viable, qualifier) {
                    Some(position) => Ok(position),
                    None => ambiguous,
                },
            }
        }
    }
}

/// The castle rights after `piece` has left `position`: a king takes both
/// rights of its colour with it, a rook that leaves its home corner the one
/// right of that corner.
pub open spec fn spec_update_available_castles(
    piece: Piece,
    position: Position,
    board: BoardView,
) -> BoardView {
    match piece.piece_type {
        PieceType::King => spec_remove_castling_for_colour(board, piece.colour),
        PieceType::Rook => if position == rook_home(piece.colour, CastleSide::Kingside) {
            board.remove_available_castle(castle_right(piece.colour, CastleSide::Kingside))
        } else if position == rook_home(piece.colour, CastleSide::Queenside) {
            board.remove_available_castle(castle_right(piece.colour, CastleSide::Queenside))
        } else {
            board
        },
        _ => board,
    }
}

/// The piece that ends up on the target: the moving one, or for a
/// promotion one of its colour and of the kind promoted to.
pub open spec fn placed_piece(piece: Piece, promotes_to: Option<PieceType>) -> Piece {
    match promotes_to {
        None => piece,
        Some(piece_type) => Piece { colour: piece.colour, piece_type },
    }
}

/// The board after `piece` has gone from `origin` to `target`: the origin
/// emptied; the en-passant target of the board applied and cleared; the
/// piece written on the target; a new en-passant target after a double
/// push; the castle rights brought up to date. Clocks and side to move are
/// as before.
pub open spec fn spec_relocate(
    board: BoardView,
    piece: Piece,
    origin: Position,
    target: Position,
    promotes_to: Option<PieceType>,
) -> BoardView {
    let lifted = board.remove(origin);
    let cleared = match board.en_passant_square {
        Some(en_passant_square) => spec_current(piece, target, en_passant_square, lifted),
        None => lifted,
    };
    let placed = cleared.add(placed_piece(piece, promotes_to), target);
    let marked = spec_next(piece, origin, target, placed);
    spec_update_available_castles(piece, origin, marked)
}

/// What every ply does besides moving pieces: the halfmove clock is reset
/// after a pawn's ply or a capture and counts on otherwise, the fullmove
/// clock counts on after a ply of Black, and the other side is to move.
pub open spec fn spec_finish(
    moved: BoardView,
    piece_type: PieceType,
    capture: bool,
    colour: PieceColour,
) -> BoardView {
    spec_update(spec_fullmove(spec_halfmove(moved, piece_type, capture), colour))
}

/// The board after a move or a promotion: the piece resolved to its
/// origin and moved, then clocks and side to move brought up to date. The
/// ply is a capture when its target is occupied before it is played, and
/// it is a ply of the colour of its piece.
pub open spec fn spec_piece_move(
    board: BoardView,
    movement: Movement,
    qualifier: Option<MoveQualifier>,
    promotes_to: Option<PieceType>,
) -> Result<BoardView, EngineErrorView> {
    match spec_origin(board, movement, qualifier) {
        Err(error) => Err(error),
        Ok(origin) => Ok(
            spec_finish(
                spec_relocate(board, movement.piece, origin, movement.position, promotes_to),
                movement.piece.piece_type,
                board.occupant(movement.position) is Some,
                movement.piece.colour,
            ),
        ),
    }
}

/// The board after a castle of `colour`, given the board with king and
/// rook castled: the en-passant target cleared, the halfmove clock one
/// more, the fullmove clock and the side to move brought up to date.
pub open spec fn spec_finish_castle(castled: BoardView, colour: PieceColour) -> BoardView {
    spec_finish(BoardView { en_passant_square: None, ..castled }, PieceType::King, false, colour)
}

/// Whether the ply takes a piece: its target is occupied before it is played.
pub open spec fn is_capture(board: BoardView, ply: PlyMovement) -> bool {
    match ply {
        PlyMovement::Move { movement, .. } => board.occupant(movement.position) is Some,
        PlyMovement::Promotion { movement, .. } => board.occupant(movement.position) is Some,
        _ => false,
    }
}

/// Whether the ply moves a pawn.
pub open spec fn is_pawn_ply(ply: PlyMovement) -> bool {
    match ply {
        PlyMovement::Move { movement, .. } => movement.piece.piece_type == PieceType::Pawn,
        PlyMovement::Promotion { movement, .. } => movement.piece.piece_type == PieceType::Pawn,
        _ => false,
    }
}

/// The board after one ply, or the reason why the ply cannot be played.
/// A castle moves king and rook and is then finished as a ply of its
/// colour; a move or a promotion is played as `spec_piece_move` says.
pub open spec fn spec_execute_move(board: BoardView, ply: PlyMovement) -> Result<
    BoardView,
    EngineErrorView,
> {
    match ply {
        PlyMovement::KingsideCastle { colour, .. } => match spec_kingside(board, colour) {
            Ok(castled) => Ok(spec_finish_castle(castled, colour)),
            Err(error) => Err(error),
        },
        PlyMovement::QueensideCastle { colour, .. } => match spec_queenside(board, colour) {
            Ok(castled) => Ok(spec_finish_castle(castled, colour)),
            Err(error) => Err(error),
        },
        PlyMovement::Move { movement, qualifier, .. } => spec_piece_move(
            board,
            movement,
            qualifier,
            None,
        ),
        PlyMovement::Promotion { movement, promotes_to, qualifier, .. } => spec_piece_move(
            board,
            movement,
            qualifier,
            Some(promotes_to),
        ),
    }
}

/// The boards of a game: the starting board, then the board after each ply.
/// The first ply that cannot be played gives its error instead.
pub open spec fn spec_execute_moves(start: BoardView, plies: Seq<PlyMovement>) -> Result<
    Seq<BoardView>,
    EngineErrorView,
>
    decreases plies.len(),
{
    if plies.len() == 0 {
        Ok(seq![start])
    } else {
        match spec_execute_moves(start, plies.drop_last()) {
            Err(error) => Err(error),
            Ok(boards) => match spec_execute_move(boards.last(), plies.last()) {
                Err(error) => Err(error),
                Ok(next) => Ok(boards.push(next)),
            },
        }
    }
}

/// The views of a list of boards.
pub open spec fn views(boards: Seq<Board>) -> Seq<BoardView> {
    boards.map_values(|board: Board| board@)
}

/// Whether a replay returned what the rules say: the same boards, or the
/// same error.
pub open spec fn replay_matches(
    result: Result<Vec<Board>, EngineError>,
    expected: Result<Seq<BoardView>, EngineErrorView>,
) -> bool {
    match result {
        Ok(boards) => expected == Ok::<Seq<BoardView>, EngineErrorView>(views(boards@)),
        Err(error) => expected == Err::<Seq<BoardView>, EngineErrorView>(error@),
    }
}

/// A successful replay has one board more than plies, starts with the
/// starting board, and each board follows from the one before by its ply.
pub proof fn lemma_replay_steps(start: BoardView, plies: Seq<PlyMovement>)
    requires
        spec_execute_moves(start, plies) is Ok,
    ensures
        spec_execute_moves(start, plies)->Ok_0.len() == plies.len() + 1,
        spec_execute_moves(start, plies)->Ok_0[0] == start,
        forall|i: int|
            #![trigger plies[i]]
            0 <= i < plies.len() ==> spec_execute_move(
                spec_execute_moves(start, plies)->Ok_0[i],
                plies[i],
            ) == Ok::<BoardView, EngineErrorView>(spec_execute_moves(start, plies)->Ok_0[i + 1]),
    decreases plies.len(),
{
    if plies.len() > 0 {
        let shorter = plies.drop_last();
        lemma_replay_steps(start, shorter);
        let boards = spec_execute_moves(start, plies)->Ok_0;
        let before = spec_execute_moves(start, shorter)->Ok_0;
        assert(boards == before.push(spec_execute_move(before.last(), plies.last())->Ok_0));
        assert forall|i: int| #![trigger plies[i]] 0 <= i < plies.len() implies spec_execute_move(
            boards[i],
            plies[i],
        ) == Ok::<BoardView, EngineErrorView>(boards[i + 1]) by {
            if i < shorter.len() {
                assert(shorter[i] == plies[i]);
                assert(boards[i] == before[i]);
                assert(boards[i + 1] == before[i + 1]);
            }
        }
    }
}

/// A replay that fails on some plies fails with the same error on any
/// longer list that starts with them.
pub proof fn lemma_replay_error_persists(start: BoardView, plies: Seq<PlyMovement>, count: int)
    requires
        0 <= count <= plies.len(),
        spec_execute_moves(start, plies.take(count)) is Err,
    ensures
        spec_execute_moves(start, plies) == spec_execute_moves(start, plies.take(count)),
    decreases plies.len() - count,
{
    if count < plies.len() {
        assert(plies.take(count + 1).drop_last() =~= plies.take(count));
        lemma_replay_error_persists(start, plies, count + 1);
    } else {
        assert(plies.take(count) =~= plies);
    }
}

/// One ply moves each clock by one at most.
pub proof fn lemma_step_clocks(board: BoardView, ply: PlyMovement)
    requires
        spec_execute_move(board, ply) is Ok,
    ensures
        spec_execute_move(board, ply)->Ok_0.halfmove_clock <= board.halfmove_clock + 1,
        spec_execute_move(board, ply)->Ok_0.fullmove_clock <= board.fullmove_clock + 1,
{
}

/// A pawn that can go to `target` from a square of the board does not
/// arrive on the back rank behind it.
pub proof fn lemma_pawn_target_row(
    position: Position,
    colour: PieceColour,
    board: BoardView,
    target: Position,
)
    requires
        position.wf(),
        spec_pawn_moves(position, colour, board).contains(target),
    ensures
        colour == PieceColour::White ==> target@.0 >= 1,
        colour == PieceColour::Black ==> target@.0 <= 6,
{
    let forward: int = if colour == PieceColour::White {
        1
    } else {
        -1
    };
    let single = spec_pawn_push(position, colour, forward, board);
    let double = if position@.0 == (if colour == PieceColour::White {
        1int
    } else {
        6int
    }) && single.len() > 0 {
        spec_pawn_push(position, colour, 2 * forward, board)
    } else {
        Seq::empty()
    };
    let left = spec_pawn_capture(position, colour, (forward as i8, -1i8), board);
    let right = spec_pawn_capture(position, colour, (forward as i8, 1i8), board);
    let all = single + double + left + right;
    let k = choose|k: int| 0 <= k < all.len() && all[k] == target;
    if k < single.len() {
        assert(single[k] == target);
    } else if k < single.len() + double.len() {
        assert(double[k - single.len()] == target);
    } else if k < single.len() + double.len() + left.len() {
        assert(left[k - single.len() - double.len()] == target);
    } else {
        assert(right[k - single.len() - double.len() - left.len()] == target);
    }
}

/// Every square that a search returns lies on the board.
pub proof fn lemma_search_on_board(board: BoardView, piece: Piece, position: Position)
    requires
        board.search(piece).contains(position),
    ensures
        position.wf(),
        board.holds(piece, position),
{
    let pred = |position: Position| board.holds(piece, position);
    all_positions().lemma_filter_contains_rev(pred, position);
    let k = choose|k: int| 0 <= k < board.search(piece).len() && board.search(piece)[k] == position;
    all_positions().lemma_filter_pred(pred, k);
    let i = choose|i: int| 0 <= i < all_positions().len() && all_positions()[i] == position;
    assert(position == Position::nth(i));
}

/// Picks among several candidates the one that `qualifier` names; `None`
/// when a column or a row does not leave exactly one.
pub fn qualified_position(candidates: &[Position], qualifier: &MoveQualifier) -> (position: Option<
    Position,
>)
    ensures
        position == spec_qualified_position(candidates@, *qualifier),
{
    if let MoveQualifier::Position(position) = qualifier {
        return Some(*position);
    }
    let mut kept: Vec<Position> = Vec::new();
    let ghost pred = |position: Position| qualifier_keeps(*qualifier, position);
    proof {
        lemma_filter_empty(candidates@.take(0), pred);
    }
    let mut index: usize = 0;
    while index < candidates.len()
        invariant
            index <= candidates.len(),
            pred == (|position: Position| qualifier_keeps(*qualifier, position)),
            kept@ == candidates@.take(index as int).filter(pred),
        decreases candidates.len() - index,
    {
        let candidate = candidates[index];
        let keep = match qualifier {
            MoveQualifier::Col(col) => candidate.col() == *col,
            MoveQualifier::Row(row) => candidate.row() == *row,
            MoveQualifier::Position(named) => candidate == *named,
        };
        proof {
            lemma_filter_step(candidates@, pred, index as int);
        }
        if keep {
            kept.push(candidate);
        }
        index += 1;
    }
    proof {
        assert(candidates@.take(index as int) =~= candidates@);
    }
    if kept.len() == 1 {
        Some(kept[0])
    } else {
        None
    }
}

pub fn update_available_castles(piece: Piece, position: Position, board: &mut Board) -> (updated:
    &mut Board)
    ensures
        updated@ == spec_update_available_castles(piece, position, old(board)@),
        *final(board) == *final(updated),
{
    match (piece.piece_type, piece.colour) {
        (PieceType::King, PieceColour::White) => {
            board.remove_available_castle(AvailableCastle::WhiteKingside);
            board.remove_available_castle(AvailableCastle::WhiteQueenside);
        },
        (PieceType::King, PieceColour::Black) => {
            board.remove_available_castle(AvailableCastle::BlackKingside);
            board.remove_available_castle(AvailableCastle::BlackQueenside);
        },
        (PieceType::Rook, PieceColour::White) => {
            if position == rook_home_position(PieceColour::White, CastleSide::Kingside) {
                board.remove_available_castle(AvailableCastle::WhiteKingside);
            } else if position == rook_home_position(PieceColour::White, CastleSide::Queenside) {
                board.remove_available_castle(AvailableCastle::WhiteQueenside);
            }
        },
        (PieceType::Rook, PieceColour::Black) => {
            if position == rook_home_position(PieceColour::Black, CastleSide::Kingside) {
                board.remove_available_castle(AvailableCastle::BlackKingside);
            } else if position == rook_home_position(PieceColour::Black, CastleSide::Queenside) {
                board.remove_available_castle(AvailableCastle::BlackQueenside);
            }
        },
        _ => {},
    };
    board
}

/// The candidates that can play the move, in board order.
fn viable_candidates(board: &Board, piece: Piece, target: Position, king_position: Position) -> (viable:
    Vec<Position>)
    ensures
        viable@ == spec_viable(board@, piece, target, king_position),
{
    let candidates = board.search(piece);
    let opposition_colour = piece.colour.opposite();
    let mut viable: Vec<Position> = Vec::new();
    let ghost pred = |candidate: Position|
        spec_find(piece, candidate, board@).contains(target) && spec_check(
            piece,
            candidate,
            target,
            king_position,
            piece.colour.spec_opposite(),
            board@,
        );
    proof {
        lemma_filter_empty(candidates@.take(0), pred);
    }
    let mut index: usize = 0;
    while index < candidates.len()
        invariant
            index <= candidates.len(),
            candidates@ == board@.search(piece),
            opposition_colour == piece.colour.spec_opposite(),
            pred == (|candidate: Position|
                spec_find(piece, candidate, board@).contains(target) && spec_check(
                    piece,
                    candidate,
                    target,
                    king_position,
                    piece.colour.spec_opposite(),
                    board@,
                )),
            viable@ == candidates@.take(index as int).filter(pred),
        decreases candidates.len() - index,
    {
        let candidate = candidates[index];
        let reachable = find(piece, candidate, board);
        let playable = contains_position(&reachable, target) && legality::check(
            piece,
            candidate,
            target,
            king_position,
            opposition_colour,
            board.clone(),
        );
        proof {
            lemma_filter_step(candidates@, pred, index as int);
        }
        if playable {
            viable.push(candidate);
        }
        index += 1;
    }
    proof {
        assert(candidates@.take(index as int) =~= candidates@);
    }
    viable
}

/// Plays a move or a promotion on a copy of `board`: resolves it to the
/// one square its piece comes from, moves the piece, and brings clocks and
/// side to move up to date. The clocks must have room to count on.
pub fn piece_move(
    board: &Board,
    movement: &Movement,
    qualifier: Option<&MoveQualifier>,
    promotes_to: Option<&PieceType>,
) -> (result: Result<Board, EngineError>)
    requires
        board@.halfmove_clock < usize::MAX,
        board@.fullmove_clock < usize::MAX,
    ensures
        outcome_matches(
            result,
            spec_piece_move(
                board@,
                *movement,
                match qualifier {
                    Some(qualifier) => Some(*qualifier),
                    None => None,
                },
                match promotes_to {
                    Some(piece_type) => Some(*piece_type),
                    None => None,
                },
            ),
        ),
{
    let piece = movement.piece();
    let position = movement.position();

    let kings = board.search(Piece::new(piece.colour, PieceType::King));
    if kings.len() == 0 {
        return Err(EngineError::NoKing(piece.colour));
    }
    let king_position = kings[0];

    let viable_candidates = viable_candidates(board, piece, position, king_position);

    let candidate = if viable_candidates.len() == 0 {
        return Err(EngineError::NoCandidate(piece, position));
    } else if viable_candidates.len() == 1 {
        viable_candidates[0]
    } else {
        match qualifier {
            None => {
                return Err(EngineError::AmbiguousPly(piece, position, viable_candidates));
            },
            Some(qualifier) => match qualified_position(viable_candidates.as_slice(), qualifier) {
                Some(candidate) => candidate,
                None => {
                    return Err(EngineError::AmbiguousPly(piece, position, viable_candidates));
                },
            },
        }
    };

    proof {
        let ghost viable = spec_viable(board@, piece, position, king_position);
        let ghost pred = |candidate: Position|
            spec_find(piece, candidate, board@).contains(position) && spec_check(
                piece,
                candidate,
                position,
                king_position,
                piece.colour.spec_opposite(),
                board@,
            );
        board@.search(piece).lemma_filter_pred(pred, 0);
        assert(viable.contains(viable[0]));
        board@.search(piece).lemma_filter_contains_rev(pred, viable[0]);
        lemma_search_on_board(board@, piece, viable[0]);
        if piece.piece_type == PieceType::Pawn {
            lemma_pawn_target_row(viable[0], piece.colour, board@, position);
        }
    }

    let mut next_board = board.clone();
    next_board.remove(candidate);

    if let Some(en_passant_square) = board.en_passant_square() {
        en_passant::current(piece, position, *en_passant_square, &mut next_board);
    }
    match promotes_to {
        None => next_board.add(piece, position),
        Some(other) => next_board.add(Piece::new(piece.colour, *other), position),
    };

    en_passant::next(piece, candidate, position, &mut next_board);
    update_available_castles(piece, candidate, &mut next_board);

    let capture = board.occupant(position).is_some();
    clocks::halfmove(&mut next_board, piece.piece_type, capture);
    clocks::fullmove(&mut next_board, piece.colour);
    active_colour::update(&mut next_board);

    Ok(next_board)
}

/// Finishes a castle of `colour` on the board with king and rook castled.
fn finish_castle(mut castled: Board, colour: PieceColour) -> (finished: Board)
    requires
        castled@.halfmove_clock < usize::MAX,
        castled@.fullmove_clock < usize::MAX,
    ensures
        finished@ == spec_finish_castle(castled@, colour),
{
    castled.remove_en_passant_square();
    clocks::halfmove(&mut castled, PieceType::King, false);
    clocks::fullmove(&mut castled, colour);
    active_colour::update(&mut castled);
    castled
}

/// Plays one ply on a copy of `board`. The clocks must have room to count
/// on.
pub fn execute_move(board: &Board, ply: &PlyMovement) -> (result: Result<Board, EngineError>)
    requires
        board@.halfmove_clock < usize::MAX,
        board@.fullmove_clock < usize::MAX,
    ensures
        outcome_matches(result, spec_execute_move(board@, *ply)),
{
    match ply {
        PlyMovement::KingsideCastle { colour, .. } => match castle::kingside(board, *colour) {
            Ok(castled) => Ok(finish_castle(castled, *colour)),
            Err(error) => Err(error),
        },
        PlyMovement::QueensideCastle { colour, .. } => match castle::queenside(board, *colour) {
            Ok(castled) => Ok(finish_castle(castled, *colour)),
            Err(error) => Err(error),
        },
        PlyMovement::Move { movement, qualifier, .. } => piece_move(
            board,
            movement,
            qualifier.as_ref(),
            None,
        ),
        PlyMovement::Promotion { movement, promotes_to, qualifier, .. } => piece_move(
            board,
            movement,
            qualifier.as_ref(),
            Some(promotes_to),
        ),
    }
}

/// Replays `ply` from `board`: the starting board, then the board after
/// each ply. The first ply that cannot be played ends the replay with its
/// error. The clocks must have room for one count per ply.
pub fn execute_moves(board: &Board, ply: &[Ply]) -> (result: Result<Vec<Board>, EngineError>)
    requires
        board@.halfmove_clock + ply@.len() <= usize::MAX,
        board@.fullmove_clock + ply@.len() <= usize::MAX,
    ensures
        replay_matches(result, spec_execute_moves(board@, movements(ply@))),
        result is Ok ==> result->Ok_0@.len() == ply@.len() + 1 && result->Ok_0@[0]@ == board@,
{
    let mut boards: Vec<Board> = Vec::new();
    boards.push(board.clone());
    let ghost plies = movements(ply@);
    assert(views(boards@) =~= seq![board@]);
    assert(plies.take(0) =~= Seq::<PlyMovement>::empty());

    let mut index: usize = 0;
    while index < ply.len()
        invariant
            index <= ply.len(),
            plies == movements(ply@),
            boards@.len() == index + 1,
            boards@[0]@ == board@,
            board@.halfmove_clock + ply@.len() <= usize::MAX,
            board@.fullmove_clock + ply@.len() <= usize::MAX,
            boards@[index as int]@.halfmove_clock <= board@.halfmove_clock + index,
            boards@[index as int]@.fullmove_clock <= board@.fullmove_clock + index,
            spec_execute_moves(board@, plies.take(index as int)) == Ok::<
                Seq<BoardView>,
                EngineErrorView,
            >(views(boards@)),
        decreases ply.len() - index,
    {
        let current_board = &boards[index];
        proof {
            assert(plies.take(index + 1).drop_last() =~= plies.take(index as int));
            assert(plies.take(index + 1).last() == ply@[index as int].movement);
            assert(views(boards@).last() == current_board@);
        }
        match execute_move(current_board, ply[index].movement()) {
            Ok(next_board) => {
                proof {
                    lemma_step_clocks(current_board@, ply@[index as int].movement);
                    assert(views(boards@.push(next_board)) =~= views(boards@).push(next_board@));
                }
                boards.push(next_board);
            },
            Err(error) => {
                proof {
                    lemma_replay_error_persists(board@, plies, index + 1);
                }
                return Err(error);
            },
        }
        index += 1;
    }
    proof {
        assert(plies.take(index as int) =~= plies);
    }
    Ok(boards)
}

} // verus!
