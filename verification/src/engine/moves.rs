use crate::model::board::{Board, BoardView};
use crate::model::piece::{Piece, PieceColour, PieceType};
use crate::model::position::{group_position, on_board, Position};
use vstd::prelude::*;

verus! {

broadcast use group_position;

/// What lies one step away from a square.
#[derive(Debug, PartialEq, Eq, Clone, Copy, Structural)]
pub enum MoveOutcome {
    Empty(Position),
    OccupiedOppositeColour(Position),
    OccupiedSameColour,
    Invalid,
}

/// The four diagonal steps.
pub open spec fn spec_diagonal_metrics() -> Seq<(i8, i8)> {
    seq![(1i8, -1i8), (1i8, 1i8), (-1i8, 1i8), (-1i8, -1i8)]
}

/// The four steps along a row or a column.
pub open spec fn spec_lateral_metrics() -> Seq<(i8, i8)> {
    seq![(1i8, 0i8), (0i8, 1i8), (0i8, -1i8), (-1i8, 0i8)]
}

/// The eight steps of a queen or a king: the diagonal ones, then the lateral.
pub open spec fn spec_all_metrics() -> Seq<(i8, i8)> {
    spec_diagonal_metrics() + spec_lateral_metrics()
}

/// The eight jumps of a knight.
pub open spec fn spec_knight_metrics() -> Seq<(i8, i8)> {
    seq![
        (1i8, -2i8),
        (2i8, -1i8),
        (2i8, 1i8),
        (1i8, 2i8),
        (-1i8, 2i8),
        (-2i8, 1i8),
        (-2i8, -1i8),
        (-1i8, -2i8),
    ]
}

/// One step of `metric` from `position`, as a piece of `colour` sees it:
/// off the board, onto a piece of its own colour, onto an enemy piece, or
/// onto an empty square.
pub open spec fn spec_apply_metric_once(
    position: Position,
    colour: PieceColour,
    metric: (i8, i8),
    board: BoardView,
) -> MoveOutcome {
    let row = position@.0 + metric.0;
    let col = position@.1 + metric.1;
    if !on_board(row, col) {
        MoveOutcome::Invalid
    } else {
        let target = Position::at(row, col);
        match board.occupant(target) {
            None => MoveOutcome::Empty(target),
            Some(piece) => if piece.colour != colour {
                MoveOutcome::OccupiedOppositeColour(target)
            } else {
                MoveOutcome::OccupiedSameColour
            },
        }
    }
}

/// How many steps of `metric` fit on the board from `position` at most.
pub open spec fn ray_room(position: Position, metric: (i8, i8)) -> int {
    if metric.0 > 0 {
        7 - position@.0
    } else if metric.0 < 0 {
        position@.0
    } else if metric.1 > 0 {
        7 - position@.1
    } else {
        position@.1
    }
}

/// The squares a ranged piece of `colour` reaches from `position` along
/// `metric`: every empty square in turn, and the first occupied one if an
/// enemy stands on it.
pub open spec fn spec_apply_metric(
    position: Position,
    colour: PieceColour,
    metric: (i8, i8),
    board: BoardView,
) -> Seq<Position>
    decreases ray_room(position, metric),
{
    if metric.0 == 0 && metric.1 == 0 {
        Seq::empty()
    } else {
        match spec_apply_metric_once(position, colour, metric, board) {
            MoveOutcome::Invalid => Seq::empty(),
            MoveOutcome::OccupiedSameColour => Seq::empty(),
            MoveOutcome::OccupiedOppositeColour(target) => seq![target],
            MoveOutcome::Empty(target) => seq![target] + spec_apply_metric(
                target,
                colour,
                metric,
                board,
            ),
        }
    }
}

/// The rays along each of `metrics`, one after the other.
pub open spec fn spec_apply_metrics(
    position: Position,
    colour: PieceColour,
    metrics: Seq<(i8, i8)>,
    board: BoardView,
) -> Seq<Position>
    decreases metrics.len(),
{
    if metrics.len() == 0 {
        Seq::empty()
    } else {
        spec_apply_metrics(position, colour, metrics.drop_last(), board) + spec_apply_metric(
            position,
            colour,
            metrics.last(),
            board,
        )
    }
}

/// The square one step of `metric` away, unless it is off the board or
/// holds a piece of `colour`.
pub open spec fn spec_step(
    position: Position,
    colour: PieceColour,
    metric: (i8, i8),
    board: BoardView,
) -> Seq<Position> {
    match spec_apply_metric_once(position, colour, metric, board) {
        MoveOutcome::Empty(target) => seq![target],
        MoveOutcome::OccupiedOppositeColour(target) => seq![target],
        MoveOutcome::OccupiedSameColour => Seq::empty(),
        MoveOutcome::Invalid => Seq::empty(),
    }
}

/// One step along each of `metrics`, in their order.
pub open spec fn spec_apply_metrics_once(
    position: Position,
    colour: PieceColour,
    metrics: Seq<(i8, i8)>,
    board: BoardView,
) -> Seq<Position>
    decreases metrics.len(),
{
    if metrics.len() == 0 {
        Seq::empty()
    } else {
        spec_apply_metrics_once(position, colour, metrics.drop_last(), board) + spec_step(
            position,
            colour,
            metrics.last(),
            board,
        )
    }
}

/// The direction in which the pawns of `colour` advance.
pub open spec fn pawn_direction(colour: PieceColour) -> int {
    if colour == PieceColour::White {
        1
    } else {
        -1
    }
}

/// The row on which the pawns of `colour` start.
pub open spec fn pawn_home_row(colour: PieceColour) -> int {
    if colour == PieceColour::White {
        1
    } else {
        6
    }
}

/// The square a push of `rows` rows reaches, if it is free.
pub open spec fn spec_pawn_push(
    position: Position,
    colour: PieceColour,
    rows: int,
    board: BoardView,
) -> Seq<Position> {
    match spec_apply_metric_once(position, colour, (rows as i8, 0i8), board) {
        MoveOutcome::Empty(target) => seq![target],
        _ => Seq::empty(),
    }
}

/// The square a diagonal step reaches, if an enemy stands there or it is
/// free and the board's en-passant target.
pub open spec fn spec_pawn_capture(
    position: Position,
    colour: PieceColour,
    metric: (i8, i8),
    board: BoardView,
) -> Seq<Position> {
    match spec_apply_metric_once(position, colour, metric, board) {
        MoveOutcome::OccupiedOppositeColour(target) => seq![target],
        MoveOutcome::Empty(target) => if board.en_passant_square == Some(target) {
            seq![target]
        } else {
            Seq::empty()
        },
        _ => Seq::empty(),
    }
}

/// Where a pawn of `colour` on `position` may go: the single push, the
/// double push from its home row over a free square, then the capture
/// towards file `a` and the capture towards file `h`.
pub open spec fn spec_pawn_moves(
    position: Position,
    colour: PieceColour,
    board: BoardView,
) -> Seq<Position> {
    let forward = pawn_direction(colour);
    let single = spec_pawn_push(position, colour, forward, board);
    let double = if position@.0 == pawn_home_row(colour) && single.len() > 0 {
        spec_pawn_push(position, colour, 2 * forward, board)
    } else {
        Seq::empty()
    };
    single + double + spec_pawn_capture(position, colour, (forward as i8, -1i8), board)
        + spec_pawn_capture(position, colour, (forward as i8, 1i8), board)
}

/// The squares that `piece` on `position` reaches by the way it moves, in
/// the order in which they are found. Whether the move would leave its own
/// king attacked is not looked at.
pub open spec fn spec_find(piece: Piece, position: Position, board: BoardView) -> Seq<Position> {
    match piece.piece_type {
        PieceType::Pawn => spec_pawn_moves(position, piece.colour, board),
        PieceType::Knight => spec_apply_metrics_once(
            position,
            piece.colour,
            spec_knight_metrics(),
            board,
        ),
        PieceType::Bishop => spec_apply_metrics(
            position,
            piece.colour,
            spec_diagonal_metrics(),
            board,
        ),
        PieceType::Rook => spec_apply_metrics(
            position,
            piece.colour,
            spec_lateral_metrics(),
            board,
        ),
        PieceType::Queen => spec_apply_metrics(position, piece.colour, spec_all_metrics(), board),
        PieceType::King => spec_apply_metrics_once(
            position,
            piece.colour,
            spec_all_metrics(),
            board,
        ),
    }
}

pub fn diagonal_metrics() -> (metrics: Vec<(i8, i8)>)
    ensures
        metrics@ == spec_diagonal_metrics(),
{
    let metrics = vec![(1i8, -1i8), (1i8, 1i8), (-1i8, 1i8), (-1i8, -1i8)];
    assert(metrics@ =~= spec_diagonal_metrics());
    metrics
}

pub fn lateral_metrics() -> (metrics: Vec<(i8, i8)>)
    ensures
        metrics@ == spec_lateral_metrics(),
{
    let metrics = vec![(1i8, 0i8), (0i8, 1i8), (0i8, -1i8), (-1i8, 0i8)];
    assert(metrics@ =~= spec_lateral_metrics());
    metrics
}

pub fn all_metrics() -> (metrics: Vec<(i8, i8)>)
    ensures
        metrics@ == spec_all_metrics(),
{
    let metrics = vec![
        (1i8, -1i8),
        (1i8, 1i8),
        (-1i8, 1i8),
        (-1i8, -1i8),
        (1i8, 0i8),
        (0i8, 1i8),
        (0i8, -1i8),
        (-1i8, 0i8),
    ];
    assert(metrics@ =~= spec_all_metrics());
    metrics
}

pub fn knight_metrics() -> (metrics: Vec<(i8, i8)>)
    ensures
        metrics@ == spec_knight_metrics(),
{
    let metrics = vec![
        (1i8, -2i8),
        (2i8, -1i8),
        (2i8, 1i8),
        (1i8, 2i8),
        (-1i8, 2i8),
        (-2i8, 1i8),
        (-2i8, -1i8),
        (-1i8, -2i8),
    ];
    assert(metrics@ =~= spec_knight_metrics());
    metrics
}

pub fn apply_metric_once(
    position: Position,
    colour: PieceColour,
    metric: (i8, i8),
    board: &Board,
) -> (outcome: MoveOutcome)
    ensures
        outcome == spec_apply_metric_once(position, colour, metric, board@),
{
    let row: i16 = position.row() as i16 + metric.0 as i16;
    let col: i16 = position.col() as i16 + metric.1 as i16;
    if row < 0 || row > 7 || col < 0 || col > 7 {
        return MoveOutcome::Invalid;
    }
    let target = Position::new(row as i8, col as i8);
    match board.occupant(target) {
        None => MoveOutcome::Empty(target),
        Some(piece) => {
            if piece.colour != colour {
                MoveOutcome::OccupiedOppositeColour(target)
            } else {
                MoveOutcome::OccupiedSameColour
            }
        },
    }
}

/// Walks from `position` along `metric`, which must not be the null step
/// (with it the walk would never leave an empty square).
pub fn apply_metric(position: Position, colour: PieceColour, metric: (i8, i8), board: &Board) -> (positions:
    Vec<Position>)
    requires
        metric.0 != 0 || metric.1 != 0,
    ensures
        positions@ == spec_apply_metric(position, colour, metric, board@),
{
    let mut positions: Vec<Position> = Vec::new();
    let mut current = position;
    loop
        invariant
            metric.0 != 0 || metric.1 != 0,
            positions@ + spec_apply_metric(current, colour, metric, board@) == spec_apply_metric(
                position,
                colour,
                metric,
                board@,
            ),
        decreases ray_room(current, metric),
    {
        match apply_metric_once(current, colour, metric, board) {
            MoveOutcome::Invalid => {
                assert(positions@ + Seq::<Position>::empty() =~= positions@);
                return positions;
            },
            MoveOutcome::OccupiedSameColour => {
                assert(positions@ + Seq::<Position>::empty() =~= positions@);
                return positions;
            },
            MoveOutcome::OccupiedOppositeColour(target) => {
                assert(positions@ + seq![target] =~= positions@.push(target));
                positions.push(target);
                return positions;
            },
            MoveOutcome::Empty(target) => {
                assert(positions@ + (seq![target] + spec_apply_metric(
                    target,
                    colour,
                    metric,
                    board@,
                )) =~= positions@.push(target) + spec_apply_metric(target, colour, metric, board@));
                positions.push(target);
                current = target;
            },
        }
    }
}

pub fn apply_metrics(
    position: Position,
    colour: PieceColour,
    metrics: &[(i8, i8)],
    board: &Board,
) -> (positions: Vec<Position>)
    requires
        forall|i: int| 0 <= i < metrics@.len() ==> metrics@[i].0 != 0 || metrics@[i].1 != 0,
    ensures
        positions@ == spec_apply_metrics(position, colour, metrics@, board@),
{
    let mut positions: Vec<Position> = Vec::new();
    let mut index: usize = 0;
    while index < metrics.len()
        invariant
            index <= metrics.len(),
            forall|i: int| 0 <= i < metrics@.len() ==> metrics@[i].0 != 0 || metrics@[i].1 != 0,
            positions@ == spec_apply_metrics(
                position,
                colour,
                metrics@.take(index as int),
                board@,
            ),
        decreases metrics.len() - index,
    {
        let mut ray = apply_metric(position, colour, metrics[index], board);
        proof {
            assert(metrics@.take(index + 1).drop_last() =~= metrics@.take(index as int));
        }
        positions.append(&mut ray);
        index += 1;
    }
    proof {
        assert(metrics@.take(index as int) =~= metrics@);
    }
    positions
}

pub fn apply_metrics_once(
    position: Position,
    colour: PieceColour,
    metrics: &[(i8, i8)],
    board: &Board,
) -> (positions: Vec<Position>)
    ensures
        positions@ == spec_apply_metrics_once(position, colour, metrics@, board@),
{
    let mut positions: Vec<Position> = Vec::new();
    let mut index: usize = 0;
    while index < metrics.len()
        invariant
            index <= metrics.len(),
            positions@ == spec_apply_metrics_once(
                position,
                colour,
                metrics@.take(index as int),
                board@,
            ),
        decreases metrics.len() - index,
    {
        proof {
            assert(metrics@.take(index + 1).drop_last() =~= metrics@.take(index as int));
        }
        match apply_metric_once(position, colour, metrics[index], board) {
            MoveOutcome::Empty(target) => {
                assert(positions@ + seq![target] =~= positions@.push(target));
                positions.push(target);
            },
            MoveOutcome::OccupiedOppositeColour(target) => {
                assert(positions@ + seq![target] =~= positions@.push(target));
                positions.push(target);
            },
            MoveOutcome::OccupiedSameColour => {
                assert(positions@ + Seq::<Position>::empty() =~= positions@);
            },
            MoveOutcome::Invalid => {
                assert(positions@ + Seq::<Position>::empty() =~= positions@);
            },
        }
        index += 1;
    }
    proof {
        assert(metrics@.take(index as int) =~= metrics@);
    }
    positions
}

fn pawn_capture(
    position: Position,
    colour: PieceColour,
    metric: (i8, i8),
    board: &Board,
    positions: &mut Vec<Position>,
)
    ensures
        final(positions)@ == old(positions)@ + spec_pawn_capture(position, colour, metric, board@),
{
    match apply_metric_once(position, colour, metric, board) {
        MoveOutcome::OccupiedOppositeColour(target) => {
            assert(positions@ + seq![target] =~= positions@.push(target));
            positions.push(target);
        },
        MoveOutcome::Empty(target) => {
            let en_passant = match board.en_passant_square() {
                Some(square) => *square == target,
                None => false,
            };
            if en_passant {
                assert(positions@ + seq![target] =~= positions@.push(target));
                positions.push(target);
            } else {
                assert(positions@ + Seq::<Position>::empty() =~= positions@);
            }
        },
        _ => {
            assert(positions@ + Seq::<Position>::empty() =~= positions@);
        },
    }
}

pub fn pawn_moves(position: Position, colour: PieceColour, board: &Board) -> (positions: Vec<
    Position,
>)
    ensures
        positions@ == spec_pawn_moves(position, colour, board@),
{
    let mut positions: Vec<Position> = Vec::new();
    let forward: i8 = if colour == PieceColour::White {
        1
    } else {
        -1
    };
    if let MoveOutcome::Empty(target) = apply_metric_once(position, colour, (forward, 0), board) {
        positions.push(target);
    }
    let ghost single = positions@;
    assert(single =~= spec_pawn_push(position, colour, forward as int, board@));

    let on_home_row = (colour == PieceColour::White && position.row() == 1) || (colour
        == PieceColour::Black && position.row() == 6);
    if on_home_row && !positions.is_empty() {
        if let MoveOutcome::Empty(target) = apply_metric_once(
            position,
            colour,
            (2 * forward, 0),
            board,
        ) {
            positions.push(target);
        }
        assert(positions@ =~= single + spec_pawn_push(position, colour, 2 * forward, board@));
    } else {
        assert(positions@ =~= single + Seq::<Position>::empty());
    }
    pawn_capture(position, colour, (forward, -1), board, &mut positions);
    pawn_capture(position, colour, (forward, 1), board, &mut positions);
    positions
}

pub fn find(piece: Piece, position: Position, board: &Board) -> (positions: Vec<Position>)
    ensures
        positions@ == spec_find(piece, position, board@),
{
    let colour = piece.colour;
    match piece.piece_type {
        PieceType::Pawn => pawn_moves(position, colour, board),
        PieceType::Knight => {
            let metrics = knight_metrics();
            apply_metrics_once(position, colour, metrics.as_slice(), board)
        },
        PieceType::Bishop => {
            let metrics = diagonal_metrics();
            apply_metrics(position, colour, metrics.as_slice(), board)
        },
        PieceType::Rook => {
            let metrics = lateral_metrics();
            apply_metrics(position, colour, metrics.as_slice(), board)
        },
        PieceType::Queen => {
            let metrics = all_metrics();
            apply_metrics(position, colour, metrics.as_slice(), board)
        },
        PieceType::King => {
            let metrics = all_metrics();
            apply_metrics_once(position, colour, metrics.as_slice(), board)
        },
    }
}

/// Whether `position` is among `positions`.
pub fn contains_position(positions: &Vec<Position>, position: Position) -> (found: bool)
    ensures
        found == positions@.contains(position),
{
    let mut index: usize = 0;
    while index < positions.len()
        invariant
            index <= positions.len(),
            forall|i: int| 0 <= i < index ==> positions@[i] != position,
        decreases positions.len() - index,
    {
        if positions[index] == position {
            return true;
        }
        index += 1;
    }
    false
}

} // verus!
