use crate::model::piece::{Piece, PieceColour, PieceType};
use crate::model::ply::{Check, MoveQualifier, Movement, PlyMovement};
use crate::model::position::{group_position, Position};
use crate::parse::position;
use crate::parse::position::{advances, agrees, spec_column, spec_row};
use crate::parse::scan::{blanks, char_at, is_char, line_ending, spec_blanks, spec_line_ending};
use vstd::prelude::*;

verus! {

broadcast use group_position;

/// What ends a ply: one or more blanks, or else the end of a line.
pub open spec fn spec_ply_terminator(s: Seq<char>, at: int) -> Option<int> {
    match spec_blanks(s, at) {
        Some(next) => Some(next),
        None => spec_line_ending(s, at),
    }
}

/// The letter of a piece that is no pawn: `N`, `B`, `R`, `Q` or `K`.
pub open spec fn spec_piece_type(s: Seq<char>, at: int) -> Option<(PieceType, int)> {
    if char_at(s, at, 'N') {
        Some((PieceType::Knight, at + 1))
    } else if char_at(s, at, 'B') {
        Some((PieceType::Bishop, at + 1))
    } else if char_at(s, at, 'R') {
        Some((PieceType::Rook, at + 1))
    } else if char_at(s, at, 'Q') {
        Some((PieceType::Queen, at + 1))
    } else if char_at(s, at, 'K') {
        Some((PieceType::King, at + 1))
    } else {
        None
    }
}

/// `+` for check, `#` for checkmate.
pub open spec fn spec_check(s: Seq<char>, at: int) -> Option<(Check, int)> {
    if char_at(s, at, '+') {
        Some((Check::Check, at + 1))
    } else if char_at(s, at, '#') {
        Some((Check::Checkmate, at + 1))
    } else {
        None
    }
}

/// `=` and the letter of the piece promoted to.
pub open spec fn spec_promotion(s: Seq<char>, at: int) -> Option<(PieceType, int)> {
    if char_at(s, at, '=') {
        spec_piece_type(s, at + 1)
    } else {
        None
    }
}

/// What says where a piece comes from: a file letter, a rank digit, or
/// both.
pub open spec fn spec_move_qualifier(s: Seq<char>, at: int) -> Option<(MoveQualifier, int)> {
    match spec_column(s, at) {
        Some((col, after_col)) => match spec_row(s, after_col) {
            Some((row, next)) => Some(
                (MoveQualifier::Position(Position::at(row as int, col as int)), next),
            ),
            None => Some((MoveQualifier::Col(col), after_col)),
        },
        None => match spec_row(s, at) {
            Some((row, next)) => Some((MoveQualifier::Row(row), next)),
            None => None,
        },
    }
}

/// An optional qualifier, an optional `x`, and the target square.
pub open spec fn spec_qualified_target(s: Seq<char>, at: int) -> Option<
    ((Option<MoveQualifier>, bool, Position), int),
> {
    let (qualifier, after_qualifier) = match spec_move_qualifier(s, at) {
        Some((qualifier, next)) => (Some(qualifier), next),
        None => (None, at),
    };
    let (capture, after_capture) = if char_at(s, after_qualifier, 'x') {
        (true, after_qualifier + 1)
    } else {
        (false, after_qualifier)
    };
    match position::spec_parse(s, after_capture) {
        Some((target, next)) => Some(((qualifier, capture, target), next)),
        None => None,
    }
}

/// The target of a ply with what stands before it. The longer reading
/// comes first: qualifier, capture mark and square. Where that fails, the
/// square alone.
pub open spec fn spec_position_with_qualifier(s: Seq<char>, at: int) -> Option<
    ((Option<MoveQualifier>, bool, Position), int),
> {
    match spec_qualified_target(s, at) {
        Some(found) => Some(found),
        None => match position::spec_parse(s, at) {
            Some((target, next)) => Some(((None, false, target), next)),
            None => None,
        },
    }
}

/// A move or a promotion of `colour` without what ends it: an optional
/// piece letter (none means a pawn), the target with its qualifier, an
/// optional promotion and an optional check mark.
pub open spec fn spec_move_body(s: Seq<char>, at: int, colour: PieceColour) -> Option<
    (PlyMovement, int),
> {
    let (piece_type, after_piece) = match spec_piece_type(s, at) {
        Some((piece_type, next)) => (piece_type, next),
        None => (PieceType::Pawn, at),
    };
    match spec_position_with_qualifier(s, after_piece) {
        None => None,
        Some(((qualifier, capture, target), after_target)) => {
            let (promotes_to, after_promotion) = match spec_promotion(s, after_target) {
                Some((promotes_to, next)) => (Some(promotes_to), next),
                None => (None, after_target),
            };
            let (check, after_check) = match spec_check(s, after_promotion) {
                Some((check, next)) => (Some(check), next),
                None => (None, after_promotion),
            };
            let movement = Movement { piece: Piece { colour, piece_type }, position: target };
            match promotes_to {
                None => Some(
                    (PlyMovement::Move { movement, qualifier, capture, check }, after_check),
                ),
                Some(promotes_to) => Some(
                    (
                        PlyMovement::Promotion { movement, promotes_to, qualifier, capture, check },
                        after_check,
                    ),
                ),
            }
        },
    }
}

/// What a ply is once its terminator has been read behind it.
pub open spec fn terminated(s: Seq<char>, body: Option<(PlyMovement, int)>) -> Option<
    (PlyMovement, int),
> {
    match body {
        None => None,
        Some((ply, end)) => match spec_ply_terminator(s, end) {
            Some(next) => Some((ply, next)),
            None => None,
        },
    }
}

/// A move or a promotion of `colour`, and its terminator.
pub open spec fn spec_piece_move(s: Seq<char>, at: int, colour: PieceColour) -> Option<
    (PlyMovement, int),
> {
    terminated(s, spec_move_body(s, at, colour))
}

/// `O-O` or `0-0`.
pub open spec fn spec_short_castle_mark(s: Seq<char>, at: int) -> bool {
    ||| char_at(s, at, 'O') && char_at(s, at + 1, '-') && char_at(s, at + 2, 'O')
    ||| char_at(s, at, '0') && char_at(s, at + 1, '-') && char_at(s, at + 2, '0')
}

/// `O-O-O` or `0-0-0`.
pub open spec fn spec_long_castle_mark(s: Seq<char>, at: int) -> bool {
    ||| char_at(s, at, 'O') && char_at(s, at + 1, '-') && char_at(s, at + 2, 'O') && char_at(
        s,
        at + 3,
        '-',
    ) && char_at(s, at + 4, 'O')
    ||| char_at(s, at, '0') && char_at(s, at + 1, '-') && char_at(s, at + 2, '0') && char_at(
        s,
        at + 3,
        '-',
    ) && char_at(s, at + 4, '0')
}

/// A check mark if one stands at `at`.
pub open spec fn spec_optional_check(s: Seq<char>, at: int) -> (Option<Check>, int) {
    match spec_check(s, at) {
        Some((check, next)) => (Some(check), next),
        None => (None, at),
    }
}

/// A kingside castle without what ends it: the mark and an optional check
/// mark.
pub open spec fn spec_kingside_body(s: Seq<char>, at: int, colour: PieceColour) -> Option<
    (PlyMovement, int),
> {
    if spec_short_castle_mark(s, at) {
        let (check, end) = spec_optional_check(s, at + 3);
        Some((PlyMovement::KingsideCastle { colour, check }, end))
    } else {
        None
    }
}

/// A queenside castle without what ends it: the mark and an optional check
/// mark.
pub open spec fn spec_queenside_body(s: Seq<char>, at: int, colour: PieceColour) -> Option<
    (PlyMovement, int),
> {
    if spec_long_castle_mark(s, at) {
        let (check, end) = spec_optional_check(s, at + 5);
        Some((PlyMovement::QueensideCastle { colour, check }, end))
    } else {
        None
    }
}

/// A kingside castle and its terminator.
pub open spec fn spec_kingside_castle(s: Seq<char>, at: int, colour: PieceColour) -> Option<
    (PlyMovement, int),
> {
    terminated(s, spec_kingside_body(s, at, colour))
}

/// A queenside castle and its terminator.
pub open spec fn spec_queenside_castle(s: Seq<char>, at: int, colour: PieceColour) -> Option<
    (PlyMovement, int),
> {
    terminated(s, spec_queenside_body(s, at, colour))
}

/// A text that is one ply of `colour` and nothing else: a move or
/// promotion, else a kingside castle, else a queenside castle, each to the
/// end of the text.
pub open spec fn spec_parse_ply(s: Seq<char>, colour: PieceColour) -> Option<PlyMovement> {
    if spec_move_body(s, 0, colour) is Some && (spec_move_body(s, 0, colour)->0).1 == s.len() {
        Some((spec_move_body(s, 0, colour)->0).0)
    } else if spec_kingside_body(s, 0, colour) is Some && (spec_kingside_body(s, 0, colour)->0).1
        == s.len() {
        Some((spec_kingside_body(s, 0, colour)->0).0)
    } else if spec_queenside_body(s, 0, colour) is Some && (spec_queenside_body(
        s,
        0,
        colour,
    )->0).1 == s.len() {
        Some((spec_queenside_body(s, 0, colour)->0).0)
    } else {
        None
    }
}

/// One ply of `colour` with its terminator: a move or promotion, else a
/// kingside castle, else a queenside castle.
pub open spec fn spec_parse(s: Seq<char>, at: int, colour: PieceColour) -> Option<
    (PlyMovement, int),
> {
    match spec_piece_move(s, at, colour) {
        Some(found) => Some(found),
        None => match spec_kingside_castle(s, at, colour) {
            Some(found) => Some(found),
            None => spec_queenside_castle(s, at, colour),
        },
    }
}

pub fn ply_terminator(input: &[char], at: usize) -> (next: Option<usize>)
    ensures
        next is Some ==> at < next->0 <= input@.len(),
        match next {
            Some(next) => spec_ply_terminator(input@, at as int) == Some(next as int),
            None => spec_ply_terminator(input@, at as int) is None,
        },
{
    match blanks(input, at) {
        Some(next) => Some(next),
        None => line_ending(input, at),
    }
}

pub fn piece_type(input: &[char], at: usize) -> (result: Option<(PieceType, usize)>)
    ensures
        agrees(result, spec_piece_type(input@, at as int)),
        advances(result, at, input@.len()),
{
    if is_char(input, at, 'N') {
        Some((PieceType::Knight, at + 1))
    } else if is_char(input, at, 'B') {
        Some((PieceType::Bishop, at + 1))
    } else if is_char(input, at, 'R') {
        Some((PieceType::Rook, at + 1))
    } else if is_char(input, at, 'Q') {
        Some((PieceType::Queen, at + 1))
    } else if is_char(input, at, 'K') {
        Some((PieceType::King, at + 1))
    } else {
        None
    }
}

pub fn check(input: &[char], at: usize) -> (result: Option<(Check, usize)>)
    ensures
        agrees(result, spec_check(input@, at as int)),
        advances(result, at, input@.len()),
{
    if is_char(input, at, '+') {
        Some((Check::Check, at + 1))
    } else if is_char(input, at, '#') {
        Some((Check::Checkmate, at + 1))
    } else {
        None
    }
}

pub fn promotion(input: &[char], at: usize) -> (result: Option<(PieceType, usize)>)
    ensures
        agrees(result, spec_promotion(input@, at as int)),
        advances(result, at, input@.len()),
{
    if is_char(input, at, '=') {
        piece_type(input, at + 1)
    } else {
        None
    }
}

pub fn move_qualifier(input: &[char], at: usize) -> (result: Option<(MoveQualifier, usize)>)
    ensures
        agrees(result, spec_move_qualifier(input@, at as int)),
        advances(result, at, input@.len()),
{
    match position::column(input, at) {
        Some((col, after_col)) => match position::row(input, after_col) {
            Some((row, next)) => Some((MoveQualifier::Position(Position::new(row, col)), next)),
            None => Some((MoveQualifier::Col(col), after_col)),
        },
        None => match position::row(input, at) {
            Some((row, next)) => Some((MoveQualifier::Row(row), next)),
            None => None,
        },
    }
}

fn qualified_target(input: &[char], at: usize) -> (result: Option<
    ((Option<MoveQualifier>, bool, Position), usize),
>)
    ensures
        agrees(result, spec_qualified_target(input@, at as int)),
        advances(result, at, input@.len()),
        result is Some ==> (result->0).1 >= at + 2,
{
    let (qualifier, after_qualifier) = match move_qualifier(input, at) {
        Some((qualifier, next)) => (Some(qualifier), next),
        None => (None, at),
    };
    let (capture, after_capture) = if is_char(input, after_qualifier, 'x') {
        (true, after_qualifier + 1)
    } else {
        (false, after_qualifier)
    };
    match position::parse(input, after_capture) {
        Some((target, next)) => Some(((qualifier, capture, target), next)),
        None => None,
    }
}

pub fn position_with_qualifier(input: &[char], at: usize) -> (result: Option<
    ((Option<MoveQualifier>, bool, Position), usize),
>)
    ensures
        agrees(result, spec_position_with_qualifier(input@, at as int)),
        advances(result, at, input@.len()),
        result is Some ==> (result->0).1 >= at + 2,
{
    match qualified_target(input, at) {
        Some(found) => Some(found),
        None => match position::parse(input, at) {
            Some((target, next)) => Some(((None, false, target), next)),
            None => None,
        },
    }
}

pub fn move_body(input: &[char], at: usize, colour: PieceColour) -> (result: Option<
    (PlyMovement, usize),
>)
    ensures
        agrees(result, spec_move_body(input@, at as int, colour)),
        advances(result, at, input@.len()),
        result is Some ==> (result->0).1 >= at + 2,
{
    let (maybe_piece_type, after_piece) = match piece_type(input, at) {
        Some((found, next)) => (found, next),
        None => (PieceType::Pawn, at),
    };
    let ((qualifier, capture, target), after_target) = match position_with_qualifier(
        input,
        after_piece,
    ) {
        Some(found) => found,
        None => {
            return None;
        },
    };
    let (maybe_promotion, after_promotion) = match promotion(input, after_target) {
        Some((found, next)) => (Some(found), next),
        None => (None, after_target),
    };
    let (maybe_check, after_check) = match check(input, after_promotion) {
        Some((found, next)) => (Some(found), next),
        None => (None, after_promotion),
    };
    let movement = Movement::new(Piece::new(colour, maybe_piece_type), target);
    match maybe_promotion {
        None => Some(
            (PlyMovement::Move { movement, qualifier, capture, check: maybe_check }, after_check),
        ),
        Some(promotes_to) => Some(
            (
                PlyMovement::Promotion {
                    movement,
                    promotes_to,
                    qualifier,
                    capture,
                    check: maybe_check,
                },
                after_check,
            ),
        ),
    }
}

fn end_ply(input: &[char], at: usize, body: Option<(PlyMovement, usize)>) -> (result: Option<
    (PlyMovement, usize),
>)
    requires
        advances(body, at, input@.len()),
    ensures
        result is Some ==> body is Some && (body->0).1 < (result->0).1 <= input@.len(),
        agrees(
            result,
            terminated(
                input@,
                match body {
                    Some((ply, end)) => Some((ply, end as int)),
                    None => None,
                },
            ),
        ),
{
    match body {
        None => None,
        Some((ply, end)) => match ply_terminator(input, end) {
            Some(next) => Some((ply, next)),
            None => None,
        },
    }
}

pub fn piece_move(input: &[char], at: usize, colour: PieceColour) -> (result: Option<
    (PlyMovement, usize),
>)
    ensures
        agrees(result, spec_piece_move(input@, at as int, colour)),
        advances(result, at, input@.len()),
        result is Some ==> (result->0).1 >= at + 3,
{
    let body = move_body(input, at, colour);
    end_ply(input, at, body)
}

fn short_castle_mark(input: &[char], at: usize) -> (found: bool)
    ensures
        found == spec_short_castle_mark(input@, at as int),
        found ==> at + 3 <= input@.len() && at + 3 <= usize::MAX,
{
    (is_char(input, at, 'O') && is_char(input, at + 1, '-') && is_char(input, at + 2, 'O')) || (
    is_char(input, at, '0') && is_char(input, at + 1, '-') && is_char(input, at + 2, '0'))
}

fn long_castle_mark(input: &[char], at: usize) -> (found: bool)
    ensures
        found == spec_long_castle_mark(input@, at as int),
        found ==> at + 5 <= input@.len() && at + 5 <= usize::MAX,
{
    (is_char(input, at, 'O') && is_char(input, at + 1, '-') && is_char(input, at + 2, 'O')
        && is_char(input, at + 3, '-') && is_char(input, at + 4, 'O')) || (is_char(input, at, '0')
        && is_char(input, at + 1, '-') && is_char(input, at + 2, '0') && is_char(
        input,
        at + 3,
        '-',
    ) && is_char(input, at + 4, '0'))
}

pub fn kingside_body(input: &[char], at: usize, colour: PieceColour) -> (result: Option<
    (PlyMovement, usize),
>)
    ensures
        agrees(result, spec_kingside_body(input@, at as int, colour)),
        advances(result, at, input@.len()),
        result is Some ==> (result->0).1 >= at + 3,
{
    if short_castle_mark(input, at) {
        match check(input, at + 3) {
            Some((mark, end)) => Some(
                (PlyMovement::KingsideCastle { colour, check: Some(mark) }, end),
            ),
            None => Some((PlyMovement::KingsideCastle { colour, check: None }, at + 3)),
        }
    } else {
        None
    }
}

pub fn queenside_body(input: &[char], at: usize, colour: PieceColour) -> (result: Option<
    (PlyMovement, usize),
>)
    ensures
        agrees(result, spec_queenside_body(input@, at as int, colour)),
        advances(result, at, input@.len()),
        result is Some ==> (result->0).1 >= at + 3,
{
    if long_castle_mark(input, at) {
        match check(input, at + 5) {
            Some((mark, end)) => Some(
                (PlyMovement::QueensideCastle { colour, check: Some(mark) }, end),
            ),
            None => Some((PlyMovement::QueensideCastle { colour, check: None }, at + 5)),
        }
    } else {
        None
    }
}

pub fn kingside_castle(input: &[char], at: usize, colour: PieceColour) -> (result: Option<
    (PlyMovement, usize),
>)
    ensures
        agrees(result, spec_kingside_castle(input@, at as int, colour)),
        advances(result, at, input@.len()),
        result is Some ==> (result->0).1 >= at + 3,
{
    let body = kingside_body(input, at, colour);
    end_ply(input, at, body)
}

pub fn queenside_castle(input: &[char], at: usize, colour: PieceColour) -> (result: Option<
    (PlyMovement, usize),
>)
    ensures
        agrees(result, spec_queenside_castle(input@, at as int, colour)),
        advances(result, at, input@.len()),
        result is Some ==> (result->0).1 >= at + 3,
{
    let body = queenside_body(input, at, colour);
    end_ply(input, at, body)
}

/// Reads a text that must be one ply of `colour` and nothing else.
pub fn parse_ply(input: &[char], colour: PieceColour) -> (result: Option<PlyMovement>)
    ensures
        result == spec_parse_ply(input@, colour),
{
    if let Some((ply, end)) = move_body(input, 0, colour) {
        if end == input.len() {
            return Some(ply);
        }
    }
    if let Some((ply, end)) = kingside_body(input, 0, colour) {
        if end == input.len() {
            return Some(ply);
        }
    }
    if let Some((ply, end)) = queenside_body(input, 0, colour) {
        if end == input.len() {
            return Some(ply);
        }
    }
    None
}

pub fn parse(input: &[char], at: usize, colour: PieceColour) -> (result: Option<
    (PlyMovement, usize),
>)
    ensures
        agrees(result, spec_parse(input@, at as int, colour)),
        advances(result, at, input@.len()),
        result is Some ==> (result->0).1 >= at + 3,
{
    match piece_move(input, at, colour) {
        Some(found) => Some(found),
        None => match kingside_castle(input, at, colour) {
            Some(found) => Some(found),
            None => queenside_castle(input, at, colour),
        },
    }
}

} // verus!
