use crate::engine::error::{file_text, push_square, square_text};
use crate::model::piece::{Piece, PieceColour, PieceType};
use crate::model::ply::{Check, MoveQualifier, Movement, Ply, PlyMovement};
use crate::model::position::group_position;
use crate::text::{digit_text, integer_text, push_integer};
use vstd::prelude::*;
use vstd::string::StringExecFns;

verus! {

broadcast use group_position;

/// The letter that a ply writes for the piece it moves: none for a pawn.
pub open spec fn spec_format_piece_for_ply(piece: Piece) -> Seq<char> {
    match piece.piece_type {
        PieceType::Pawn => ""@,
        PieceType::Knight => "N"@,
        PieceType::Bishop => "B"@,
        PieceType::Rook => "R"@,
        PieceType::Queen => "Q"@,
        PieceType::King => "K"@,
    }
}

/// The letter of a kind of piece, `P` for a pawn.
pub open spec fn piece_type_letter(piece_type: PieceType) -> Seq<char> {
    match piece_type {
        PieceType::Pawn => "P"@,
        PieceType::Knight => "N"@,
        PieceType::Bishop => "B"@,
        PieceType::Rook => "R"@,
        PieceType::Queen => "Q"@,
        PieceType::King => "K"@,
    }
}

/// `+` for check, `#` for checkmate, nothing for neither.
pub open spec fn check_text(check: Option<Check>) -> Seq<char> {
    match check {
        Some(Check::Check) => "+"@,
        Some(Check::Checkmate) => "#"@,
        None => ""@,
    }
}

/// The file letter of a column of the board, `?` for any other number.
pub open spec fn column_text(col: int) -> Seq<char> {
    if 0 <= col <= 7 {
        file_text(col)
    } else {
        "?"@
    }
}

/// The rank digit of a row of the board, `?` for any other number.
pub open spec fn row_text(row: int) -> Seq<char> {
    if 0 <= row <= 7 {
        digit_text(row + 1)
    } else {
        "?"@
    }
}

/// What a ply writes for its qualifier.
pub open spec fn qualifier_text(qualifier: Option<MoveQualifier>) -> Seq<char> {
    match qualifier {
        Some(MoveQualifier::Col(col)) => column_text(col as int),
        Some(MoveQualifier::Row(row)) => row_text(row as int),
        Some(MoveQualifier::Position(position)) => square_text(position),
        None => ""@,
    }
}

/// The move number before a ply: the number and a dot for White, nothing
/// for Black.
pub open spec fn spec_move_number_string(colour: PieceColour, move_number: i16) -> Seq<char> {
    match colour {
        PieceColour::White => integer_text(move_number as int) + "."@,
        PieceColour::Black => ""@,
    }
}

/// A castle as it is written: move number, castle mark, check mark.
pub open spec fn spec_format_castle(
    move_number: i16,
    check: Option<Check>,
    colour: PieceColour,
    castle_string: Seq<char>,
) -> Seq<char> {
    spec_move_number_string(colour, move_number) + castle_string + check_text(check)
}

/// The promotion of a ply as it is written: `=` and the letter of the
/// piece, or nothing.
pub open spec fn promotion_text(promotes_to: Option<PieceType>) -> Seq<char> {
    match promotes_to {
        Some(piece_type) => "="@ + piece_type_letter(piece_type),
        None => ""@,
    }
}

/// A move or promotion as it is written: move number, piece letter,
/// qualifier, capture mark, target, promotion, check mark.
pub open spec fn spec_format_move(
    move_number: i16,
    movement: Movement,
    qualifier: Option<MoveQualifier>,
    check: Option<Check>,
    capture: bool,
    promotes_to: Option<PieceType>,
) -> Seq<char> {
    spec_move_number_string(movement.piece.colour, move_number) + spec_format_piece_for_ply(
        movement.piece,
    ) + qualifier_text(qualifier) + (if capture {
        "x"@
    } else {
        ""@
    }) + square_text(movement.position) + promotion_text(promotes_to) + check_text(check)
}

/// A ply as it is written, without the space that follows it.
pub open spec fn spec_ply_text(move_number: i16, movement: PlyMovement) -> Seq<char> {
    match movement {
        PlyMovement::KingsideCastle { colour, check } => spec_format_castle(
            move_number,
            check,
            colour,
            "O-O"@,
        ),
        PlyMovement::QueensideCastle { colour, check } => spec_format_castle(
            move_number,
            check,
            colour,
            "O-O-O"@,
        ),
        PlyMovement::Move { movement, qualifier, capture, check } => spec_format_move(
            move_number,
            movement,
            qualifier,
            check,
            capture,
            None,
        ),
        PlyMovement::Promotion {
            movement,
            promotes_to,
            qualifier,
            capture,
            check,
        } => spec_format_move(move_number, movement, qualifier, check, capture, Some(promotes_to)),
    }
}

pub fn format_piece_for_ply(piece: Piece) -> (letter: &'static str)
    ensures
        letter@ == spec_format_piece_for_ply(piece),
{
    match piece.piece_type {
        PieceType::Pawn => "",
        PieceType::Knight => "N",
        PieceType::Bishop => "B",
        PieceType::Rook => "R",
        PieceType::Queen => "Q",
        PieceType::King => "K",
    }
}

fn piece_type_str(piece_type: PieceType) -> (letter: &'static str)
    ensures
        letter@ == piece_type_letter(piece_type),
{
    match piece_type {
        PieceType::Pawn => "P",
        PieceType::Knight => "N",
        PieceType::Bishop => "B",
        PieceType::Rook => "R",
        PieceType::Queen => "Q",
        PieceType::King => "K",
    }
}

fn check_str(check: Option<&Check>) -> (mark: &'static str)
    ensures
        mark@ == check_text(
            match check {
                Some(check) => Some(*check),
                None => None,
            },
        ),
{
    match check {
        Some(Check::Check) => "+",
        Some(Check::Checkmate) => "#",
        None => "",
    }
}

fn column_str(col: i8) -> (letter: &'static str)
    ensures
        letter@ == column_text(col as int),
{
    if col == 0 {
        "a"
    } else if col == 1 {
        "b"
    } else if col == 2 {
        "c"
    } else if col == 3 {
        "d"
    } else if col == 4 {
        "e"
    } else if col == 5 {
        "f"
    } else if col == 6 {
        "g"
    } else if col == 7 {
        "h"
    } else {
        "?"
    }
}

fn row_str(row: i8) -> (digit: &'static str)
    ensures
        digit@ == row_text(row as int),
{
    if row == 0 {
        "1"
    } else if row == 1 {
        "2"
    } else if row == 2 {
        "3"
    } else if row == 3 {
        "4"
    } else if row == 4 {
        "5"
    } else if row == 5 {
        "6"
    } else if row == 6 {
        "7"
    } else if row == 7 {
        "8"
    } else {
        "?"
    }
}

fn push_qualifier(out: &mut String, qualifier: Option<&MoveQualifier>)
    ensures
        final(out)@ == old(out)@ + qualifier_text(
            match qualifier {
                Some(qualifier) => Some(*qualifier),
                None => None,
            },
        ),
{
    match qualifier {
        Some(MoveQualifier::Col(col)) => out.append(column_str(*col)),
        Some(MoveQualifier::Row(row)) => out.append(row_str(*row)),
        Some(MoveQualifier::Position(position)) => push_square(out, *position),
        None => out.append(""),
    }
}

pub fn move_number_string(colour: PieceColour, move_number: i16) -> (text: String)
    ensures
        text@ == spec_move_number_string(colour, move_number),
{
    match colour {
        PieceColour::White => {
            let mut text = String::new();
            push_integer(&mut text, move_number as i64);
            text.append(".");
            assert(text@ =~= integer_text(move_number as int) + "."@);
            text
        },
        PieceColour::Black => String::from_str(""),
    }
}

pub fn format_castle(
    move_number: i16,
    check: Option<&Check>,
    colour: PieceColour,
    castle_string: &str,
) -> (text: String)
    ensures
        text@ == spec_format_castle(
            move_number,
            match check {
                Some(check) => Some(*check),
                None => None,
            },
            colour,
            castle_string@,
        ),
{
    let mut text = move_number_string(colour, move_number);
    text.append(castle_string);
    text.append(check_str(check));
    text
}

pub fn format_move(
    move_number: i16,
    movement: &Movement,
    qualifier: Option<&MoveQualifier>,
    check: Option<&Check>,
    capture: bool,
    promotes_to: Option<&PieceType>,
) -> (text: String)
    ensures
        text@ == spec_format_move(
            move_number,
            *movement,
            match qualifier {
                Some(qualifier) => Some(*qualifier),
                None => None,
            },
            match check {
                Some(check) => Some(*check),
                None => None,
            },
            capture,
            match promotes_to {
                Some(piece_type) => Some(*piece_type),
                None => None,
            },
        ),
{
    let mut text = move_number_string(movement.piece.colour, move_number);
    text.append(format_piece_for_ply(movement.piece));
    push_qualifier(&mut text, qualifier);
    if capture {
        text.append("x");
    } else {
        text.append("");
    }
    push_square(&mut text, movement.position);
    match promotes_to {
        Some(piece_type) => {
            let ghost before = text@;
            text.append("=");
            text.append(piece_type_str(*piece_type));
            assert(text@ =~= before + ("="@ + piece_type_letter(*piece_type)));
        },
        None => text.append(""),
    }
    text.append(check_str(check));
    text
}

/// A ply as it is written, without the space that follows it.
pub fn ply_text(ply: &Ply) -> (text: String)
    ensures
        text@ == spec_ply_text(ply.move_number, ply.movement),
{
    match ply.movement() {
        PlyMovement::KingsideCastle { colour, check } => format_castle(
            ply.move_number(),
            check.as_ref(),
            *colour,
            "O-O",
        ),
        PlyMovement::QueensideCastle { colour, check } => format_castle(
            ply.move_number(),
            check.as_ref(),
            *colour,
            "O-O-O",
        ),
        PlyMovement::Move { movement, qualifier, capture, check } => format_move(
            ply.move_number(),
            movement,
            qualifier.as_ref(),
            check.as_ref(),
            *capture,
            None,
        ),
        PlyMovement::Promotion { movement, promotes_to, qualifier, capture, check } => format_move(
            ply.move_number(),
            movement,
            qualifier.as_ref(),
            check.as_ref(),
            *capture,
            Some(promotes_to),
        ),
    }
}

} // verus!
