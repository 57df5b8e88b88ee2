use crate::model::piece::PieceColour;
use crate::model::ply::PlyMovement;
use crate::model::position::{group_position, Position};
use crate::parse::error::{not_valid, refuse_char, ParseError};
use crate::parse::ply;
use crate::text::chars_of;
use vstd::prelude::*;
use vstd::string::StringExecFns;

verus! {

broadcast use group_position;

/// The column that a file letter names.
pub open spec fn spec_col_from_char(c: char) -> Option<i8> {
    if 'a' as u32 <= c as u32 <= 'h' as u32 {
        Some((c as u32 - 'a' as u32) as i8)
    } else {
        None
    }
}

/// The row that a rank digit names.
pub open spec fn spec_row_from_char(c: char) -> Option<i8> {
    if '1' as u32 <= c as u32 <= '8' as u32 {
        Some((c as u32 - '1' as u32) as i8)
    } else {
        None
    }
}

/// The sentence that refuses a text which is not two characters long.
pub open spec fn wrong_length(s: Seq<char>) -> Seq<char> {
    "String '"@ + s + "' should be length 2"@
}

/// The sentence that refuses a text as a ply.
pub open spec fn not_a_ply(s: Seq<char>) -> Seq<char> {
    "'"@ + s + "' could not be parsed"@
}

/// The square that a text of two characters names, or the sentence that
/// refuses it: for its length, else for its rank digit, else for its file
/// letter.
pub open spec fn spec_parse_position(s: Seq<char>) -> Result<Position, Seq<char>> {
    if s.len() != 2 {
        Err(wrong_length(s))
    } else {
        match spec_row_from_char(s[1]) {
            None => Err(not_valid(seq![s[1]], "row"@)),
            Some(row) => match spec_col_from_char(s[0]) {
                None => Err(not_valid(seq![s[0]], "column"@)),
                Some(col) => Ok(Position::at(row as int, col as int)),
            },
        }
    }
}

pub fn get_col_from_char(c: char) -> (result: Result<i8, ParseError>)
    ensures
        match result {
            Ok(col) => spec_col_from_char(c) == Some(col) && 0 <= col <= 7,
            Err(error) => spec_col_from_char(c) is None && error@ == not_valid(
                seq![c],
                "column"@,
            ),
        },
{
    if 'a' as u32 <= c as u32 && c as u32 <= 'h' as u32 {
        let col: u32 = c as u32 - 'a' as u32;
        Ok(col as i8)
    } else {
        Err(refuse_char(c, "column"))
    }
}

pub fn get_row_from_char(c: char) -> (result: Result<i8, ParseError>)
    ensures
        match result {
            Ok(row) => spec_row_from_char(c) == Some(row) && 0 <= row <= 7,
            Err(error) => spec_row_from_char(c) is None && error@ == not_valid(seq![c], "row"@),
        },
{
    if '1' as u32 <= c as u32 && c as u32 <= '8' as u32 {
        let row: u32 = c as u32 - '1' as u32;
        Ok(row as i8)
    } else {
        Err(refuse_char(c, "row"))
    }
}

/// Reads a text that must be a square and nothing else.
pub fn parse_position(s: &str) -> (result: Result<Position, ParseError>)
    ensures
        match result {
            Ok(position) => spec_parse_position(s@) == Ok::<Position, Seq<char>>(position),
            Err(error) => spec_parse_position(s@) == Err::<Position, Seq<char>>(error@),
        },
{
    let chars = chars_of(s);
    if chars.len() != 2 {
        let mut message = String::from_str("String '");
        message.append(s);
        message.append("' should be length 2");
        return Err(ParseError(message));
    }
    let row = match get_row_from_char(chars[1]) {
        Ok(row) => row,
        Err(error) => {
            return Err(error);
        },
    };
    let col = match get_col_from_char(chars[0]) {
        Ok(col) => col,
        Err(error) => {
            return Err(error);
        },
    };
    Ok(Position::new(row, col))
}

/// Reads a text that must be one ply of `colour` and nothing else.
pub fn parse_ply(s: &str, colour: PieceColour) -> (result: Result<PlyMovement, ParseError>)
    ensures
        match result {
            Ok(movement) => ply::spec_parse_ply(s@, colour) == Some(movement),
            Err(error) => ply::spec_parse_ply(s@, colour) is None && error@ == not_a_ply(s@),
        },
{
    let chars = chars_of(s);
    match ply::parse_ply(chars.as_slice(), colour) {
        Some(movement) => Ok(movement),
        None => {
            let mut message = String::from_str("'");
            message.append(s);
            message.append("' could not be parsed");
            Err(ParseError(message))
        },
    }
}

} // verus!
