use crate::model::position::{group_position, Position};
use crate::parse::scan::{char_between, is_char_between};
use vstd::prelude::*;

verus! {

broadcast use group_position;

/// Whether a parser returned what the grammar says: the same value and the
/// same index behind it, or nothing where the grammar has nothing.
pub open spec fn agrees<T>(result: Option<(T, usize)>, expected: Option<(T, int)>) -> bool {
    match result {
        Some((value, next)) => expected == Some((value, next as int)),
        None => expected is None,
    }
}

/// Whether a parser that returned something went forward, and not beyond
/// the input.
pub open spec fn advances<T>(result: Option<(T, usize)>, at: usize, length: nat) -> bool {
    result is Some ==> at < (result->0).1 <= length
}

/// A file letter `a` to `h`: column 0 to 7.
pub open spec fn spec_column(s: Seq<char>, at: int) -> Option<(i8, int)> {
    if char_between(s, at, 'a', 'h') {
        Some(((s[at] as u32 - 'a' as u32) as i8, at + 1))
    } else {
        None
    }
}

/// A rank digit `1` to `8`: row 0 to 7.
pub open spec fn spec_row(s: Seq<char>, at: int) -> Option<(i8, int)> {
    if char_between(s, at, '1', '8') {
        Some(((s[at] as u32 - '1' as u32) as i8, at + 1))
    } else {
        None
    }
}

/// A square: a file letter, then a rank digit.
pub open spec fn spec_parse(s: Seq<char>, at: int) -> Option<(Position, int)> {
    match spec_column(s, at) {
        Some((col, after_col)) => match spec_row(s, after_col) {
            Some((row, next)) => Some((Position::at(row as int, col as int), next)),
            None => None,
        },
        None => None,
    }
}

pub fn column(input: &[char], at: usize) -> (result: Option<(i8, usize)>)
    ensures
        agrees(result, spec_column(input@, at as int)),
        advances(result, at, input@.len()),
        result is Some ==> 0 <= (result->0).0 <= 7,
{
    if is_char_between(input, at, 'a', 'h') {
        let col: u32 = input[at] as u32 - 'a' as u32;
        Some((col as i8, at + 1))
    } else {
        None
    }
}

pub fn row(input: &[char], at: usize) -> (result: Option<(i8, usize)>)
    ensures
        agrees(result, spec_row(input@, at as int)),
        advances(result, at, input@.len()),
        result is Some ==> 0 <= (result->0).0 <= 7,
{
    if is_char_between(input, at, '1', '8') {
        let row: u32 = input[at] as u32 - '1' as u32;
        Some((row as i8, at + 1))
    } else {
        None
    }
}

pub fn parse(input: &[char], at: usize) -> (result: Option<(Position, usize)>)
    ensures
        agrees(result, spec_parse(input@, at as int)),
        advances(result, at, input@.len()),
        result is Some ==> (result->0).1 == at + 2,
{
    match column(input, at) {
        Some((col, after_col)) => match row(input, after_col) {
            Some((row, next)) => Some((Position::new(row, col), next)),
            None => None,
        },
        None => None,
    }
}

} // verus!
