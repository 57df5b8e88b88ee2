use crate::model::pgn::GameResult;
use crate::parse::position::{advances, agrees};
use crate::parse::scan::{char_at, is_char};
use vstd::prelude::*;

verus! {

/// Whether `1/2-1/2` stands at `at`.
pub open spec fn draw_mark(s: Seq<char>, at: int) -> bool {
    &&& char_at(s, at, '1')
    &&& char_at(s, at + 1, '/')
    &&& char_at(s, at + 2, '2')
    &&& char_at(s, at + 3, '-')
    &&& char_at(s, at + 4, '1')
    &&& char_at(s, at + 5, '/')
    &&& char_at(s, at + 6, '2')
}

/// A result token: `1-0`, `0-1`, `1/2-1/2` or `*`.
pub open spec fn spec_parse(s: Seq<char>, at: int) -> Option<(GameResult, int)> {
    if char_at(s, at, '1') && char_at(s, at + 1, '-') && char_at(s, at + 2, '0') {
        Some((GameResult::WhiteWin, at + 3))
    } else if char_at(s, at, '0') && char_at(s, at + 1, '-') && char_at(s, at + 2, '1') {
        Some((GameResult::BlackWin, at + 3))
    } else if draw_mark(s, at) {
        Some((GameResult::Draw, at + 7))
    } else if char_at(s, at, '*') {
        Some((GameResult::Ongoing, at + 1))
    } else {
        None
    }
}

/// A text that is a result token and nothing else.
pub open spec fn spec_parse_result(s: Seq<char>) -> Option<GameResult> {
    match spec_parse(s, 0) {
        Some((result, next)) => if next == s.len() {
            Some(result)
        } else {
            None
        },
        None => None,
    }
}

/// Reads a result token at `at`.
pub fn parse(input: &[char], at: usize) -> (result: Option<(GameResult, usize)>)
    ensures
        agrees(result, spec_parse(input@, at as int)),
        advances(result, at, input@.len()),
{
    if is_char(input, at, '1') && is_char(input, at + 1, '-') && is_char(input, at + 2, '0') {
        Some((GameResult::WhiteWin, at + 3))
    } else if is_char(input, at, '0') && is_char(input, at + 1, '-') && is_char(
        input,
        at + 2,
        '1',
    ) {
        Some((GameResult::BlackWin, at + 3))
    } else if is_char(input, at, '1') && is_char(input, at + 1, '/') && is_char(input, at + 2, '2')
        && is_char(input, at + 3, '-') && is_char(input, at + 4, '1') && is_char(
        input,
        at + 5,
        '/',
    ) && is_char(input, at + 6, '2') {
        Some((GameResult::Draw, at + 7))
    } else if is_char(input, at, '*') {
        Some((GameResult::Ongoing, at + 1))
    } else {
        None
    }
}

/// Reads a text that must be a result token and nothing else.
pub fn parse_result(input: &[char]) -> (result: Option<GameResult>)
    ensures
        result == spec_parse_result(input@),
{
    match parse(input, 0) {
        Some((result, next)) => if next == input.len() {
            Some(result)
        } else {
            None
        },
        None => None,
    }
}

} // verus!
