use crate::model::piece::PieceColour;
use crate::model::ply::{ply_views, Ply, PlyView};
use crate::parse::ply;
use crate::parse::result;
use crate::parse::scan::{
    char_at, find_char, is_char, line_ending, number, skip_blanks, spec_find_char,
    spec_line_ending, spec_number, spec_skip_blanks,
};
use crate::text::string_from_chars;
use crate::text::substring;
use vstd::prelude::*;

verus! {

/// The largest move number that is read.
pub const MAX_MOVE_NUMBER: u32 = 32767;

/// Whether `c` is white space: a blank, a line break, or one of the other
/// spacing characters.
pub open spec fn is_white_space(c: char) -> bool {
    let code = c as u32;
    ||| 0x09 <= code <= 0x0d
    ||| code == 0x20
    ||| code == 0x85
    ||| code == 0xa0
    ||| code == 0x1680
    ||| 0x2000 <= code <= 0x200a
    ||| code == 0x2028
    ||| code == 0x2029
    ||| code == 0x202f
    ||| code == 0x205f
    ||| code == 0x3000
}

/// The index of the first character from `from` up to `to` that is no
/// white space, or `to`.
pub open spec fn spec_trim_start(s: Seq<char>, from: int, to: int) -> int
    decreases to - from,
{
    if 0 <= from < to <= s.len() && is_white_space(s[from]) {
        spec_trim_start(s, from + 1, to)
    } else {
        from
    }
}

/// The index behind the last character from `from` up to `to` that is no
/// white space, or `from`.
pub open spec fn spec_trim_end(s: Seq<char>, from: int, to: int) -> int
    decreases to - from,
{
    if 0 <= from < to <= s.len() && is_white_space(s[to - 1]) {
        spec_trim_end(s, from, to - 1)
    } else {
        to
    }
}

/// The text from `from` up to `to` without the white space at its ends.
pub open spec fn spec_trimmed(s: Seq<char>, from: int, to: int) -> Seq<char> {
    let start = spec_trim_start(s, from, to);
    s.subrange(start, spec_trim_end(s, start, to))
}

/// The character that stands for `c` in a comment: a space for a line
/// feed, `c` itself otherwise.
pub open spec fn unbroken(c: char) -> char {
    if c == '\n' {
        ' '
    } else {
        c
    }
}

/// A comment in braces and what ends it: `{`, any text without `}`, `}`,
/// then blanks or the end of a line. Line feeds in the text become spaces.
pub open spec fn spec_parenthesis_comment(s: Seq<char>, at: int) -> Option<(Seq<char>, int)> {
    if char_at(s, at, '{') {
        match spec_find_char(s, at + 1, '}') {
            None => None,
            Some(close) => match ply::spec_ply_terminator(s, close + 1) {
                None => None,
                Some(next) => Some(
                    (s.subrange(at + 1, close).map_values(|c: char| unbroken(c)), next),
                ),
            },
        }
    } else {
        None
    }
}

/// A comment to the end of the line: `;`, the text up to the line feed,
/// and the line feed. The white space at the ends of the text is dropped.
pub open spec fn spec_semicolon_comment(s: Seq<char>, at: int) -> Option<(Seq<char>, int)> {
    if char_at(s, at, ';') {
        match spec_find_char(s, at + 1, '\n') {
            None => None,
            Some(end) => Some((spec_trimmed(s, at + 1, end), end + 1)),
        }
    } else {
        None
    }
}

/// A comment of either form.
pub open spec fn spec_comment(s: Seq<char>, at: int) -> Option<(Seq<char>, int)> {
    match spec_parenthesis_comment(s, at) {
        Some(found) => Some(found),
        None => spec_semicolon_comment(s, at),
    }
}

/// What follows the dots of a move number: an optional line ending, then
/// blanks, as many as there are.
pub open spec fn spec_number_tail(s: Seq<char>, at: int) -> int {
    match spec_line_ending(s, at) {
        Some(next) => spec_skip_blanks(s, next),
        None => spec_skip_blanks(s, at),
    }
}

/// The number of a move of White: digits and one dot.
pub open spec fn spec_white_move_number(s: Seq<char>, at: int) -> Option<(i16, int)> {
    match spec_number(s, at, MAX_MOVE_NUMBER as nat) {
        None => None,
        Some((value, after)) => if char_at(s, after, '.') {
            Some((value as i16, spec_number_tail(s, after + 1)))
        } else {
            None
        },
    }
}

/// The number of a move that Black continues: digits and three dots.
pub open spec fn spec_black_move_number(s: Seq<char>, at: int) -> Option<(i16, int)> {
    match spec_number(s, at, MAX_MOVE_NUMBER as nat) {
        None => None,
        Some((value, after)) => if char_at(s, after, '.') && char_at(s, after + 1, '.')
            && char_at(s, after + 2, '.') {
            Some((value as i16, spec_number_tail(s, after + 3)))
        } else {
            None
        },
    }
}

/// A comment if one stands at `at`.
pub open spec fn spec_optional_comment(s: Seq<char>, at: int) -> (Option<Seq<char>>, int) {
    match spec_comment(s, at) {
        Some((text, next)) => (Some(text), next),
        None => (None, at),
    }
}

/// The index behind a result token if one stands at `at`.
pub open spec fn spec_optional_result(s: Seq<char>, at: int) -> int {
    match result::spec_parse(s, at) {
        Some((_, next)) => next,
        None => at,
    }
}

/// A ply of `colour` with the comment that follows it.
pub open spec fn spec_commented_ply(
    s: Seq<char>,
    at: int,
    colour: PieceColour,
    move_number: i16,
) -> Option<(PlyView, int)> {
    match ply::spec_parse(s, at, colour) {
        None => None,
        Some((movement, after_ply)) => {
            let (comment, next) = spec_optional_comment(s, after_ply);
            Some((PlyView { move_number: move_number as int, movement, comment }, next))
        },
    }
}

/// One move: White's number, White's ply and comment; then either a result
/// token, which ends the move, or Black's ply, with an optional number of
/// its own before it and an optional comment and result token behind it.
pub open spec fn spec_parse_move(s: Seq<char>, at: int) -> Option<(Seq<PlyView>, int)> {
    match spec_white_move_number(s, at) {
        None => None,
        Some((move_number, after_number)) => match spec_commented_ply(
            s,
            after_number,
            PieceColour::White,
            move_number,
        ) {
            None => None,
            Some((white, after_white)) => match result::spec_parse(s, after_white) {
                Some((_, next)) => Some((seq![white], next)),
                None => {
                    let (black_number, after_black_number) = match spec_black_move_number(
                        s,
                        after_white,
                    ) {
                        Some((number, next)) => (number, next),
                        None => (move_number, after_white),
                    };
                    match spec_commented_ply(
                        s,
                        after_black_number,
                        PieceColour::Black,
                        black_number,
                    ) {
                        None => None,
                        Some((black, after_black)) => Some(
                            (seq![white, black], spec_optional_result(s, after_black)),
                        ),
                    }
                },
            },
        },
    }
}

/// A move that starts with Black: Black's number, Black's ply, an optional
/// comment and an optional result token.
pub open spec fn spec_parse_partial_move(s: Seq<char>, at: int) -> Option<(PlyView, int)> {
    match spec_black_move_number(s, at) {
        None => None,
        Some((move_number, after_number)) => match spec_commented_ply(
            s,
            after_number,
            PieceColour::Black,
            move_number,
        ) {
            None => None,
            Some((black, after_black)) => Some((black, spec_optional_result(s, after_black))),
        },
    }
}

/// Moves, as many as can be read from `at` on.
pub open spec fn spec_more_moves(s: Seq<char>, at: int) -> (Seq<PlyView>, int)
    decreases s.len() - at,
{
    match spec_parse_move(s, at) {
        Some((plies, next)) => if at < next <= s.len() {
            let (rest, end) = spec_more_moves(s, next);
            (plies + rest, end)
        } else {
            (Seq::empty(), at)
        },
        None => (Seq::empty(), at),
    }
}

/// One move or, failing that, one move that starts with Black; then moves,
/// as many as there are.
pub open spec fn spec_parse_moves(s: Seq<char>, at: int) -> Option<(Seq<PlyView>, int)> {
    let first = match spec_parse_move(s, at) {
        Some(found) => Some(found),
        None => match spec_parse_partial_move(s, at) {
            Some((ply, next)) => Some((seq![ply], next)),
            None => None,
        },
    };
    match first {
        None => None,
        Some((plies, next)) => {
            let (rest, end) = spec_more_moves(s, next);
            Some((plies + rest, end))
        },
    }
}

/// The move text: a result token alone, or moves.
pub open spec fn spec_parse(s: Seq<char>, at: int) -> Option<(Seq<PlyView>, int)> {
    match result::spec_parse(s, at) {
        Some((_, next)) => Some((Seq::empty(), next)),
        None => spec_parse_moves(s, at),
    }
}

/// Whether a parser returned the text that the grammar says, and the same
/// index behind it.
pub open spec fn text_agrees(result: Option<(String, usize)>, expected: Option<(Seq<char>, int)>) -> bool {
    match result {
        Some((text, next)) => expected == Some((text@, next as int)),
        None => expected is None,
    }
}

/// Whether a parser returned the plies that the grammar says, and the same
/// index behind them.
pub open spec fn plies_agree(
    result: Option<(Vec<Ply>, usize)>,
    expected: Option<(Seq<PlyView>, int)>,
) -> bool {
    match result {
        Some((plies, next)) => expected == Some((ply_views(plies@), next as int)),
        None => expected is None,
    }
}

pub fn is_white_space_char(c: char) -> (white: bool)
    ensures
        white == is_white_space(c),
{
    let code = c as u32;
    (0x09 <= code && code <= 0x0d) || code == 0x20 || code == 0x85 || code == 0xa0 || code
        == 0x1680 || (0x2000 <= code && code <= 0x200a) || code == 0x2028 || code == 0x2029
        || code == 0x202f || code == 0x205f || code == 0x3000
}

/// The text from `from` up to `to` without the white space at its ends.
pub fn trimmed(input: &[char], from: usize, to: usize) -> (text: String)
    requires
        from <= to <= input@.len(),
    ensures
        text@ == spec_trimmed(input@, from as int, to as int),
{
    let mut start = from;
    while start < to && is_white_space_char(input[start])
        invariant
            from <= start <= to <= input@.len(),
            spec_trim_start(input@, start as int, to as int) == spec_trim_start(
                input@,
                from as int,
                to as int,
            ),
        decreases to - start,
    {
        start += 1;
    }
    let mut end = to;
    while start < end && is_white_space_char(input[end - 1])
        invariant
            start <= end <= to <= input@.len(),
            spec_trim_end(input@, start as int, end as int) == spec_trim_end(
                input@,
                start as int,
                to as int,
            ),
        decreases end - start,
    {
        end -= 1;
    }
    substring(input, start, end)
}

pub fn parenthesis_comment(input: &[char], at: usize) -> (result: Option<(String, usize)>)
    ensures
        text_agrees(result, spec_parenthesis_comment(input@, at as int)),
        result is Some ==> at < (result->0).1 <= input@.len(),
{
    if !is_char(input, at, '{') {
        return None;
    }
    let close = match find_char(input, at + 1, '}') {
        Some(close) => close,
        None => {
            return None;
        },
    };
    let next = match ply::ply_terminator(input, close + 1) {
        Some(next) => next,
        None => {
            return None;
        },
    };
    let mut text: Vec<char> = Vec::new();
    let mut index = at + 1;
    while index < close
        invariant
            at + 1 <= index <= close < input@.len(),
            text@ == input@.subrange(at + 1, index as int).map_values(|c: char| unbroken(c)),
        decreases close - index,
    {
        let c = input[index];
        if c == '\n' {
            text.push(' ');
        } else {
            text.push(c);
        }
        assert(input@.subrange(at + 1, index + 1).map_values(|c: char| unbroken(c))
            =~= input@.subrange(at + 1, index as int).map_values(|c: char| unbroken(c)).push(
            unbroken(c),
        ));
        index += 1;
    }
    Some((string_from_chars(text.as_slice()), next))
}

pub fn semicolon_comment(input: &[char], at: usize) -> (result: Option<(String, usize)>)
    ensures
        text_agrees(result, spec_semicolon_comment(input@, at as int)),
        result is Some ==> at < (result->0).1 <= input@.len(),
{
    if !is_char(input, at, ';') {
        return None;
    }
    match find_char(input, at + 1, '\n') {
        Some(end) => Some((trimmed(input, at + 1, end), end + 1)),
        None => None,
    }
}

pub fn comment(input: &[char], at: usize) -> (result: Option<(String, usize)>)
    ensures
        text_agrees(result, spec_comment(input@, at as int)),
        result is Some ==> at < (result->0).1 <= input@.len(),
{
    match parenthesis_comment(input, at) {
        Some(found) => Some(found),
        None => semicolon_comment(input, at),
    }
}

fn number_tail(input: &[char], at: usize) -> (next: usize)
    requires
        at <= input@.len(),
    ensures
        next == spec_number_tail(input@, at as int),
        at <= next <= input@.len(),
{
    match line_ending(input, at) {
        Some(next) => skip_blanks(input, next),
        None => skip_blanks(input, at),
    }
}

pub fn white_move_number(input: &[char], at: usize) -> (result: Option<(i16, usize)>)
    ensures
        result is Some ==> at < (result->0).1 <= input@.len(),
        match result {
            Some((value, next)) => spec_white_move_number(input@, at as int) == Some(
                (value, next as int),
            ),
            None => spec_white_move_number(input@, at as int) is None,
        },
{
    match number(input, at, MAX_MOVE_NUMBER) {
        None => None,
        Some((value, after)) => if is_char(input, after, '.') {
            Some((value as i16, number_tail(input, after + 1)))
        } else {
            None
        },
    }
}

pub fn black_move_number(input: &[char], at: usize) -> (result: Option<(i16, usize)>)
    ensures
        result is Some ==> at < (result->0).1 <= input@.len(),
        match result {
            Some((value, next)) => spec_black_move_number(input@, at as int) == Some(
                (value, next as int),
            ),
            None => spec_black_move_number(input@, at as int) is None,
        },
{
    match number(input, at, MAX_MOVE_NUMBER) {
        None => None,
        Some((value, after)) => if is_char(input, after, '.') && is_char(input, after + 1, '.')
            && is_char(input, after + 2, '.') {
            Some((value as i16, number_tail(input, after + 3)))
        } else {
            None
        },
    }
}

fn commented_ply(input: &[char], at: usize, colour: PieceColour, move_number: i16) -> (result:
    Option<(Ply, usize)>)
    ensures
        result is Some ==> at + 3 <= (result->0).1 <= input@.len(),
        match result {
            Some((ply, next)) => spec_commented_ply(input@, at as int, colour, move_number)
                == Some((ply@, next as int)),
            None => spec_commented_ply(input@, at as int, colour, move_number) is None,
        },
{
    match ply::parse(input, at, colour) {
        None => None,
        Some((movement, after_ply)) => match comment(input, after_ply) {
            Some((text, next)) => Some((Ply::new(move_number, movement, Some(text)), next)),
            None => Some((Ply::new(move_number, movement, None), after_ply)),
        },
    }
}

fn optional_result(input: &[char], at: usize) -> (next: usize)
    requires
        at <= input@.len(),
    ensures
        next == spec_optional_result(input@, at as int),
        at <= next <= input@.len(),
{
    match result::parse(input, at) {
        Some((_, next)) => next,
        None => at,
    }
}

pub fn parse_move(input: &[char], at: usize) -> (result: Option<(Vec<Ply>, usize)>)
    ensures
        plies_agree(result, spec_parse_move(input@, at as int)),
        result is Some ==> at < (result->0).1 <= input@.len(),
        result is Some ==> 3 * (result->0).0@.len() <= (result->0).1 - at,
{
    let (move_number, after_number) = match white_move_number(input, at) {
        Some(found) => found,
        None => {
            return None;
        },
    };
    let (white_ply, after_white) = match commented_ply(
        input,
        after_number,
        PieceColour::White,
        move_number,
    ) {
        Some(found) => found,
        None => {
            return None;
        },
    };
    let ghost white = white_ply@;
    let mut plies: Vec<Ply> = Vec::new();
    plies.push(white_ply);
    assert(ply_views(plies@) =~= seq![white]);
    if let Some((_, next)) = result::parse(input, after_white) {
        return Some((plies, next));
    }
    let (black_number, after_black_number) = match black_move_number(input, after_white) {
        Some(found) => found,
        None => (move_number, after_white),
    };
    let (black_ply, after_black) = match commented_ply(
        input,
        after_black_number,
        PieceColour::Black,
        black_number,
    ) {
        Some(found) => found,
        None => {
            return None;
        },
    };
    let ghost black = black_ply@;
    plies.push(black_ply);
    assert(ply_views(plies@) =~= seq![white, black]);
    Some((plies, optional_result(input, after_black)))
}

pub fn parse_partial_move(input: &[char], at: usize) -> (result: Option<(Ply, usize)>)
    ensures
        result is Some ==> at + 3 <= (result->0).1 <= input@.len(),
        match result {
            Some((ply, next)) => spec_parse_partial_move(input@, at as int) == Some(
                (ply@, next as int),
            ),
            None => spec_parse_partial_move(input@, at as int) is None,
        },
{
    let (move_number, after_number) = match black_move_number(input, at) {
        Some(found) => found,
        None => {
            return None;
        },
    };
    match commented_ply(input, after_number, PieceColour::Black, move_number) {
        Some((ply, after_black)) => Some((ply, optional_result(input, after_black))),
        None => None,
    }
}

#[verifier::rlimit(40)]
pub fn parse_moves(input: &[char], at: usize) -> (result: Option<(Vec<Ply>, usize)>)
    ensures
        plies_agree(result, spec_parse_moves(input@, at as int)),
        result is Some ==> at < (result->0).1 <= input@.len(),
        result is Some ==> 3 * (result->0).0@.len() <= (result->0).1 - at,
{
    let (mut plies, first_end) = match parse_move(input, at) {
        Some(found) => found,
        None => match parse_partial_move(input, at) {
            Some((ply, next)) => {
                let ghost shown = ply@;
                let mut plies: Vec<Ply> = Vec::new();
                plies.push(ply);
                assert(ply_views(plies@) =~= seq![shown]);
                (plies, next)
            },
            None => {
                return None;
            },
        },
    };
    let ghost first = ply_views(plies@);
    let mut current = first_end;
    assert(ply_views(plies@) + spec_more_moves(input@, current as int).0 == first
        + spec_more_moves(input@, first_end as int).0);
    loop
        invariant
            at < first_end <= current <= input@.len(),
            3 * plies@.len() <= current - at,
            spec_parse_moves(input@, at as int) == Some(
                (
                    first + spec_more_moves(input@, first_end as int).0,
                    spec_more_moves(input@, first_end as int).1,
                ),
            ),
            ply_views(plies@) + spec_more_moves(input@, current as int).0 == first
                + spec_more_moves(input@, first_end as int).0,
            spec_more_moves(input@, current as int).1 == spec_more_moves(
                input@,
                first_end as int,
            ).1,
        decreases input@.len() - current,
    {
        match parse_move(input, current) {
            None => {
                assert(ply_views(plies@) + Seq::<PlyView>::empty() =~= ply_views(plies@));
                return Some((plies, current));
            },
            Some((mut more, next)) => {
                let ghost count = plies@.len() + more@.len();
                assert(3 * count <= next - at);
                proof {
                    let rest = spec_more_moves(input@, next as int).0;
                    assert(ply_views(plies@) + (ply_views(more@) + rest) =~= (ply_views(plies@)
                        + ply_views(more@)) + rest);
                    assert(ply_views(plies@ + more@) =~= ply_views(plies@) + ply_views(more@));
                }
                plies.append(&mut more);
                assert(plies@.len() == count);
                current = next;
            },
        }
    }
}

/// Reads the move text that starts at `at`.
pub fn parse(input: &[char], at: usize) -> (result: Option<(Vec<Ply>, usize)>)
    ensures
        plies_agree(result, spec_parse(input@, at as int)),
        result is Some ==> at < (result->0).1 <= input@.len(),
        result is Some ==> 3 * (result->0).0@.len() <= (result->0).1 - at,
{
    match result::parse(input, at) {
        Some((_, next)) => {
            let plies: Vec<Ply> = Vec::new();
            assert(ply_views(plies@) =~= Seq::<PlyView>::empty());
            Some((plies, next))
        },
        None => parse_moves(input, at),
    }
}

} // verus!
