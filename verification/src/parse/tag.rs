use crate::model::pgn::Tags;
use crate::parse::scan::{
    char_at, find_char, is_char, line_ending, spec_find_char, spec_line_ending,
};
use crate::text::substring;
use vstd::prelude::*;

verus! {

/// A tag value: a quotation mark, any text without one, a quotation mark.
pub open spec fn spec_parse_value(s: Seq<char>, at: int) -> Option<(Seq<char>, int)> {
    if char_at(s, at, '"') {
        match spec_find_char(s, at + 1, '"') {
            Some(close) => Some((s.subrange(at + 1, close), close + 1)),
            None => None,
        }
    } else {
        None
    }
}

/// A tag pair on a line of its own: `[`, the name up to the first space,
/// the value in quotation marks, `]`, and the end of the line.
pub open spec fn spec_parse_tag(s: Seq<char>, at: int) -> Option<((Seq<char>, Seq<char>), int)> {
    if char_at(s, at, '[') {
        match spec_find_char(s, at + 1, ' ') {
            None => None,
            Some(space) => match spec_parse_value(s, space + 1) {
                None => None,
                Some((value, after_value)) => if char_at(s, after_value, ']') {
                    match spec_line_ending(s, after_value + 1) {
                        Some(next) => Some(((s.subrange(at + 1, space), value), next)),
                        None => None,
                    }
                } else {
                    None
                },
            },
        }
    } else {
        None
    }
}

/// The tag section: tag pairs, as many as there are, up to an empty line.
pub open spec fn spec_parse(s: Seq<char>, at: int) -> Option<(Seq<(Seq<char>, Seq<char>)>, int)>
    decreases s.len() - at,
{
    match spec_line_ending(s, at) {
        Some(next) => Some((Seq::empty(), next)),
        None => match spec_parse_tag(s, at) {
            None => None,
            Some((pair, next)) => if at < next <= s.len() {
                match spec_parse(s, next) {
                    Some((rest, end)) => Some((seq![pair] + rest, end)),
                    None => None,
                }
            } else {
                None
            },
        },
    }
}

pub fn parse_value(input: &[char], at: usize) -> (result: Option<(String, usize)>)
    ensures
        result is Some ==> at < (result->0).1 <= input@.len(),
        match result {
            Some((value, next)) => spec_parse_value(input@, at as int) == Some(
                (value@, next as int),
            ),
            None => spec_parse_value(input@, at as int) is None,
        },
{
    if !is_char(input, at, '"') {
        return None;
    }
    match find_char(input, at + 1, '"') {
        Some(close) => Some((substring(input, at + 1, close), close + 1)),
        None => None,
    }
}

pub fn parse_tag(input: &[char], at: usize) -> (result: Option<((String, String), usize)>)
    ensures
        result is Some ==> at < (result->0).1 <= input@.len(),
        match result {
            Some((pair, next)) => spec_parse_tag(input@, at as int) == Some(
                ((pair.0@, pair.1@), next as int),
            ),
            None => spec_parse_tag(input@, at as int) is None,
        },
{
    if !is_char(input, at, '[') {
        return None;
    }
    let space = match find_char(input, at + 1, ' ') {
        Some(space) => space,
        None => {
            return None;
        },
    };
    let (value, after_value) = match parse_value(input, space + 1) {
        Some(found) => found,
        None => {
            return None;
        },
    };
    if !is_char(input, after_value, ']') {
        return None;
    }
    match line_ending(input, after_value + 1) {
        Some(next) => Some(((substring(input, at + 1, space), value), next)),
        None => None,
    }
}

/// Reads the tag section that starts at `at`.
pub fn parse(input: &[char], at: usize) -> (result: Option<(Tags, usize)>)
    ensures
        result is Some ==> at < (result->0).1 <= input@.len(),
        match result {
            Some((tags, next)) => spec_parse(input@, at as int) == Some((tags@, next as int)),
            None => spec_parse(input@, at as int) is None,
        },
{
    let mut pairs: Vec<(String, String)> = Vec::new();
    let mut current = at;
    assert(pairs.deep_view() =~= Seq::<(Seq<char>, Seq<char>)>::empty());
    loop
        invariant
            at <= current,
            current > at || pairs@.len() == 0,
            match spec_parse(input@, current as int) {
                Some((rest, end)) => spec_parse(input@, at as int) == Some(
                    (pairs.deep_view() + rest, end),
                ),
                None => spec_parse(input@, at as int) is None,
            },
        decreases input@.len() - current,
    {
        if let Some(next) = line_ending(input, current) {
            assert(pairs.deep_view() + Seq::<(Seq<char>, Seq<char>)>::empty()
                =~= pairs.deep_view());
            return Some((Tags::new(pairs), next));
        }
        match parse_tag(input, current) {
            None => {
                return None;
            },
            Some((pair, next)) => {
                proof {
                    let shown = pairs.deep_view();
                    let entry = (pair.0@, pair.1@);
                    match spec_parse(input@, next as int) {
                        Some((rest, end)) => {
                            assert(shown + (seq![entry] + rest) =~= shown.push(entry) + rest);
                        },
                        None => {},
                    }
                }
                let ghost shown = pairs.deep_view();
                let ghost entry = (pair.0@, pair.1@);
                pairs.push(pair);
                assert(pairs.deep_view() =~= shown.push(entry));
                current = next;
            },
        }
    }
}

} // verus!
