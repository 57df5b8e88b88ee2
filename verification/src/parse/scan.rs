use vstd::prelude::*;

verus! {

/// Whether character `at` of `s` exists and is `c`.
pub open spec fn char_at(s: Seq<char>, at: int, c: char) -> bool {
    0 <= at < s.len() && s[at] == c
}

/// Whether character `at` of `s` exists and lies between `low` and `high`.
pub open spec fn char_between(s: Seq<char>, at: int, low: char, high: char) -> bool {
    0 <= at < s.len() && low as u32 <= s[at] as u32 <= high as u32
}

/// The end of a line: a line feed, or a carriage return and a line feed.
pub open spec fn spec_line_ending(s: Seq<char>, at: int) -> Option<int> {
    if char_at(s, at, '\n') {
        Some(at + 1)
    } else if char_at(s, at, '\r') && char_at(s, at + 1, '\n') {
        Some(at + 2)
    } else {
        None
    }
}

/// A space or a tab.
pub open spec fn is_blank(c: char) -> bool {
    c == ' ' || c == '\t'
}

/// The index behind the blanks that start at `at`.
pub open spec fn spec_skip_blanks(s: Seq<char>, at: int) -> int
    decreases s.len() - at,
{
    if 0 <= at < s.len() && is_blank(s[at]) {
        spec_skip_blanks(s, at + 1)
    } else {
        at
    }
}

/// One or more blanks.
pub open spec fn spec_blanks(s: Seq<char>, at: int) -> Option<int> {
    if spec_skip_blanks(s, at) > at {
        Some(spec_skip_blanks(s, at))
    } else {
        None
    }
}

/// The index behind zero or more line endings.
pub open spec fn spec_skip_line_endings(s: Seq<char>, at: int) -> int
    decreases s.len() - at,
{
    match spec_line_ending(s, at) {
        Some(next) => spec_skip_line_endings(s, next),
        None => at,
    }
}

/// The first index from `at` on at which `c` stands.
pub open spec fn spec_find_char(s: Seq<char>, at: int, c: char) -> Option<int>
    decreases s.len() - at,
{
    if at < 0 || at >= s.len() {
        None
    } else if s[at] == c {
        Some(at)
    } else {
        spec_find_char(s, at + 1, c)
    }
}

/// Whether `c` is a decimal digit.
pub open spec fn is_digit(c: char) -> bool {
    '0' as u32 <= c as u32 <= '9' as u32
}

/// The index behind the digits that start at `at`.
pub open spec fn spec_skip_digits(s: Seq<char>, at: int) -> int
    decreases s.len() - at,
{
    if 0 <= at < s.len() && is_digit(s[at]) {
        spec_skip_digits(s, at + 1)
    } else {
        at
    }
}

/// The number that the digits from `from` up to `to` write in decimal.
pub open spec fn digits_value(s: Seq<char>, from: int, to: int) -> nat
    decreases to - from,
{
    if to <= from || to > s.len() || from < 0 {
        0
    } else {
        (digits_value(s, from, to - 1) * 10 + (s[to - 1] as u32 - '0' as u32)) as nat
    }
}

/// A decimal number of at most `max`: one or more digits, as many as
/// there are. `None` where no digit stands at `at` or the number is larger.
pub open spec fn spec_number(s: Seq<char>, at: int, max: nat) -> Option<(nat, int)> {
    let end = spec_skip_digits(s, at);
    if end <= at || digits_value(s, at, end) > max {
        None
    } else {
        Some((digits_value(s, at, end), end))
    }
}

pub proof fn lemma_skip_digits_bounds(s: Seq<char>, at: int)
    requires
        0 <= at <= s.len(),
    ensures
        at <= spec_skip_digits(s, at) <= s.len(),
    decreases s.len() - at,
{
    if at < s.len() && is_digit(s[at]) {
        lemma_skip_digits_bounds(s, at + 1);
    }
}

/// More digits never write a smaller number.
pub proof fn lemma_digits_value_grows(s: Seq<char>, from: int, middle: int, to: int)
    requires
        0 <= from <= middle <= to <= s.len(),
        forall|i: int| from <= i < to ==> is_digit(#[trigger] s[i]),
    ensures
        digits_value(s, from, middle) <= digits_value(s, from, to),
    decreases to - middle,
{
    if middle < to {
        lemma_digits_value_grows(s, from, middle, to - 1);
    }
}

pub fn is_char(input: &[char], at: usize, c: char) -> (found: bool)
    ensures
        found == char_at(input@, at as int, c),
        found ==> at < usize::MAX,
{
    at < input.len() && input[at] == c
}

pub fn is_char_between(input: &[char], at: usize, low: char, high: char) -> (found: bool)
    ensures
        found == char_between(input@, at as int, low, high),
        found ==> at < usize::MAX,
{
    at < input.len() && low as u32 <= input[at] as u32 && input[at] as u32 <= high as u32
}

pub fn line_ending(input: &[char], at: usize) -> (next: Option<usize>)
    ensures
        next is Some ==> at < next->0 <= input@.len(),
        match next {
            Some(next) => spec_line_ending(input@, at as int) == Some(next as int),
            None => spec_line_ending(input@, at as int) is None,
        },
{
    if is_char(input, at, '\n') {
        Some(at + 1)
    } else if is_char(input, at, '\r') && is_char(input, at + 1, '\n') {
        Some(at + 2)
    } else {
        None
    }
}

/// Skips the blanks that start at `at`.
pub fn skip_blanks(input: &[char], at: usize) -> (next: usize)
    ensures
        next == spec_skip_blanks(input@, at as int),
        at <= input@.len() ==> at <= next <= input@.len(),
{
    let mut next = at;
    while next < input.len() && (input[next] == ' ' || input[next] == '\t')
        invariant
            at <= next,
            at <= input@.len() ==> next <= input@.len(),
            spec_skip_blanks(input@, next as int) == spec_skip_blanks(input@, at as int),
        decreases input.len() - next,
    {
        next += 1;
    }
    next
}

pub fn blanks(input: &[char], at: usize) -> (next: Option<usize>)
    ensures
        next is Some ==> at < next->0 <= input@.len(),
        match next {
            Some(next) => spec_blanks(input@, at as int) == Some(next as int),
            None => spec_blanks(input@, at as int) is None,
        },
{
    let next = skip_blanks(input, at);
    if next > at {
        Some(next)
    } else {
        None
    }
}

/// Skips the line endings that start at `at`.
pub fn skip_line_endings(input: &[char], at: usize) -> (next: usize)
    ensures
        next == spec_skip_line_endings(input@, at as int),
        at <= input@.len() ==> at <= next <= input@.len(),
{
    let mut next = at;
    loop
        invariant
            at <= next,
            at <= input@.len() ==> next <= input@.len(),
            spec_skip_line_endings(input@, next as int) == spec_skip_line_endings(
                input@,
                at as int,
            ),
        decreases input@.len() - next,
    {
        match line_ending(input, next) {
            Some(after) => {
                next = after;
            },
            None => {
                return next;
            },
        }
    }
}

/// The first index from `at` on at which `c` stands.
pub fn find_char(input: &[char], at: usize, c: char) -> (found: Option<usize>)
    ensures
        found is Some ==> at <= found->0 < input@.len() && found->0 < usize::MAX,
        match found {
            Some(index) => spec_find_char(input@, at as int, c) == Some(index as int),
            None => spec_find_char(input@, at as int, c) is None,
        },
{
    let mut index = at;
    while index < input.len()
        invariant
            at <= index,
            spec_find_char(input@, index as int, c) == spec_find_char(input@, at as int, c),
        decreases input.len() - index,
    {
        if input[index] == c {
            return Some(index);
        }
        index += 1;
    }
    None
}

/// Reads a decimal number of at most `max`.
pub fn number(input: &[char], at: usize, max: u32) -> (result: Option<(u32, usize)>)
    requires
        max <= 100_000_000,
    ensures
        result is Some ==> at < (result->0).1 <= input@.len() && (result->0).0 <= max,
        match result {
            Some((value, next)) => spec_number(input@, at as int, max as nat) == Some(
                (value as nat, next as int),
            ),
            None => spec_number(input@, at as int, max as nat) is None,
        },
{
    let mut value: u32 = 0;
    let mut next = at;
    while next < input.len() && '0' as u32 <= input[next] as u32 && input[next] as u32 <= '9' as u32
        invariant
            at <= next,
            next <= input@.len() || next == at,
            max <= 100_000_000,
            value <= max,
            value == digits_value(input@, at as int, next as int),
            forall|i: int| at <= i < next ==> is_digit(#[trigger] input@[i]),
            spec_skip_digits(input@, next as int) == spec_skip_digits(input@, at as int),
        decreases input.len() - next,
    {
        let digit: u32 = input[next] as u32 - '0' as u32;
        let larger: u32 = value * 10 + digit;
        if larger > max {
            proof {
                let end = spec_skip_digits(input@, at as int);
                lemma_skip_digits_bounds(input@, next + 1);
                lemma_digits_in_run(input@, next + 1);
                assert forall|i: int| at <= i < end implies is_digit(#[trigger] input@[i]) by {
                    if i > next {
                        assert(next + 1 <= i < spec_skip_digits(input@, next + 1));
                    }
                }
                lemma_digits_value_grows(input@, at as int, next + 1, end);
            }
            return None;
        }
        value = larger;
        next += 1;
    }
    if next == at {
        None
    } else {
        Some((value, next))
    }
}

/// Every character that `spec_skip_digits` passes is a digit.
pub proof fn lemma_digits_in_run(s: Seq<char>, at: int)
    requires
        0 <= at <= s.len(),
    ensures
        forall|i: int| at <= i < spec_skip_digits(s, at) ==> is_digit(#[trigger] s[i]),
    decreases s.len() - at,
{
    if at < s.len() && is_digit(s[at]) {
        lemma_digits_in_run(s, at + 1);
    }
}

} // verus!
