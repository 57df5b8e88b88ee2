use crate::text::{integer_text, push_integer, string_from_chars, substring};
use vstd::prelude::*;
use vstd::string::StringExecFns;

verus! {

/// Why a text could not be read as game records.
#[derive(Debug, PartialEq, Eq, Clone)]
pub enum PgnParseError {
    /// A rule of the grammar failed: which part was being read, and the
    /// text at which it failed.
    UnexpectedToken { context: String, offending_prefix: String },
    /// A prefix was read, and text is left over.
    TrailingInput { offending_prefix: String },
    /// A piece was to be placed on a square that the board does not have.
    InvalidSquare { row: i8, col: i8 },
    /// A field does not hold what it must.
    InvalidField { field_name: String, value: String },
    /// A tag that every game needs is not there.
    MissingTag { name: String },
}

/// A `PgnParseError` with its texts as sequences of characters.
pub ghost enum ParseErrorView {
    UnexpectedToken { context: Seq<char>, offending_prefix: Seq<char> },
    TrailingInput { offending_prefix: Seq<char> },
    InvalidSquare { row: i8, col: i8 },
    InvalidField { field_name: Seq<char>, value: Seq<char> },
    MissingTag { name: Seq<char> },
}

impl View for PgnParseError {
    type V = ParseErrorView;

    open spec fn view(&self) -> ParseErrorView {
        match *self {
            PgnParseError::UnexpectedToken {
                context,
                offending_prefix,
            } => ParseErrorView::UnexpectedToken {
                context: context@,
                offending_prefix: offending_prefix@,
            },
            PgnParseError::TrailingInput { offending_prefix } => ParseErrorView::TrailingInput {
                offending_prefix: offending_prefix@,
            },
            PgnParseError::InvalidSquare { row, col } => ParseErrorView::InvalidSquare { row, col },
            PgnParseError::InvalidField { field_name, value } => ParseErrorView::InvalidField {
                field_name: field_name@,
                value: value@,
            },
            PgnParseError::MissingTag { name } => ParseErrorView::MissingTag { name: name@ },
        }
    }
}

/// How many characters of the input an error quotes at most.
pub const PREFIX_LENGTH: usize = 40;

/// The text from `at` on, cut after `PREFIX_LENGTH` characters.
pub open spec fn prefix_of(s: Seq<char>, at: int) -> Seq<char> {
    if at < 0 || at >= s.len() {
        Seq::empty()
    } else if s.len() - at <= PREFIX_LENGTH {
        s.subrange(at, s.len() as int)
    } else {
        s.subrange(at, at + PREFIX_LENGTH)
    }
}

/// The text from `at` on, cut after `PREFIX_LENGTH` characters.
pub fn prefix(input: &[char], at: usize) -> (text: String)
    ensures
        text@ == prefix_of(input@, at as int),
{
    if at >= input.len() {
        let text = String::new();
        assert(text@ =~= Seq::<char>::empty());
        text
    } else if input.len() - at <= PREFIX_LENGTH {
        substring(input, at, input.len())
    } else {
        substring(input, at, at + PREFIX_LENGTH)
    }
}

impl ParseErrorView {
    /// The sentence that `PgnParseError::message` returns.
    pub open spec fn message(self) -> Seq<char> {
        match self {
            ParseErrorView::UnexpectedToken { context, offending_prefix } => "Failed to parse "@
                + context + " at '"@ + offending_prefix + "'"@,
            ParseErrorView::TrailingInput { offending_prefix } => "Input left over: '"@
                + offending_prefix + "'"@,
            ParseErrorView::InvalidSquare { row, col } => "Invalid position: ("@ + integer_text(
                row as int,
            ) + ", "@ + integer_text(col as int) + ")"@,
            ParseErrorView::InvalidField { field_name, value } => "'"@ + value
                + "' is not a valid "@ + field_name,
            ParseErrorView::MissingTag { name } => "Missing '"@ + name + "' tag"@,
        }
    }
}

impl PgnParseError {
    /// A sentence for a person, saying what went wrong.
    pub fn message(&self) -> (message: String)
        ensures
            message@ == self@.message(),
    {
        match self {
            PgnParseError::UnexpectedToken { context, offending_prefix } => {
                let mut message = String::from_str("Failed to parse ");
                message.append(context.as_str());
                message.append(" at '");
                message.append(offending_prefix.as_str());
                message.append("'");
                message
            },
            PgnParseError::TrailingInput { offending_prefix } => {
                let mut message = String::from_str("Input left over: '");
                message.append(offending_prefix.as_str());
                message.append("'");
                message
            },
            PgnParseError::InvalidSquare { row, col } => {
                let mut message = String::from_str("Invalid position: (");
                push_integer(&mut message, *row as i64);
                message.append(", ");
                push_integer(&mut message, *col as i64);
                message.append(")");
                message
            },
            PgnParseError::InvalidField { field_name, value } => {
                let mut message = String::from_str("'");
                message.append(value.as_str());
                message.append("' is not a valid ");
                message.append(field_name.as_str());
                message
            },
            PgnParseError::MissingTag { name } => {
                let mut message = String::from_str("Missing '");
                message.append(name.as_str());
                message.append("' tag");
                message
            },
        }
    }
}

/// Why a single token could not be read: a sentence that quotes it.
#[derive(Debug, PartialEq, Eq, Clone)]
pub struct ParseError(pub String);

impl View for ParseError {
    type V = Seq<char>;

    open spec fn view(&self) -> Seq<char> {
        self.0@
    }
}

/// The sentence that refuses `text` as a `what`.
pub open spec fn not_valid(text: Seq<char>, what: Seq<char>) -> Seq<char> {
    "'"@ + text + "' is not a valid "@ + what
}

/// The error that refuses `text` as a `what`.
pub fn refuse(text: &str, what: &str) -> (error: ParseError)
    ensures
        error@ == not_valid(text@, what@),
{
    let mut message = String::from_str("'");
    message.append(text);
    message.append("' is not a valid ");
    message.append(what);
    ParseError(message)
}

/// The error that refuses the character `c` as a `what`.
pub fn refuse_char(c: char, what: &str) -> (error: ParseError)
    ensures
        error@ == not_valid(seq![c], what@),
{
    let mut single: Vec<char> = Vec::new();
    single.push(c);
    assert(single@ =~= seq![c]);
    let text = string_from_chars(single.as_slice());
    refuse(text.as_str(), what)
}

} // verus!
