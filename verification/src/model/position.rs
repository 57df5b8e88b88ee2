use crate::text::{integer_text, push_integer};
use vstd::prelude::*;
use vstd::string::StringExecFns;

verus! {

pub const MIN_POSITION: i8 = 0;

pub const MAX_POSITION: i8 = 7;

/// Whether `(row, col)` names one of the 64 squares.
pub open spec fn on_board(row: int, col: int) -> bool {
    0 <= row <= 7 && 0 <= col <= 7
}

/// The coordinates that were refused when a square was asked for.
#[derive(Debug, PartialEq, Eq, Clone, Copy, Structural)]
pub struct InvalidPositionError {
    pub row: i8,
    pub col: i8,
}

impl InvalidPositionError {
    pub fn new(row: i8, col: i8) -> (error: InvalidPositionError)
        ensures
            error == (InvalidPositionError { row, col }),
    {
        InvalidPositionError { row, col }
    }

    /// What `message` returns.
    pub open spec fn spec_message(self) -> Seq<char> {
        "Invalid position: ("@ + integer_text(self.row as int) + ", "@ + integer_text(
            self.col as int,
        ) + ")"@
    }

    pub fn message(&self) -> (message: String)
        ensures
            message@ == self.spec_message(),
    {
        let mut message = String::from_str("Invalid position: (");
        push_integer(&mut message, self.row as i64);
        message.append(", ");
        push_integer(&mut message, self.col as i64);
        message.append(")");
        message
    }
}

/// A square of the board. Row 0 is White's back rank, column 0 is file `a`.
#[derive(Debug, PartialEq, Eq, Clone, Copy, Hash, Structural)]
pub struct Position {
    row: i8,
    col: i8,
}

impl View for Position {
    type V = (int, int);

    /// The pair `(row, col)`.
    closed spec fn view(&self) -> (int, int) {
        (self.row as int, self.col as int)
    }
}

impl Position {
    /// Both coordinates lie on the board. Every `Position` that executable
    /// code holds satisfies this.
    #[verifier::type_invariant]
    pub closed spec fn wf(self) -> bool {
        on_board(self.row as int, self.col as int)
    }

    /// The square with the given coordinates.
    pub closed spec fn at(row: int, col: int) -> Position {
        Position { row: row as i8, col: col as i8 }
    }

    /// The square at index `row * 8 + col`.
    pub open spec fn nth(index: int) -> Position {
        Position::at(index / 8, index % 8)
    }

    /// `row * 8 + col`.
    pub open spec fn index(self) -> int {
        self@.0 * 8 + self@.1
    }

    pub broadcast proof fn lemma_at(row: int, col: int)
        requires
            on_board(row, col),
        ensures
            (#[trigger] Position::at(row, col))@ == (row, col),
            Position::at(row, col).wf(),
    {
    }

    pub broadcast proof fn lemma_wf(self)
        requires
            #[trigger] self.wf(),
        ensures
            on_board(self@.0, self@.1),
            Position::at(self@.0, self@.1) == self,
    {
    }

    /// Panic-free construction: the coordinates must lie on the board.
    pub fn new(row: i8, col: i8) -> (position: Position)
        requires
            on_board(row as int, col as int),
        ensures
            position == Position::at(row as int, col as int),
    {
        Position { row, col }
    }

    pub fn try_from(row: i8, col: i8) -> (result: Result<Position, InvalidPositionError>)
        ensures
            on_board(row as int, col as int) ==> result == Ok::<
                Position,
                InvalidPositionError,
            >(Position::at(row as int, col as int)),
            !on_board(row as int, col as int) ==> result == Err::<
                Position,
                InvalidPositionError,
            >(InvalidPositionError { row, col }),
    {
        if is_invalid(row, col) {
            return Err(InvalidPositionError::new(row, col));
        }
        Ok(Position { row, col })
    }

    pub fn row(&self) -> (row: i8)
        ensures
            row == self@.0,
            self.wf(),
            on_board(self@.0, self@.1),
    {
        proof {
            use_type_invariant(self);
        }
        self.row
    }

    pub fn col(&self) -> (col: i8)
        ensures
            col == self@.1,
            self.wf(),
            on_board(self@.0, self@.1),
    {
        proof {
            use_type_invariant(self);
        }
        self.col
    }
}

pub fn is_invalid(row: i8, col: i8) -> (invalid: bool)
    ensures
        invalid == !on_board(row as int, col as int),
{
    row < MIN_POSITION || row > MAX_POSITION || col < MIN_POSITION || col > MAX_POSITION
}

pub broadcast group group_position {
    Position::lemma_at,
    Position::lemma_wf,
}

} // verus!
