use crate::model::piece::{Piece, PieceColour, PieceType};
use crate::model::position::Position;
use crate::text::{digit_text, natural_text, push_natural};
use vstd::prelude::*;
use vstd::string::StringExecFns;

verus! {

#[derive(Debug, PartialEq, Eq, Clone, Copy, Structural)]
pub enum CastleSide {
    Kingside,
    Queenside,
}

/// Why a ply could not be played.
#[derive(Debug, PartialEq, Eq, Clone)]
pub enum EngineError {
    /// A castle was asked for whose right the board no longer has.
    IllegalCastle(PieceColour, CastleSide),
    /// The side of the moving piece has no king on the board.
    NoKing(PieceColour),
    /// No piece of that colour and kind can go to the target.
    NoCandidate(Piece, Position),
    /// Several pieces can, and the ply does not single one out.
    AmbiguousPly(Piece, Position, Vec<Position>),
}

/// An `EngineError` with its candidates as a sequence.
pub ghost enum EngineErrorView {
    IllegalCastle(PieceColour, CastleSide),
    NoKing(PieceColour),
    NoCandidate(Piece, Position),
    AmbiguousPly(Piece, Position, Seq<Position>),
}

impl View for EngineError {
    type V = EngineErrorView;

    open spec fn view(&self) -> EngineErrorView {
        match *self {
            EngineError::IllegalCastle(colour, side) => EngineErrorView::IllegalCastle(colour, side),
            EngineError::NoKing(colour) => EngineErrorView::NoKing(colour),
            EngineError::NoCandidate(piece, target) => EngineErrorView::NoCandidate(piece, target),
            EngineError::AmbiguousPly(piece, target, candidates) => EngineErrorView::AmbiguousPly(
                piece,
                target,
                candidates@,
            ),
        }
    }
}

pub open spec fn colour_text(colour: PieceColour) -> Seq<char> {
    match colour {
        PieceColour::White => "White"@,
        PieceColour::Black => "Black"@,
    }
}

pub open spec fn piece_type_text(piece_type: PieceType) -> Seq<char> {
    match piece_type {
        PieceType::Pawn => "pawn"@,
        PieceType::Knight => "knight"@,
        PieceType::Bishop => "bishop"@,
        PieceType::Rook => "rook"@,
        PieceType::Queen => "queen"@,
        PieceType::King => "king"@,
    }
}

pub open spec fn side_text(side: CastleSide) -> Seq<char> {
    match side {
        CastleSide::Kingside => "Kingside"@,
        CastleSide::Queenside => "Queenside"@,
    }
}

pub open spec fn file_text(col: int) -> Seq<char> {
    if col == 0 {
        "a"@
    } else if col == 1 {
        "b"@
    } else if col == 2 {
        "c"@
    } else if col == 3 {
        "d"@
    } else if col == 4 {
        "e"@
    } else if col == 5 {
        "f"@
    } else if col == 6 {
        "g"@
    } else {
        "h"@
    }
}

/// A square as algebraic notation writes it: file letter, then rank digit.
pub open spec fn square_text(position: Position) -> Seq<char> {
    file_text(position@.1) + digit_text(position@.0 + 1)
}

impl EngineErrorView {
    /// The sentence that `EngineError::message` returns.
    pub open spec fn message(self) -> Seq<char> {
        match self {
            EngineErrorView::IllegalCastle(colour, side) => side_text(side) + " castle for "@
                + colour_text(colour) + " is not a legal move"@,
            EngineErrorView::NoKing(colour) => "Could not locate king of colour "@ + colour_text(
                colour,
            ),
            EngineErrorView::NoCandidate(piece, target) => "No "@ + colour_text(piece.colour)
                + " "@ + piece_type_text(piece.piece_type) + " can move to "@ + square_text(
                target,
            ),
            EngineErrorView::AmbiguousPly(piece, target, candidates) => "Cannot tell which "@
                + colour_text(piece.colour) + " "@ + piece_type_text(piece.piece_type)
                + " moves to "@ + square_text(target) + ": "@ + natural_text(candidates.len())
                + " candidates"@,
        }
    }
}

fn colour_str(colour: PieceColour) -> (text: &'static str)
    ensures
        text@ == colour_text(colour),
{
    match colour {
        PieceColour::White => "White",
        PieceColour::Black => "Black",
    }
}

fn piece_type_str(piece_type: PieceType) -> (text: &'static str)
    ensures
        text@ == piece_type_text(piece_type),
{
    match piece_type {
        PieceType::Pawn => "pawn",
        PieceType::Knight => "knight",
        PieceType::Bishop => "bishop",
        PieceType::Rook => "rook",
        PieceType::Queen => "queen",
        PieceType::King => "king",
    }
}

fn file_str(col: i8) -> (text: &'static str)
    ensures
        text@ == file_text(col as int),
{
    if col == 0 {
        "a"
    } else if col == 1 {
        "b"
    } else if col == 2 {
        "c"
    } else if col == 3 {
        "d"
    } else if col == 4 {
        "e"
    } else if col == 5 {
        "f"
    } else if col == 6 {
        "g"
    } else {
        "h"
    }
}

/// Appends `position` in algebraic notation to `out`.
pub fn push_square(out: &mut String, position: Position)
    ensures
        final(out)@ == old(out)@ + square_text(position),
{
    out.append(file_str(position.col()));
    let rank: u64 = (position.row() + 1) as u64;
    proof {
        reveal_with_fuel(natural_text, 1);
    }
    push_natural(out, rank);
    assert(old(out)@ + square_text(position) =~= old(out)@ + file_text(position@.1) + digit_text(
        position@.0 + 1,
    ));
}

impl EngineError {
    /// A sentence for a person, saying what went wrong.
    pub fn message(&self) -> (message: String)
        ensures
            message@ == self@.message(),
    {
        match self {
            EngineError::IllegalCastle(colour, side) => {
                let mut message = match side {
                    CastleSide::Kingside => String::from_str("Kingside"),
                    CastleSide::Queenside => String::from_str("Queenside"),
                };
                message.append(" castle for ");
                message.append(colour_str(*colour));
                message.append(" is not a legal move");
                message
            },
            EngineError::NoKing(colour) => {
                let mut message = String::from_str("Could not locate king of colour ");
                message.append(colour_str(*colour));
                message
            },
            EngineError::NoCandidate(piece, target) => {
                let mut message = String::from_str("No ");
                message.append(colour_str(piece.colour));
                message.append(" ");
                message.append(piece_type_str(piece.piece_type));
                message.append(" can move to ");
                push_square(&mut message, *target);
                message
            },
            EngineError::AmbiguousPly(piece, target, candidates) => {
                let mut message = String::from_str("Cannot tell which ");
                message.append(colour_str(piece.colour));
                message.append(" ");
                message.append(piece_type_str(piece.piece_type));
                message.append(" moves to ");
                push_square(&mut message, *target);
                message.append(": ");
                push_natural(&mut message, candidates.len() as u64);
                message.append(" candidates");
                message
            },
        }
    }
}

} // verus!
