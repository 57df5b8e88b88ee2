use vstd::prelude::*;

verus! {

#[derive(Debug, PartialEq, Eq, Clone, Copy, Structural)]
pub enum PieceColour {
    Black,
    White,
}

impl PieceColour {
    /// The other side.
    pub open spec fn spec_opposite(self) -> PieceColour {
        match self {
            PieceColour::White => PieceColour::Black,
            PieceColour::Black => PieceColour::White,
        }
    }

    #[verifier::when_used_as_spec(spec_opposite)]
    pub fn opposite(self) -> (other: PieceColour)
        ensures
            other == self.spec_opposite(),
    {
        match self {
            PieceColour::White => PieceColour::Black,
            PieceColour::Black => PieceColour::White,
        }
    }
}

#[derive(Debug, PartialEq, Eq, Clone, Copy, Structural)]
pub enum PieceType {
    Pawn,
    Knight,
    Bishop,
    Rook,
    Queen,
    King,
}

/// A piece is its colour and its kind; two pieces are equal when both agree.
#[derive(Debug, PartialEq, Eq, Clone, Copy, Structural)]
pub struct Piece {
    pub colour: PieceColour,
    pub piece_type: PieceType,
}

impl Piece {
    pub fn new(piece_colour: PieceColour, piece_type: PieceType) -> (piece: Piece)
        ensures
            piece == (Piece { colour: piece_colour, piece_type }),
    {
        Piece { colour: piece_colour, piece_type }
    }

    pub fn colour(&self) -> (colour: &PieceColour)
        ensures
            *colour == self.colour,
    {
        &self.colour
    }

    pub fn piece_type(&self) -> (piece_type: &PieceType)
        ensures
            *piece_type == self.piece_type,
    {
        &self.piece_type
    }
}

} // verus!
