use crate::model::piece::{Piece, PieceColour, PieceType};
use crate::model::position::Position;
use vstd::prelude::*;

verus! {

/// A piece and the square it is to reach.
#[derive(Debug, PartialEq, Eq, Clone, Copy, Structural)]
pub struct Movement {
    pub piece: Piece,
    pub position: Position,
}

impl Movement {
    pub fn new(piece: Piece, position: Position) -> (movement: Movement)
        ensures
            movement == (Movement { piece, position }),
    {
        Movement { piece, position }
    }

    pub fn piece(&self) -> (piece: Piece)
        ensures
            piece == self.piece,
    {
        self.piece
    }

    pub fn position(&self) -> (position: Position)
        ensures
            position == self.position,
    {
        self.position
    }
}

/// What a ply says of the square its piece comes from.
#[derive(Debug, PartialEq, Eq, Clone, Copy, Structural)]
pub enum MoveQualifier {
    Row(i8),
    Col(i8),
    Position(Position),
}

#[derive(Debug, PartialEq, Eq, Clone, Copy, Structural)]
pub enum Check {
    Check,
    Checkmate,
}

/// One half-move as it is written: which piece goes where, with what the
/// notation adds. `capture` records the `x` mark and `check` the `+` or `#`;
/// neither is audited.
#[derive(Debug, PartialEq, Eq, Clone, Copy, Structural)]
pub enum PlyMovement {
    Move { movement: Movement, qualifier: Option<MoveQualifier>, capture: bool, check: Option<Check> },
    KingsideCastle { colour: PieceColour, check: Option<Check> },
    QueensideCastle { colour: PieceColour, check: Option<Check> },
    Promotion {
        movement: Movement,
        promotes_to: PieceType,
        qualifier: Option<MoveQualifier>,
        capture: bool,
        check: Option<Check>,
    },
}

impl PlyMovement {
    /// The side that the ply is written for.
    pub open spec fn colour(self) -> PieceColour {
        match self {
            PlyMovement::Move { movement, .. } => movement.piece.colour,
            PlyMovement::Promotion { movement, .. } => movement.piece.colour,
            PlyMovement::KingsideCastle { colour, .. } => colour,
            PlyMovement::QueensideCastle { colour, .. } => colour,
        }
    }
}

/// A ply with its move number and the comment that followed it.
#[derive(Debug, PartialEq, Eq, Clone)]
pub struct Ply {
    pub move_number: i16,
    pub movement: PlyMovement,
    pub comment: Option<String>,
}

impl Ply {
    pub fn new(move_number: i16, ply: PlyMovement, comment: Option<String>) -> (result: Ply)
        ensures
            result == (Ply { move_number, movement: ply, comment }),
    {
        Ply { move_number, movement: ply, comment }
    }

    pub fn move_number(&self) -> (move_number: i16)
        ensures
            move_number == self.move_number,
    {
        self.move_number
    }

    pub fn movement(&self) -> (movement: &PlyMovement)
        ensures
            *movement == self.movement,
    {
        &self.movement
    }

    pub fn comment(&self) -> (comment: Option<&String>)
        ensures
            comment == match self.comment {
                Some(text) => Some(&text),
                None => None,
            },
    {
        self.comment.as_ref()
    }
}

/// A ply with its comment as a sequence of characters.
pub ghost struct PlyView {
    pub move_number: int,
    pub movement: PlyMovement,
    pub comment: Option<Seq<char>>,
}

impl View for Ply {
    type V = PlyView;

    open spec fn view(&self) -> PlyView {
        PlyView {
            move_number: self.move_number as int,
            movement: self.movement,
            comment: match self.comment {
                Some(text) => Some(text@),
                None => None,
            },
        }
    }
}

/// The views of a list of plies, in order.
pub open spec fn ply_views(plies: Seq<Ply>) -> Seq<PlyView> {
    plies.map_values(|ply: Ply| ply@)
}

/// The movements of a list of plies, in order.
pub open spec fn movements(plies: Seq<Ply>) -> Seq<PlyMovement> {
    plies.map_values(|ply: Ply| ply.movement)
}

} // verus!
