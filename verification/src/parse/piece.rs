use crate::model::piece::{PieceColour, PieceType};
use crate::parse::error::{not_valid, refuse, ParseError};
use crate::text::chars_of;
use vstd::prelude::*;

verus! {

/// The side that a text names: `w` or `b`.
pub open spec fn spec_parse_colour(s: Seq<char>) -> Option<PieceColour> {
    if s == seq!['w'] {
        Some(PieceColour::White)
    } else if s == seq!['b'] {
        Some(PieceColour::Black)
    } else {
        None
    }
}

/// The kind of piece that a text names: `P`, `N`, `B`, `R`, `Q` or `K`.
pub open spec fn spec_parse_piece_type(s: Seq<char>) -> Option<PieceType> {
    if s == seq!['P'] {
        Some(PieceType::Pawn)
    } else if s == seq!['N'] {
        Some(PieceType::Knight)
    } else if s == seq!['B'] {
        Some(PieceType::Bishop)
    } else if s == seq!['R'] {
        Some(PieceType::Rook)
    } else if s == seq!['Q'] {
        Some(PieceType::Queen)
    } else if s == seq!['K'] {
        Some(PieceType::King)
    } else {
        None
    }
}

pub fn parse_colour(s: &str) -> (result: Result<PieceColour, ParseError>)
    ensures
        match result {
            Ok(colour) => spec_parse_colour(s@) == Some(colour),
            Err(error) => spec_parse_colour(s@) is None && error@ == not_valid(s@, "colour"@),
        },
{
    let chars = chars_of(s);
    if chars.len() == 1 {
        let c = chars[0];
        assert(s@ =~= seq![c]);
        if c == 'w' {
            return Ok(PieceColour::White);
        }
        if c == 'b' {
            return Ok(PieceColour::Black);
        }
        assert(seq![c] != seq!['w'] && seq![c] != seq!['b']) by {
            assert(seq![c][0] == c);
            assert(seq!['w'][0] == 'w');
            assert(seq!['b'][0] == 'b');
        }
    } else {
        assert(seq!['w'].len() == 1 && seq!['b'].len() == 1);
    }
    Err(refuse(s, "colour"))
}

pub fn parse_piece_type(s: &str) -> (result: Result<PieceType, ParseError>)
    ensures
        match result {
            Ok(piece_type) => spec_parse_piece_type(s@) == Some(piece_type),
            Err(error) => spec_parse_piece_type(s@) is None && error@ == not_valid(
                s@,
                "piece type"@,
            ),
        },
{
    let chars = chars_of(s);
    assert(seq!['P'][0] == 'P' && seq!['N'][0] == 'N' && seq!['B'][0] == 'B' && seq!['R'][0]
        == 'R' && seq!['Q'][0] == 'Q' && seq!['K'][0] == 'K');
    assert(seq!['P'].len() == 1 && seq!['N'].len() == 1 && seq!['B'].len() == 1 && seq![
        'R',
    ].len() == 1 && seq!['Q'].len() == 1 && seq!['K'].len() == 1);
    if chars.len() == 1 {
        let c = chars[0];
        assert(s@ =~= seq![c]);
        assert(seq![c][0] == c);
        if c == 'P' {
            return Ok(PieceType::Pawn);
        }
        if c == 'N' {
            return Ok(PieceType::Knight);
        }
        if c == 'B' {
            return Ok(PieceType::Bishop);
        }
        if c == 'R' {
            return Ok(PieceType::Rook);
        }
        if c == 'Q' {
            return Ok(PieceType::Queen);
        }
        if c == 'K' {
            return Ok(PieceType::King);
        }
    }
    Err(refuse(s, "piece type"))
}

} // verus!
