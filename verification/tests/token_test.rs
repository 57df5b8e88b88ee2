use pigin::model::{
    Check, MoveQualifier, Movement, Piece, PieceColour, PieceType, PlyMovement, Position,
};
use pigin::parse::{
    get_col_from_char, get_row_from_char, parse_colour, parse_piece_type, parse_ply,
    parse_position, ParseError,
};

fn movement(piece_type: PieceType, position: Position) -> Movement {
    Movement::new(Piece::new(PieceColour::White, piece_type), position)
}

fn plain(piece_type: PieceType, position: Position, qualifier: Option<MoveQualifier>) -> PlyMovement {
    PlyMovement::Move {
        movement: movement(piece_type, position),
        qualifier,
        capture: false,
        check: None,
    }
}

fn capture(piece_type: PieceType, position: Position, qualifier: Option<MoveQualifier>) -> PlyMovement {
    PlyMovement::Move {
        movement: movement(piece_type, position),
        qualifier,
        capture: true,
        check: None,
    }
}

fn read(text: &str) -> PlyMovement {
    parse_ply(text, PieceColour::White).unwrap()
}

#[test]
fn parse_parses_string_to_piece_colour() {
    assert_eq!(parse_colour("w"), Ok(PieceColour::White))
}

#[test]
fn parse_returns_error_when_not_valid_piece_colour() {
    assert_eq!(
        parse_colour("invalid"),
        Err(ParseError("'invalid' is not a valid colour".to_string()))
    )
}

#[test]
fn parse_parses_string_to_piece_type() {
    assert_eq!(parse_piece_type("B"), Ok(PieceType::Bishop))
}

#[test]
fn parse_returns_error_when_not_valid_piece_type() {
    assert_eq!(
        parse_piece_type("invalid"),
        Err(ParseError(
            "'invalid' is not a valid piece type".to_string()
        ))
    )
}

#[test]
fn piece_parses_string_to_piece_colour() {
    assert_eq!(parse_colour("w"), Ok(PieceColour::White));
    assert_eq!(parse_colour("b"), Ok(PieceColour::Black));
}

#[test]
fn piece_returns_error_when_not_valid_piece_colour() {
    assert_eq!(
        parse_colour("invalid"),
        Err(ParseError("'invalid' is not a valid colour".to_string()))
    );
    assert_eq!(
        parse_colour(""),
        Err(ParseError("'' is not a valid colour".to_string()))
    );
    assert_eq!(
        parse_colour("W"),
        Err(ParseError("'W' is not a valid colour".to_string()))
    );
}

#[test]
fn piece_parses_string_to_piece_type() {
    assert_eq!(parse_piece_type("B"), Ok(PieceType::Bishop));
    assert_eq!(parse_piece_type("P"), Ok(PieceType::Pawn));
    assert_eq!(parse_piece_type("N"), Ok(PieceType::Knight));
    assert_eq!(parse_piece_type("R"), Ok(PieceType::Rook));
    assert_eq!(parse_piece_type("Q"), Ok(PieceType::Queen));
    assert_eq!(parse_piece_type("K"), Ok(PieceType::King));
}

#[test]
fn piece_returns_error_when_not_valid_piece_type() {
    assert_eq!(
        parse_piece_type("invalid"),
        Err(ParseError(
            "'invalid' is not a valid piece type".to_string()
        ))
    );
    assert_eq!(
        parse_piece_type("b"),
        Err(ParseError("'b' is not a valid piece type".to_string()))
    );
}

#[test]
fn creates_position_from_string() {
    let position = parse_position("a4").unwrap();

    assert_eq!(position, Position::new(3, 0))
}

#[test]
fn fails_if_position_string_is_too_long() {
    let position = parse_position("a45");

    assert_eq!(
        position,
        Err(ParseError("String 'a45' should be length 2".to_string()))
    )
}

#[test]
fn fails_if_position_string_is_too_short() {
    let position = parse_position("a");

    assert_eq!(
        position,
        Err(ParseError("String 'a' should be length 2".to_string()))
    )
}

#[test]
fn fails_if_not_valid_position() {
    let position = parse_position("a9");

    assert_eq!(
        position,
        Err(ParseError("'9' is not a valid row".to_string()))
    );
    assert_eq!(
        parse_position("j4"),
        Err(ParseError("'j' is not a valid column".to_string()))
    );
    assert_eq!(
        parse_position("j9"),
        Err(ParseError("'9' is not a valid row".to_string()))
    );
}

#[test]
fn reads_file_letters_and_rank_digits() {
    assert_eq!(get_col_from_char('a'), Ok(0));
    assert_eq!(get_col_from_char('h'), Ok(7));
    assert_eq!(
        get_col_from_char('i'),
        Err(ParseError("'i' is not a valid column".to_string()))
    );
    assert_eq!(get_row_from_char('1'), Ok(0));
    assert_eq!(get_row_from_char('8'), Ok(7));
    assert_eq!(
        get_row_from_char('0'),
        Err(ParseError("'0' is not a valid row".to_string()))
    );
}

#[test]
fn parse_parses_kingside_castle() {
    let ply = read("O-O");
    assert_eq!(
        ply,
        PlyMovement::KingsideCastle {
            colour: PieceColour::White,
            check: None
        }
    )
}

#[test]
fn parse_parses_queenside_castle() {
    let ply = read("O-O-O");
    assert_eq!(
        ply,
        PlyMovement::QueensideCastle {
            colour: PieceColour::White,
            check: None
        }
    )
}

#[test]
fn parse_parses_pawn_move() {
    let ply = read("e4");
    assert_eq!(ply, plain(PieceType::Pawn, Position::new(3, 4), None))
}

#[test]
fn parse_parses_piece_move() {
    let ply = read("Be5");
    assert_eq!(ply, plain(PieceType::Bishop, Position::new(4, 4), None))
}

#[test]
fn parse_parses_piece_move_with_column_qualifier() {
    let ply = read("Rde5");
    assert_eq!(
        ply,
        plain(
            PieceType::Rook,
            Position::new(4, 4),
            Some(MoveQualifier::Col(3))
        )
    )
}

#[test]
fn parse_parses_piece_move_with_row_qualifier() {
    let ply = read("Q6e5");
    assert_eq!(
        ply,
        plain(
            PieceType::Queen,
            Position::new(4, 4),
            Some(MoveQualifier::Row(5))
        )
    )
}

#[test]
fn parse_parses_piece_move_with_position_qualifier() {
    let ply = read("Nf3e5");
    assert_eq!(
        ply,
        plain(
            PieceType::Knight,
            Position::new(4, 4),
            Some(MoveQualifier::Position(Position::new(2, 5)))
        )
    )
}

#[test]
fn parse_parses_pawn_capture() {
    let ply = read("exd5");
    assert_eq!(
        ply,
        capture(
            PieceType::Pawn,
            Position::new(4, 3),
            Some(MoveQualifier::Col(4))
        )
    )
}

#[test]
fn parses_piece_capture() {
    let ply = read("Bxd5");
    assert_eq!(ply, capture(PieceType::Bishop, Position::new(4, 3), None))
}

#[test]
fn parses_piece_capture_with_column_qualifier() {
    let ply = read("Rdxe5");
    assert_eq!(
        ply,
        capture(
            PieceType::Rook,
            Position::new(4, 4),
            Some(MoveQualifier::Col(3))
        )
    )
}

#[test]
fn parses_piece_capture_with_row_qualifier() {
    let ply = read("R2xe5");
    assert_eq!(
        ply,
        capture(
            PieceType::Rook,
            Position::new(4, 4),
            Some(MoveQualifier::Row(1))
        )
    )
}

#[test]
fn parses_piece_capture_with_position_qualifier() {
    let ply = read("Qe2xe5");
    assert_eq!(
        ply,
        capture(
            PieceType::Queen,
            Position::new(4, 4),
            Some(MoveQualifier::Position(Position::new(1, 4)))
        )
    )
}

#[test]
fn parses_pawn_promotion() {
    let ply = read("e8=Q");
    assert_eq!(
        ply,
        PlyMovement::Promotion {
            movement: movement(PieceType::Pawn, Position::new(7, 4)),
            promotes_to: PieceType::Queen,
            qualifier: None,
            capture: false,
            check: None,
        }
    )
}

#[test]
fn parse_parses_pawn_capture_with_promotion() {
    let ply = read("exd8=N");
    assert_eq!(
        ply,
        PlyMovement::Promotion {
            movement: movement(PieceType::Pawn, Position::new(7, 3)),
            promotes_to: PieceType::Knight,
            qualifier: Some(MoveQualifier::Col(4)),
            capture: true,
            check: None,
        }
    )
}

#[test]
fn whole_token_must_be_a_ply() {
    assert_eq!(
        parse_ply("e4 ", PieceColour::White),
        Err(ParseError("'e4 ' could not be parsed".to_string()))
    );
    assert_eq!(
        parse_ply("", PieceColour::White),
        Err(ParseError("'' could not be parsed".to_string()))
    );
    assert_eq!(
        parse_ply("O-O-", PieceColour::White),
        Err(ParseError("'O-O-' could not be parsed".to_string()))
    );
    assert_eq!(
        parse_ply("e8=", PieceColour::Black),
        Err(ParseError("'e8=' could not be parsed".to_string()))
    );
    assert_eq!(
        parse_ply("0-0-0#", PieceColour::Black),
        Ok(PlyMovement::QueensideCastle {
            colour: PieceColour::Black,
            check: Some(Check::Checkmate)
        })
    );
    assert_eq!(
        parse_ply("O-O+", PieceColour::Black),
        Ok(PlyMovement::KingsideCastle {
            colour: PieceColour::Black,
            check: Some(Check::Check)
        })
    );
}

#[test]
fn parses_pieces_from_string() {
    let pieces = pigin::parse::parse_pieces_from_string("r2b2q/5PN").unwrap();
    let expected = vec![
        (Piece::new(PieceColour::Black, PieceType::Rook), Position::new(7, 0)),
        (Piece::new(PieceColour::Black, PieceType::Bishop), Position::new(7, 3)),
        (Piece::new(PieceColour::Black, PieceType::Queen), Position::new(7, 6)),
        (Piece::new(PieceColour::White, PieceType::Pawn), Position::new(6, 5)),
        (Piece::new(PieceColour::White, PieceType::Knight), Position::new(6, 6)),
    ];
    assert_eq!(pieces, expected)
}

#[test]
fn refuses_pieces_that_cannot_be_placed() {
    assert_eq!(
        pigin::parse::parse_pieces_from_string("r2x"),
        Err(ParseError("'x' is not a valid piece type".to_string()))
    );
    assert_eq!(
        pigin::parse::parse_pieces_from_string("8p w"),
        Err(ParseError("' ' is not a valid piece type".to_string()))
    );
    assert_eq!(
        pigin::parse::parse_pieces_from_string("8p"),
        Err(ParseError("Invalid position: (7, 8)".to_string()))
    );
    assert_eq!(pigin::parse::parse_pieces_from_string(""), Ok(vec![]));
    assert_eq!(pigin::parse::parse_pieces_from_string("8/8/44"), Ok(vec![]));
}
