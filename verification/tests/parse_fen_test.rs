use pigin::model::{AvailableCastle, Board, Fen, Piece, PieceColour, PieceType, Position};
use pigin::parse::error::PgnParseError;
use pigin::parse::fen::{
    active_colour, available_castles, board_from, empty_spaces, en_passant_square,
    fen_characters, fullmove_number, halfmove_clock, new_row, parse, piece, FenCharacter,
};

fn chars(text: &str) -> Vec<char> {
    text.chars().collect()
}

fn rest(input: &[char], at: usize) -> String {
    input[at..].iter().collect()
}

#[test]
fn returns_err_if_not_fen() {
    let result = parse("something");
    assert!(result.is_err())
}

#[test]
fn returns_err_if_whole_input_not_consumed() {
    let fen_string = "r7/8/8/8/8/8/8/6K1 b Qk d4 12 5 something";
    let result = parse(fen_string);
    assert!(result.is_err());
    assert_eq!(
        result,
        Err(PgnParseError::TrailingInput {
            offending_prefix: " something".to_string()
        })
    );
}

#[test]
fn parses_fen() {
    let fen_string = "r7/8/8/8/8/8/8/6K1 b Qk d4 12 5";
    let result = parse(fen_string).unwrap();

    let mut board_builder = Board::builder();
    board_builder.available_castles(vec![
        AvailableCastle::WhiteQueenside,
        AvailableCastle::BlackKingside,
    ]);
    board_builder.en_passant_square(Position::new(3, 3));
    board_builder.piece(
        Piece::new(PieceColour::Black, PieceType::Rook),
        Position::new(7, 0),
    );
    board_builder.piece(
        Piece::new(PieceColour::White, PieceType::King),
        Position::new(0, 6),
    );
    board_builder.active_colour(PieceColour::Black);
    board_builder.halfmove_clock(12);
    board_builder.fullmove_clock(5);

    let starting_board = board_builder.build();

    assert_eq!(result, Fen::new(starting_board, PieceColour::Black, 5))
}

#[test]
fn adds_available_castles() {
    let result = board_from(Vec::new(), vec![AvailableCastle::BlackQueenside], None).unwrap();
    assert_eq!(
        result.available_castles(),
        &[AvailableCastle::BlackQueenside]
    )
}

#[test]
fn adds_en_passant_square_if_present() {
    let result = board_from(Vec::new(), Vec::new(), Some(Position::new(0, 0))).unwrap();
    assert_eq!(result.en_passant_square(), Some(&Position::new(0, 0,)))
}

#[test]
fn populates_board_from_fen_string() {
    let fen_characters = vec![
        FenCharacter::Empty(6),
        FenCharacter::Piece(Piece::new(PieceColour::Black, PieceType::Bishop)),
        FenCharacter::NewRow,
        FenCharacter::Empty(2),
        FenCharacter::Piece(Piece::new(PieceColour::White, PieceType::Knight)),
    ];

    let mut board_builder = Board::builder();
    board_builder.piece(
        Piece::new(PieceColour::Black, PieceType::Bishop),
        Position::new(7, 6),
    );
    board_builder.piece(
        Piece::new(PieceColour::White, PieceType::Knight),
        Position::new(6, 2),
    );
    let expected = board_builder.build();

    let result = board_from(fen_characters, Vec::new(), None).unwrap();

    assert_eq!(result, expected)
}

#[test]
fn returns_err_if_invalid_fen_characters() {
    let fen_characters = vec![
        FenCharacter::Empty(9),
        FenCharacter::Piece(Piece::new(PieceColour::Black, PieceType::Queen)),
    ];
    let result = board_from(fen_characters, Vec::new(), None);

    assert!(result.is_err());
    assert_eq!(result, Err(PgnParseError::InvalidSquare { row: 7, col: 9 }));
}

#[test]
fn fen_returns_error_if_not_fen_characters() {
    let input = chars("something else");
    let result = fen_characters(&input, 0);
    assert!(result.is_none())
}

#[test]
fn fen_parses_fen_characters() {
    let input = chars("p7/B6n something");
    let (found, next) = fen_characters(&input, 0).unwrap();
    let expected = vec![
        FenCharacter::Piece(Piece::new(PieceColour::Black, PieceType::Pawn)),
        FenCharacter::Empty(7),
        FenCharacter::NewRow,
        FenCharacter::Piece(Piece::new(PieceColour::White, PieceType::Bishop)),
        FenCharacter::Empty(6),
        FenCharacter::Piece(Piece::new(PieceColour::Black, PieceType::Knight)),
    ];
    assert_eq!((rest(&input, next).as_str(), found), ("something", expected))
}

#[test]
fn fen_returns_error_if_not_new_row() {
    let input = chars("p/");
    let result = new_row(&input, 0);
    assert!(result.is_none())
}

#[test]
fn fen_parses_new_row() {
    let input = chars("/8");
    let (found, next) = new_row(&input, 0).unwrap();
    assert_eq!((rest(&input, next).as_str(), found), ("8", FenCharacter::NewRow))
}

#[test]
fn fen_returns_error_if_not_empty_space() {
    let input = chars("0");
    let result = empty_spaces(&input, 0);
    assert!(result.is_none())
}

#[test]
fn fen_parses_empty_spaces() {
    let input = chars("5/");
    let (found, next) = empty_spaces(&input, 0).unwrap();
    assert_eq!((rest(&input, next).as_str(), found), ("/", FenCharacter::Empty(5)))
}

#[test]
fn fen_returns_error_if_not_piece() {
    let input = chars("jj");
    let result = piece(&input, 0);
    assert!(result.is_none())
}

#[test]
fn fen_parses_piece() {
    let input = chars("nj");
    let (found, next) = piece(&input, 0).unwrap();
    assert_eq!(
        (rest(&input, next).as_str(), found),
        (
            "j",
            FenCharacter::Piece(Piece::new(PieceColour::Black, PieceType::Knight,))
        )
    )
}

#[test]
fn fen_returns_error_if_not_active_colour() {
    let input = chars("c");
    let result = active_colour(&input, 0);
    assert!(result.is_none())
}

#[test]
fn fen_parses_active_colour() {
    let input = chars("b something");
    let (found, next) = active_colour(&input, 0).unwrap();
    assert_eq!((rest(&input, next).as_str(), found), ("something", PieceColour::Black))
}

#[test]
fn fen_returns_error_if_not_available_castles() {
    let input = chars("something ");
    let result = available_castles(&input, 0);
    assert!(result.is_none())
}

#[test]
fn fen_returns_empty_vec_if_no_available_castles() {
    let input = chars("- something");
    let (found, next) = available_castles(&input, 0).unwrap();
    assert_eq!((rest(&input, next).as_str(), found), ("something", Vec::new()))
}

#[test]
fn fen_parses_available_castles() {
    let input = chars("KQq something");
    let (found, next) = available_castles(&input, 0).unwrap();
    assert_eq!(
        (rest(&input, next).as_str(), found),
        (
            "something",
            vec![
                AvailableCastle::WhiteKingside,
                AvailableCastle::WhiteQueenside,
                AvailableCastle::BlackQueenside
            ]
        )
    )
}

#[test]
fn fen_returns_error_if_not_en_passent_square() {
    let input = chars("something ");
    let result = en_passant_square(&input, 0);
    assert!(result.is_none())
}

#[test]
fn fen_returns_none_if_no_en_passent_square() {
    let input = chars("- something");
    let (found, next) = en_passant_square(&input, 0).unwrap();
    assert_eq!((rest(&input, next).as_str(), found), ("something", None))
}

#[test]
fn fen_parses_some_en_passent_square() {
    let input = chars("e4 something");
    let (found, next) = en_passant_square(&input, 0).unwrap();
    assert_eq!(
        (rest(&input, next).as_str(), found),
        ("something", Some(Position::new(3, 4)))
    )
}

#[test]
fn clocks_fit_in_eight_bits() {
    assert_eq!(halfmove_clock(&chars("255 1"), 0), Some((255, 4)));
    assert_eq!(halfmove_clock(&chars("256 1"), 0), None);
    assert_eq!(halfmove_clock(&chars("12"), 0), None);
    assert_eq!(halfmove_clock(&chars(" 12 "), 0), None);
    assert_eq!(fullmove_number(&chars("007"), 0), Some((7, 3)));
    assert_eq!(fullmove_number(&chars("1000"), 0), None);
    assert_eq!(fullmove_number(&chars("-1"), 0), None);
    assert_eq!(fullmove_number(&chars("41x"), 0), Some((41, 2)));
}

fn invalid_field(name: &str, value: &str) -> Result<Fen, PgnParseError> {
    Err(PgnParseError::InvalidField {
        field_name: name.to_string(),
        value: value.to_string(),
    })
}

#[test]
fn names_the_field_that_is_wrong() {
    assert_eq!(parse("something"), invalid_field("piece placement", "something"));
    assert_eq!(parse(""), invalid_field("piece placement", ""));
    assert_eq!(parse("8/8/8/8/8/8/8/8"), invalid_field("piece placement", "8/8/8/8/8/8/8/8"));
    assert_eq!(parse("8/8/8/8/8/8/8/9 w - - 0 1"), invalid_field("piece placement", "8/8/8/8/8/8/8/9"));
    assert_eq!(parse("8/8 x - - 0 1"), invalid_field("active colour", "x"));
    assert_eq!(parse("8/8 white - - 0 1"), invalid_field("active colour", "white"));
    assert_eq!(parse("8/8 w KQx - 0 1"), invalid_field("castling availability", "KQx"));
    assert_eq!(parse("8/8 w  - 0 1"), invalid_field("castling availability", ""));
    assert_eq!(parse("8/8 w - e9 0 1"), invalid_field("en passant square", "e9"));
    assert_eq!(parse("8/8 w - - x 1"), invalid_field("halfmove clock", "x"));
    assert_eq!(parse("8/8 w - - 256 1"), invalid_field("halfmove clock", "256"));
    assert_eq!(parse("8/8 w - - 0"), invalid_field("halfmove clock", "0"));
    assert_eq!(parse("8/8 w - - 0 "), invalid_field("fullmove number", ""));
    assert_eq!(parse("8/8 w - - 0 one"), invalid_field("fullmove number", "one"));
    assert_eq!(
        parse("8/8 w - - 0 1x"),
        Err(PgnParseError::TrailingInput {
            offending_prefix: "x".to_string()
        })
    );
    assert_eq!(
        parse("ppppppppp/8 w - - 0 1"),
        Err(PgnParseError::InvalidSquare { row: 7, col: 8 })
    );
    assert_eq!(
        parse("8/8/8/8/8/8/8/8/p w - - 0 1"),
        Err(PgnParseError::InvalidSquare { row: -1, col: 0 })
    );
}

#[test]
fn parses_the_usual_starting_position() {
    let fen = parse("rnbqkbnr/pppppppp/8/8/8/8/PPPPPPPP/RNBQKBNR w KQkq - 0 1").unwrap();
    let board = fen.starting_board();
    assert_eq!(fen.active_colour(), &PieceColour::White);
    assert_eq!(fen.fullmove_clock(), 1);
    assert_eq!(board.active_colour(), &PieceColour::White);
    assert_eq!(board.halfmove_clock(), 0);
    assert_eq!(board.fullmove_clock(), 1);
    assert_eq!(board.en_passant_square(), None);
    assert_eq!(
        board.available_castles(),
        vec![
            AvailableCastle::WhiteKingside,
            AvailableCastle::WhiteQueenside,
            AvailableCastle::BlackKingside,
            AvailableCastle::BlackQueenside
        ]
    );
    assert_eq!(
        board.occupant(Position::new(0, 4)),
        Some(&Piece::new(PieceColour::White, PieceType::King))
    );
    assert_eq!(
        board.occupant(Position::new(7, 3)),
        Some(&Piece::new(PieceColour::Black, PieceType::Queen))
    );
    assert_eq!(board.occupant(Position::new(3, 3)), None);
    assert_eq!(
        board.search(Piece::new(PieceColour::White, PieceType::Pawn)).len(),
        8
    );
    assert_eq!(
        board.search(Piece::new(PieceColour::Black, PieceType::Rook)),
        vec![Position::new(7, 0), Position::new(7, 7)]
    );
}

#[test]
fn counters_stay_within_eight_bits() {
    let mut signs = Vec::new();
    for _ in 0..40 {
        signs.push(FenCharacter::Empty(8));
    }
    signs.push(FenCharacter::Piece(Piece::new(
        PieceColour::White,
        PieceType::Pawn,
    )));
    assert_eq!(
        board_from(signs, Vec::new(), None),
        Err(PgnParseError::InvalidSquare { row: 7, col: 127 })
    );
    let mut signs = Vec::new();
    for _ in 0..200 {
        signs.push(FenCharacter::NewRow);
    }
    signs.push(FenCharacter::Piece(Piece::new(
        PieceColour::White,
        PieceType::Pawn,
    )));
    assert_eq!(
        board_from(signs, Vec::new(), None),
        Err(PgnParseError::InvalidSquare { row: -128, col: 0 })
    );
}
