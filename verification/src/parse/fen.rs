use crate::model::board::{AvailableCastle, Board, BoardView, Builder};
use crate::model::pgn::{Fen, FenView};
use crate::model::piece::{Piece, PieceColour, PieceType};
use crate::model::position::{group_position, on_board, Position};
use crate::parse::error::{
    not_valid, prefix, prefix_of, refuse_char, ParseError, ParseErrorView, PgnParseError,
};
use crate::parse::position;
use crate::parse::position::{advances, agrees};
use crate::parse::scan::{
    char_at, char_between, find_char, is_char, is_char_between, number, spec_find_char,
    spec_number,
};
use crate::text::{chars_of, push_integer, substring};
use vstd::prelude::*;
use vstd::string::StringExecFns;

verus! {

broadcast use group_position;

/// One sign of the piece placement of a position record.
#[derive(Debug, PartialEq, Eq, Clone, Copy, Structural)]
pub enum FenCharacter {
    Empty(i8),
    NewRow,
    Piece(Piece),
}

/// The largest value that a clock of a position record may have.
pub const MAX_CLOCK: u32 = 255;

/// `/`: the next row down.
pub open spec fn spec_new_row(s: Seq<char>, at: int) -> Option<(FenCharacter, int)> {
    if char_at(s, at, '/') {
        Some((FenCharacter::NewRow, at + 1))
    } else {
        None
    }
}

/// A digit `1` to `8`: so many empty squares.
pub open spec fn spec_empty_spaces(s: Seq<char>, at: int) -> Option<(FenCharacter, int)> {
    if char_between(s, at, '1', '8') {
        Some((FenCharacter::Empty((s[at] as u32 - '0' as u32) as i8), at + 1))
    } else {
        None
    }
}

/// The piece that a letter stands for: lower case for Black, upper case for
/// White.
pub open spec fn piece_of_letter(c: char) -> Option<Piece> {
    if c == 'p' {
        Some(Piece { colour: PieceColour::Black, piece_type: PieceType::Pawn })
    } else if c == 'n' {
        Some(Piece { colour: PieceColour::Black, piece_type: PieceType::Knight })
    } else if c == 'b' {
        Some(Piece { colour: PieceColour::Black, piece_type: PieceType::Bishop })
    } else if c == 'r' {
        Some(Piece { colour: PieceColour::Black, piece_type: PieceType::Rook })
    } else if c == 'q' {
        Some(Piece { colour: PieceColour::Black, piece_type: PieceType::Queen })
    } else if c == 'k' {
        Some(Piece { colour: PieceColour::Black, piece_type: PieceType::King })
    } else if c == 'P' {
        Some(Piece { colour: PieceColour::White, piece_type: PieceType::Pawn })
    } else if c == 'N' {
        Some(Piece { colour: PieceColour::White, piece_type: PieceType::Knight })
    } else if c == 'B' {
        Some(Piece { colour: PieceColour::White, piece_type: PieceType::Bishop })
    } else if c == 'R' {
        Some(Piece { colour: PieceColour::White, piece_type: PieceType::Rook })
    } else if c == 'Q' {
        Some(Piece { colour: PieceColour::White, piece_type: PieceType::Queen })
    } else if c == 'K' {
        Some(Piece { colour: PieceColour::White, piece_type: PieceType::King })
    } else {
        None
    }
}

/// A piece letter.
pub open spec fn spec_piece(s: Seq<char>, at: int) -> Option<(FenCharacter, int)> {
    if 0 <= at < s.len() && piece_of_letter(s[at]) is Some {
        Some((FenCharacter::Piece(piece_of_letter(s[at])->0), at + 1))
    } else {
        None
    }
}

/// One sign of the piece placement.
pub open spec fn spec_fen_character(s: Seq<char>, at: int) -> Option<(FenCharacter, int)> {
    match spec_new_row(s, at) {
        Some(found) => Some(found),
        None => match spec_empty_spaces(s, at) {
            Some(found) => Some(found),
            None => spec_piece(s, at),
        },
    }
}

/// The signs of the piece placement from `at` on, as many as there are,
/// and the index behind them.
pub open spec fn spec_fen_run(s: Seq<char>, at: int) -> (Seq<FenCharacter>, int)
    decreases s.len() - at,
{
    match spec_fen_character(s, at) {
        Some((sign, next)) => if at < next <= s.len() {
            let (rest, end) = spec_fen_run(s, next);
            (seq![sign] + rest, end)
        } else {
            (Seq::empty(), at)
        },
        None => (Seq::empty(), at),
    }
}

/// The piece placement: its signs, and the space behind them.
pub open spec fn spec_fen_characters(s: Seq<char>, at: int) -> Option<(Seq<FenCharacter>, int)> {
    let (signs, end) = spec_fen_run(s, at);
    if char_at(s, end, ' ') {
        Some((signs, end + 1))
    } else {
        None
    }
}

/// The side to move, `w` or `b`, and the space behind it.
pub open spec fn spec_active_colour(s: Seq<char>, at: int) -> Option<(PieceColour, int)> {
    if char_at(s, at, 'w') && char_at(s, at + 1, ' ') {
        Some((PieceColour::White, at + 2))
    } else if char_at(s, at, 'b') && char_at(s, at + 1, ' ') {
        Some((PieceColour::Black, at + 2))
    } else {
        None
    }
}

/// The letter of a castle right: `K`, `Q`, `k` or `q`.
pub open spec fn spec_available_castle(s: Seq<char>, at: int) -> Option<(AvailableCastle, int)> {
    if char_at(s, at, 'K') {
        Some((AvailableCastle::WhiteKingside, at + 1))
    } else if char_at(s, at, 'Q') {
        Some((AvailableCastle::WhiteQueenside, at + 1))
    } else if char_at(s, at, 'k') {
        Some((AvailableCastle::BlackKingside, at + 1))
    } else if char_at(s, at, 'q') {
        Some((AvailableCastle::BlackQueenside, at + 1))
    } else {
        None
    }
}

/// The castle letters from `at` on, as many as there are, and the index
/// behind them.
pub open spec fn spec_castle_run(s: Seq<char>, at: int) -> (Seq<AvailableCastle>, int)
    decreases s.len() - at,
{
    match spec_available_castle(s, at) {
        Some((castle, next)) => if at < next <= s.len() {
            let (rest, end) = spec_castle_run(s, next);
            (seq![castle] + rest, end)
        } else {
            (Seq::empty(), at)
        },
        None => (Seq::empty(), at),
    }
}

/// The castle rights, `-` for none or one letter or more, and the space
/// behind them.
pub open spec fn spec_available_castles(s: Seq<char>, at: int) -> Option<
    (Seq<AvailableCastle>, int),
> {
    if char_at(s, at, '-') {
        if char_at(s, at + 1, ' ') {
            Some((Seq::empty(), at + 2))
        } else {
            None
        }
    } else {
        let (castles, end) = spec_castle_run(s, at);
        if castles.len() > 0 && char_at(s, end, ' ') {
            Some((castles, end + 1))
        } else {
            None
        }
    }
}

/// The en-passant target, `-` for none or a square, and the space behind
/// it.
pub open spec fn spec_en_passant_square(s: Seq<char>, at: int) -> Option<(Option<Position>, int)> {
    if char_at(s, at, '-') {
        if char_at(s, at + 1, ' ') {
            Some((None, at + 2))
        } else {
            None
        }
    } else {
        match position::spec_parse(s, at) {
            Some((square, next)) => if char_at(s, next, ' ') {
                Some((Some(square), next + 1))
            } else {
                None
            },
            None => None,
        }
    }
}

/// The halfmove clock, a number of at most 255, and the space behind it.
pub open spec fn spec_halfmove_clock(s: Seq<char>, at: int) -> Option<(u8, int)> {
    match spec_number(s, at, MAX_CLOCK as nat) {
        Some((value, next)) => if char_at(s, next, ' ') {
            Some((value as u8, next + 1))
        } else {
            None
        },
        None => None,
    }
}

/// The fullmove number, a number of at most 255.
pub open spec fn spec_fullmove_number(s: Seq<char>, at: int) -> Option<(u8, int)> {
    match spec_number(s, at, MAX_CLOCK as nat) {
        Some((value, next)) => Some((value as u8, next)),
        None => None,
    }
}

/// `value` held to what a counter of eight bits can show.
pub open spec fn clamp(value: int) -> i8 {
    if value < -128 {
        -128i8
    } else if value > 127 {
        127i8
    } else {
        value as i8
    }
}

/// A board that is being filled, the square that comes next, and the
/// pieces placed so far with their squares.
pub ghost struct Layout {
    pub board: BoardView,
    pub row: i8,
    pub col: i8,
    pub placed: Seq<(Piece, Position)>,
}

/// What one sign does: `/` goes to the start of the next row down, a
/// count goes so many squares to the right, a piece is written on the
/// square, noted with it, and goes one to the right. A piece whose square is off the board
/// is refused with the coordinates of that square.
pub open spec fn spec_layout_step(layout: Layout, sign: FenCharacter) -> Result<
    Layout,
    ParseErrorView,
> {
    match sign {
        FenCharacter::NewRow => Ok(Layout { row: clamp(layout.row - 1), col: 0, ..layout }),
        FenCharacter::Empty(spaces) => Ok(Layout { col: clamp(layout.col + spaces), ..layout }),
        FenCharacter::Piece(piece) => if on_board(layout.row as int, layout.col as int) {
            Ok(
                Layout {
                    board: layout.board.add(
                        piece,
                        Position::at(layout.row as int, layout.col as int),
                    ),
                    col: clamp(layout.col + 1),
                    placed: layout.placed.push(
                        (piece, Position::at(layout.row as int, layout.col as int)),
                    ),
                    ..layout
                },
            )
        } else {
            Err(ParseErrorView::InvalidSquare { row: layout.row, col: layout.col })
        },
    }
}

/// `board` filled as `signs` say, from the top row and file `a`.
pub open spec fn spec_layout(board: BoardView, signs: Seq<FenCharacter>) -> Result<
    Layout,
    ParseErrorView,
>
    decreases signs.len(),
{
    if signs.len() == 0 {
        Ok(Layout { board, row: 7, col: 0, placed: Seq::empty() })
    } else {
        match spec_layout(board, signs.drop_last()) {
            Err(error) => Err(error),
            Ok(layout) => spec_layout_step(layout, signs.last()),
        }
    }
}

/// The board that a position record describes on its squares: the given
/// castle rights and en-passant target, and the pieces where the signs
/// put them. White is to move and the clocks are at 0 and 1.
pub open spec fn spec_board_from(
    signs: Seq<FenCharacter>,
    available_castles: Seq<AvailableCastle>,
    en_passant_square: Option<Position>,
) -> Result<BoardView, ParseErrorView> {
    let start = BoardView {
        available_castles: available_castles.to_set(),
        en_passant_square,
        ..BoardView::empty()
    };
    match spec_layout(start, signs) {
        Ok(layout) => Ok(layout.board),
        Err(error) => Err(error),
    }
}

/// The pieces that a piece placement puts on the board, each with its
/// square, in the order in which they are written. A character that is no
/// sign is refused, and so is a piece whose square is off the board.
pub open spec fn spec_parse_pieces(s: Seq<char>) -> Result<Seq<(Piece, Position)>, Seq<char>> {
    let (signs, end) = spec_fen_run(s, 0);
    if end < s.len() {
        Err(not_valid(seq![s[end]], "piece type"@))
    } else {
        match spec_layout(BoardView::empty(), signs) {
            Ok(layout) => Ok(layout.placed),
            Err(error) => Err(error.message()),
        }
    }
}

/// The text of the field that starts at `at`: up to the next space, or to
/// the end.
pub open spec fn field_text(s: Seq<char>, at: int) -> Seq<char> {
    if at < 0 || at > s.len() {
        Seq::empty()
    } else {
        match spec_find_char(s, at, ' ') {
            Some(end) => s.subrange(at, end),
            None => s.subrange(at, s.len() as int),
        }
    }
}

/// The error for a field that does not hold what it must.
pub open spec fn invalid_field<T>(name: Seq<char>, s: Seq<char>, at: int) -> Result<
    T,
    ParseErrorView,
> {
    Err(ParseErrorView::InvalidField { field_name: name, value: field_text(s, at) })
}

/// The six fields of a position record, as they are read one after the
/// other.
pub ghost struct FenFields {
    pub signs: Seq<FenCharacter>,
    pub active_colour: PieceColour,
    pub available_castles: Seq<AvailableCastle>,
    pub en_passant_square: Option<Position>,
    pub halfmove_clock: u8,
    pub fullmove_number: u8,
}

/// The fields of the record `s`. The first field that cannot be read is
/// named with its text; text behind the sixth field is refused.
pub open spec fn spec_fen_fields(s: Seq<char>) -> Result<FenFields, ParseErrorView> {
    match spec_fen_characters(s, 0) {
        None => invalid_field("piece placement"@, s, 0),
        Some((signs, after_signs)) => match spec_active_colour(s, after_signs) {
            None => invalid_field("active colour"@, s, after_signs),
            Some((active_colour, after_colour)) => match spec_available_castles(s, after_colour) {
                None => invalid_field("castling availability"@, s, after_colour),
                Some((available_castles, after_castles)) => match spec_en_passant_square(
                    s,
                    after_castles,
                ) {
                    None => invalid_field("en passant square"@, s, after_castles),
                    Some((en_passant_square, after_square)) => match spec_halfmove_clock(
                        s,
                        after_square,
                    ) {
                        None => invalid_field("halfmove clock"@, s, after_square),
                        Some((halfmove_clock, after_halfmove)) => match spec_fullmove_number(
                            s,
                            after_halfmove,
                        ) {
                            None => invalid_field("fullmove number"@, s, after_halfmove),
                            Some((fullmove_number, end)) => if end != s.len() {
                                Err(
                                    ParseErrorView::TrailingInput {
                                        offending_prefix: prefix_of(s, end),
                                    },
                                )
                            } else {
                                Ok(
                                    FenFields {
                                        signs,
                                        active_colour,
                                        available_castles,
                                        en_passant_square,
                                        halfmove_clock,
                                        fullmove_number,
                                    },
                                )
                            },
                        },
                    },
                },
            },
        },
    }
}

/// The starting position that the record `s` describes: the board with its
/// pieces, side to move, castle rights, en-passant target and clocks.
pub open spec fn spec_parse_fen(s: Seq<char>) -> Result<FenView, ParseErrorView> {
    match spec_fen_fields(s) {
        Err(error) => Err(error),
        Ok(fields) => match spec_board_from(
            fields.signs,
            fields.available_castles,
            fields.en_passant_square,
        ) {
            Err(error) => Err(error),
            Ok(board) => Ok(
                FenView {
                    starting_board: BoardView {
                        active_colour: fields.active_colour,
                        halfmove_clock: fields.halfmove_clock as nat,
                        fullmove_clock: fields.fullmove_number as nat,
                        ..board
                    },
                    active_colour: fields.active_colour,
                    fullmove_clock: fields.fullmove_number as nat,
                },
            ),
        },
    }
}

/// Whether the clocks of a position are such as a position record can
/// give: neither is above 255.
pub open spec fn within_clock_limit(fen: FenView) -> bool {
    &&& fen.starting_board.halfmove_clock <= MAX_CLOCK
    &&& fen.starting_board.fullmove_clock <= MAX_CLOCK
}

/// Whether a parser returned what the rules say: the same position, or
/// the same error.
pub open spec fn fen_matches(
    result: Result<Fen, PgnParseError>,
    expected: Result<FenView, ParseErrorView>,
) -> bool {
    match result {
        Ok(fen) => expected == Ok::<FenView, ParseErrorView>(fen@),
        Err(error) => expected == Err::<FenView, ParseErrorView>(error@),
    }
}

/// A layout that goes wrong on some signs goes wrong in the same way on any
/// longer list that starts with them.
pub proof fn lemma_layout_error_persists(board: BoardView, signs: Seq<FenCharacter>, count: int)
    requires
        0 <= count <= signs.len(),
        spec_layout(board, signs.take(count)) is Err,
    ensures
        spec_layout(board, signs) == spec_layout(board, signs.take(count)),
    decreases signs.len() - count,
{
    if count < signs.len() {
        assert(signs.take(count + 1).drop_last() =~= signs.take(count));
        lemma_layout_error_persists(board, signs, count + 1);
    } else {
        assert(signs.take(count) =~= signs);
    }
}

pub fn new_row(input: &[char], at: usize) -> (result: Option<(FenCharacter, usize)>)
    ensures
        agrees(result, spec_new_row(input@, at as int)),
        advances(result, at, input@.len()),
{
    if is_char(input, at, '/') {
        Some((FenCharacter::NewRow, at + 1))
    } else {
        None
    }
}

pub fn empty_spaces(input: &[char], at: usize) -> (result: Option<(FenCharacter, usize)>)
    ensures
        agrees(result, spec_empty_spaces(input@, at as int)),
        advances(result, at, input@.len()),
{
    if is_char_between(input, at, '1', '8') {
        let spaces: u32 = input[at] as u32 - '0' as u32;
        Some((FenCharacter::Empty(spaces as i8), at + 1))
    } else {
        None
    }
}

fn letter_piece(c: char) -> (piece: Option<Piece>)
    ensures
        piece == piece_of_letter(c),
{
    if c == 'p' {
        Some(Piece::new(PieceColour::Black, PieceType::Pawn))
    } else if c == 'n' {
        Some(Piece::new(PieceColour::Black, PieceType::Knight))
    } else if c == 'b' {
        Some(Piece::new(PieceColour::Black, PieceType::Bishop))
    } else if c == 'r' {
        Some(Piece::new(PieceColour::Black, PieceType::Rook))
    } else if c == 'q' {
        Some(Piece::new(PieceColour::Black, PieceType::Queen))
    } else if c == 'k' {
        Some(Piece::new(PieceColour::Black, PieceType::King))
    } else if c == 'P' {
        Some(Piece::new(PieceColour::White, PieceType::Pawn))
    } else if c == 'N' {
        Some(Piece::new(PieceColour::White, PieceType::Knight))
    } else if c == 'B' {
        Some(Piece::new(PieceColour::White, PieceType::Bishop))
    } else if c == 'R' {
        Some(Piece::new(PieceColour::White, PieceType::Rook))
    } else if c == 'Q' {
        Some(Piece::new(PieceColour::White, PieceType::Queen))
    } else if c == 'K' {
        Some(Piece::new(PieceColour::White, PieceType::King))
    } else {
        None
    }
}

pub fn piece(input: &[char], at: usize) -> (result: Option<(FenCharacter, usize)>)
    ensures
        agrees(result, spec_piece(input@, at as int)),
        advances(result, at, input@.len()),
{
    if at >= input.len() {
        return None;
    }
    match letter_piece(input[at]) {
        Some(piece) => Some((FenCharacter::Piece(piece), at + 1)),
        None => None,
    }
}

fn fen_character(input: &[char], at: usize) -> (result: Option<(FenCharacter, usize)>)
    ensures
        agrees(result, spec_fen_character(input@, at as int)),
        advances(result, at, input@.len()),
{
    match new_row(input, at) {
        Some(found) => Some(found),
        None => match empty_spaces(input, at) {
            Some(found) => Some(found),
            None => piece(input, at),
        },
    }
}

/// Reads the signs of a piece placement from `at` on, as many as there
/// are.
pub fn fen_run(input: &[char], at: usize) -> (result: (Vec<FenCharacter>, usize))
    ensures
        (result.0@, result.1 as int) == spec_fen_run(input@, at as int),
        at <= result.1,
        at <= input@.len() ==> result.1 <= input@.len(),
{
    let mut signs: Vec<FenCharacter> = Vec::new();
    let mut current = at;
    loop
        invariant
            at <= current,
            at <= input@.len() ==> current <= input@.len(),
            signs@ + spec_fen_run(input@, current as int).0 == spec_fen_run(input@, at as int).0,
            spec_fen_run(input@, current as int).1 == spec_fen_run(input@, at as int).1,
        decreases input@.len() - current,
    {
        match fen_character(input, current) {
            Some((sign, next)) => {
                proof {
                    let rest = spec_fen_run(input@, next as int).0;
                    assert(signs@ + (seq![sign] + rest) =~= signs@.push(sign) + rest);
                }
                signs.push(sign);
                current = next;
            },
            None => {
                assert(signs@ + Seq::<FenCharacter>::empty() =~= signs@);
                return (signs, current);
            },
        }
    }
}

pub fn fen_characters(input: &[char], at: usize) -> (result: Option<(Vec<FenCharacter>, usize)>)
    ensures
        result is Some ==> at < (result->0).1 <= input@.len(),
        match result {
            Some((signs, next)) => spec_fen_characters(input@, at as int) == Some(
                (signs@, next as int),
            ),
            None => spec_fen_characters(input@, at as int) is None,
        },
{
    let (signs, end) = fen_run(input, at);
    if is_char(input, end, ' ') {
        Some((signs, end + 1))
    } else {
        None
    }
}

pub fn active_colour(input: &[char], at: usize) -> (result: Option<(PieceColour, usize)>)
    ensures
        agrees(result, spec_active_colour(input@, at as int)),
        advances(result, at, input@.len()),
{
    if is_char(input, at, 'w') && is_char(input, at + 1, ' ') {
        Some((PieceColour::White, at + 2))
    } else if is_char(input, at, 'b') && is_char(input, at + 1, ' ') {
        Some((PieceColour::Black, at + 2))
    } else {
        None
    }
}

pub fn available_castle(input: &[char], at: usize) -> (result: Option<(AvailableCastle, usize)>)
    ensures
        agrees(result, spec_available_castle(input@, at as int)),
        advances(result, at, input@.len()),
{
    if is_char(input, at, 'K') {
        Some((AvailableCastle::WhiteKingside, at + 1))
    } else if is_char(input, at, 'Q') {
        Some((AvailableCastle::WhiteQueenside, at + 1))
    } else if is_char(input, at, 'k') {
        Some((AvailableCastle::BlackKingside, at + 1))
    } else if is_char(input, at, 'q') {
        Some((AvailableCastle::BlackQueenside, at + 1))
    } else {
        None
    }
}

pub fn available_castles(input: &[char], at: usize) -> (result: Option<
    (Vec<AvailableCastle>, usize),
>)
    ensures
        result is Some ==> at < (result->0).1 <= input@.len(),
        match result {
            Some((castles, next)) => spec_available_castles(input@, at as int) == Some(
                (castles@, next as int),
            ),
            None => spec_available_castles(input@, at as int) is None,
        },
{
    let mut castles: Vec<AvailableCastle> = Vec::new();
    if is_char(input, at, '-') {
        if is_char(input, at + 1, ' ') {
            assert(castles@ =~= Seq::<AvailableCastle>::empty());
            return Some((castles, at + 2));
        } else {
            return None;
        }
    }
    let mut current = at;
    loop
        invariant
            at <= current,
            !char_at(input@, at as int, '-'),
            castles@ + spec_castle_run(input@, current as int).0 == spec_castle_run(
                input@,
                at as int,
            ).0,
            spec_castle_run(input@, current as int).1 == spec_castle_run(input@, at as int).1,
        decreases input@.len() - current,
    {
        match available_castle(input, current) {
            Some((castle, next)) => {
                proof {
                    let rest = spec_castle_run(input@, next as int).0;
                    assert(castles@ + (seq![castle] + rest) =~= castles@.push(castle) + rest);
                }
                castles.push(castle);
                current = next;
            },
            None => {
                assert(castles@ + Seq::<AvailableCastle>::empty() =~= castles@);
                if castles.len() > 0 && is_char(input, current, ' ') {
                    return Some((castles, current + 1));
                } else {
                    return None;
                }
            },
        }
    }
}

pub fn en_passant_square(input: &[char], at: usize) -> (result: Option<(Option<Position>, usize)>)
    ensures
        agrees(result, spec_en_passant_square(input@, at as int)),
        advances(result, at, input@.len()),
{
    if is_char(input, at, '-') {
        if is_char(input, at + 1, ' ') {
            Some((None, at + 2))
        } else {
            None
        }
    } else {
        match position::parse(input, at) {
            Some((square, next)) => if is_char(input, next, ' ') {
                Some((Some(square), next + 1))
            } else {
                None
            },
            None => None,
        }
    }
}

pub fn halfmove_clock(input: &[char], at: usize) -> (result: Option<(u8, usize)>)
    ensures
        agrees(result, spec_halfmove_clock(input@, at as int)),
        advances(result, at, input@.len()),
{
    match number(input, at, MAX_CLOCK) {
        Some((value, next)) => if is_char(input, next, ' ') {
            Some((value as u8, next + 1))
        } else {
            None
        },
        None => None,
    }
}

pub fn fullmove_number(input: &[char], at: usize) -> (result: Option<(u8, usize)>)
    ensures
        agrees(result, spec_fullmove_number(input@, at as int)),
        advances(result, at, input@.len()),
{
    match number(input, at, MAX_CLOCK) {
        Some((value, next)) => Some((value as u8, next)),
        None => None,
    }
}

fn clamped(value: i16) -> (held: i8)
    ensures
        held == clamp(value as int),
{
    if value < -128 {
        -128
    } else if value > 127 {
        127
    } else {
        value as i8
    }
}

/// Builds the board of a position record from its signs, castle rights
/// and en-passant target.
#[verifier::loop_isolation(false)]
pub fn board_from(
    fen_characters: Vec<FenCharacter>,
    available_castles: Vec<AvailableCastle>,
    en_passant_square: Option<Position>,
) -> (result: Result<Board, PgnParseError>)
    ensures
        match result {
            Ok(board) => spec_board_from(fen_characters@, available_castles@, en_passant_square)
                == Ok::<BoardView, ParseErrorView>(board@),
            Err(error) => spec_board_from(fen_characters@, available_castles@, en_passant_square)
                == Err::<BoardView, ParseErrorView>(error@),
        },
{
    let ghost castles = available_castles@;
    let mut builder = Builder::new();
    builder.available_castles(available_castles);
    if let Some(position) = en_passant_square {
        builder.en_passant_square(position);
    }
    let ghost start = builder@;
    assert(start == (BoardView {
        available_castles: castles.to_set(),
        en_passant_square,
        ..BoardView::empty()
    }));

    let mut row: i8 = 7;
    let mut col: i8 = 0;
    let mut index: usize = 0;
    let ghost mut placed: Seq<(Piece, Position)> = Seq::empty();
    assert(fen_characters@.take(0) =~= Seq::<FenCharacter>::empty());
    while index < fen_characters.len()
        invariant
            index <= fen_characters.len(),
            spec_layout(start, fen_characters@.take(index as int)) == Ok::<
                Layout,
                ParseErrorView,
            >(Layout { board: builder@, row, col, placed }),
        decreases fen_characters.len() - index,
    {
        proof {
            assert(fen_characters@.take(index + 1).drop_last() =~= fen_characters@.take(
                index as int,
            ));
        }
        match fen_characters[index] {
            FenCharacter::NewRow => {
                row = clamped(row as i16 - 1);
                col = 0;
            },
            FenCharacter::Empty(spaces) => {
                col = clamped(col as i16 + spaces as i16);
            },
            FenCharacter::Piece(piece) => {
                if row < 0 || row > 7 || col < 0 || col > 7 {
                    proof {
                        lemma_layout_error_persists(start, fen_characters@, index + 1);
                    }
                    return Err(PgnParseError::InvalidSquare { row, col });
                }
                builder.piece(piece, Position::new(row, col));
                proof {
                    placed = placed.push((piece, Position::at(row as int, col as int)));
                }
                col = col + 1;
            },
        }
        index += 1;
    }
    proof {
        assert(fen_characters@.take(index as int) =~= fen_characters@);
    }
    Ok(builder.build())
}

/// Reads a piece placement that stands alone and lists its pieces with
/// their squares.
#[verifier::loop_isolation(false)]
pub fn parse_pieces_from_string(s: &str) -> (result: Result<Vec<(Piece, Position)>, ParseError>)
    ensures
        match result {
            Ok(pieces) => spec_parse_pieces(s@) == Ok::<Seq<(Piece, Position)>, Seq<char>>(
                pieces@,
            ),
            Err(error) => spec_parse_pieces(s@) == Err::<Seq<(Piece, Position)>, Seq<char>>(
                error@,
            ),
        },
{
    let chars = chars_of(s);
    let input = chars.as_slice();
    let (signs, end) = fen_run(input, 0);
    if end < input.len() {
        return Err(refuse_char(input[end], "piece type"));
    }
    let mut pieces: Vec<(Piece, Position)> = Vec::new();
    let mut row: i8 = 7;
    let mut col: i8 = 0;
    let mut index: usize = 0;
    let ghost mut board = BoardView::empty();
    assert(signs@.take(0) =~= Seq::<FenCharacter>::empty());
    while index < signs.len()
        invariant
            index <= signs.len(),
            spec_layout(BoardView::empty(), signs@.take(index as int)) == Ok::<
                Layout,
                ParseErrorView,
            >(Layout { board, row, col, placed: pieces@ }),
        decreases signs.len() - index,
    {
        proof {
            assert(signs@.take(index + 1).drop_last() =~= signs@.take(index as int));
        }
        match signs[index] {
            FenCharacter::NewRow => {
                row = clamped(row as i16 - 1);
                col = 0;
            },
            FenCharacter::Empty(spaces) => {
                col = clamped(col as i16 + spaces as i16);
            },
            FenCharacter::Piece(piece) => {
                if row < 0 || row > 7 || col < 0 || col > 7 {
                    proof {
                        lemma_layout_error_persists(BoardView::empty(), signs@, index + 1);
                    }
                    let mut message = String::from_str("Invalid position: (");
                    push_integer(&mut message, row as i64);
                    message.append(", ");
                    push_integer(&mut message, col as i64);
                    message.append(")");
                    return Err(ParseError(message));
                }
                let position = Position::new(row, col);
                pieces.push((piece, position));
                proof {
                    board = board.add(piece, position);
                }
                col = col + 1;
            },
        }
        index += 1;
    }
    proof {
        assert(signs@.take(index as int) =~= signs@);
    }
    Ok(pieces)
}

/// The text of the field that starts at `at`.
fn field(input: &[char], at: usize) -> (text: String)
    ensures
        text@ == field_text(input@, at as int),
{
    if at > input.len() {
        let text = String::new();
        assert(text@ =~= Seq::<char>::empty());
        return text;
    }
    match find_char(input, at, ' ') {
        Some(end) => substring(input, at, end),
        None => substring(input, at, input.len()),
    }
}

fn field_error(name: &str, input: &[char], at: usize) -> (error: PgnParseError)
    ensures
        error@ == (ParseErrorView::InvalidField {
            field_name: name@,
            value: field_text(input@, at as int),
        }),
{
    PgnParseError::InvalidField { field_name: String::from_str(name), value: field(input, at) }
}

/// Reads a position record: six fields with one space between them, and
/// nothing behind the last.
pub fn parse_fen(input: &[char]) -> (result: Result<Fen, PgnParseError>)
    ensures
        fen_matches(result, spec_parse_fen(input@)),
        result is Ok ==> within_clock_limit(result->Ok_0@),
{
    let (signs, after_signs) = match fen_characters(input, 0) {
        Some(found) => found,
        None => {
            return Err(field_error("piece placement", input, 0));
        },
    };
    let (colour, after_colour) = match active_colour(input, after_signs) {
        Some(found) => found,
        None => {
            return Err(field_error("active colour", input, after_signs));
        },
    };
    let (castles, after_castles) = match available_castles(input, after_colour) {
        Some(found) => found,
        None => {
            return Err(field_error("castling availability", input, after_colour));
        },
    };
    let (square, after_square) = match en_passant_square(input, after_castles) {
        Some(found) => found,
        None => {
            return Err(field_error("en passant square", input, after_castles));
        },
    };
    let (halfmove, after_halfmove) = match halfmove_clock(input, after_square) {
        Some(found) => found,
        None => {
            return Err(field_error("halfmove clock", input, after_square));
        },
    };
    let (fullmove, end) = match fullmove_number(input, after_halfmove) {
        Some(found) => found,
        None => {
            return Err(field_error("fullmove number", input, after_halfmove));
        },
    };
    if end != input.len() {
        return Err(PgnParseError::TrailingInput { offending_prefix: prefix(input, end) });
    }
    let mut board = match board_from(signs, castles, square) {
        Ok(board) => board,
        Err(error) => {
            return Err(error);
        },
    };
    board.update_active_colour(colour);
    board.update_halfmove_clock(halfmove as usize);
    board.update_fullmove_clock(fullmove as usize);
    Ok(Fen::new(board, colour, fullmove as usize))
}

/// Reads a position record from a string.
pub fn parse(input: &str) -> (result: Result<Fen, PgnParseError>)
    ensures
        fen_matches(result, spec_parse_fen(input@)),
        result is Ok ==> within_clock_limit(result->Ok_0@),
{
    let chars = chars_of(input);
    parse_fen(chars.as_slice())
}

} // verus!
