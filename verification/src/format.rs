use crate::engine::error::{push_square, square_text};
use crate::model::board::{AvailableCastle, Board, BoardView};
use crate::model::piece::{Piece, PieceColour, PieceType};
use crate::model::position::{group_position, Position};
use crate::text::{natural_text, push_natural, string_from_chars};
use vstd::prelude::*;
use vstd::string::StringExecFns;

verus! {

broadcast use group_position;

/// The letter of a piece in a position record: lower case for Black,
/// upper case for White.
pub open spec fn spec_to_char(piece: Piece) -> char {
    match (piece.colour, piece.piece_type) {
        (PieceColour::Black, PieceType::Pawn) => 'p',
        (PieceColour::Black, PieceType::Knight) => 'n',
        (PieceColour::Black, PieceType::Bishop) => 'b',
        (PieceColour::Black, PieceType::Rook) => 'r',
        (PieceColour::Black, PieceType::Queen) => 'q',
        (PieceColour::Black, PieceType::King) => 'k',
        (PieceColour::White, PieceType::Pawn) => 'P',
        (PieceColour::White, PieceType::Knight) => 'N',
        (PieceColour::White, PieceType::Bishop) => 'B',
        (PieceColour::White, PieceType::Rook) => 'R',
        (PieceColour::White, PieceType::Queen) => 'Q',
        (PieceColour::White, PieceType::King) => 'K',
    }
}

/// The letter of a castle right in a position record.
pub open spec fn castle_letter(castle: AvailableCastle) -> char {
    match castle {
        AvailableCastle::WhiteKingside => 'K',
        AvailableCastle::WhiteQueenside => 'Q',
        AvailableCastle::BlackKingside => 'k',
        AvailableCastle::BlackQueenside => 'q',
    }
}

/// The castling field: `-` for no right, else the letters of the rights in
/// the order given.
pub open spec fn spec_castling_availability(castles: Seq<AvailableCastle>) -> Seq<char> {
    if castles.len() == 0 {
        seq!['-']
    } else {
        castles.map_values(|castle: AvailableCastle| castle_letter(castle))
    }
}

/// The digit that stands for a run of `count` empty squares.
pub open spec fn count_char(count: int) -> char {
    if count == 1 {
        '1'
    } else if count == 2 {
        '2'
    } else if count == 3 {
        '3'
    } else if count == 4 {
        '4'
    } else if count == 5 {
        '5'
    } else if count == 6 {
        '6'
    } else if count == 7 {
        '7'
    } else {
        '8'
    }
}

/// What is written for a run of `empty` squares: its digit, or nothing for
/// no square.
pub open spec fn run_text(empty: int) -> Seq<char> {
    if empty > 0 {
        seq![count_char(empty)]
    } else {
        Seq::empty()
    }
}

/// The text of row `row` from column `col` on, where `empty` empty squares
/// stand before that column and are not written yet.
pub open spec fn spec_row_text(board: BoardView, row: int, col: int, empty: int) -> Seq<char>
    decreases 8 - col,
{
    if col >= 8 {
        run_text(empty)
    } else {
        match board.occupant(Position::at(row, col)) {
            Some(piece) => run_text(empty) + seq![spec_to_char(piece)] + spec_row_text(
                board,
                row,
                col + 1,
                0,
            ),
            None => spec_row_text(board, row, col + 1, empty + 1),
        }
    }
}

/// The text of the rows from `row` down to row 0, with `/` between them.
pub open spec fn spec_rows_text(board: BoardView, row: int) -> Seq<char>
    decreases row,
{
    if row <= 0 {
        spec_row_text(board, 0, 0, 0)
    } else {
        spec_row_text(board, row, 0, 0) + seq!['/'] + spec_rows_text(board, row - 1)
    }
}

/// The piece placement of a board: its rows from the top, each from file
/// `a`, with a letter for a piece and a digit for a run of empty squares.
pub open spec fn spec_pieces(board: BoardView) -> Seq<char> {
    spec_rows_text(board, 7)
}

/// The position record of a board: piece placement, side to move, castle
/// rights, en-passant target and the two clocks, with one space between
/// them.
pub open spec fn spec_from_board(board: BoardView) -> Seq<char> {
    spec_pieces(board) + " "@ + (match board.active_colour {
        PieceColour::White => "w"@,
        PieceColour::Black => "b"@,
    }) + " "@ + spec_castling_availability(board.castle_list()) + " "@ + (
    match board.en_passant_square {
        Some(position) => square_text(position),
        None => "-"@,
    }) + " "@ + natural_text(board.halfmove_clock) + " "@ + natural_text(board.fullmove_clock)
}

pub fn to_char(piece: &Piece) -> (letter: char)
    ensures
        letter == spec_to_char(*piece),
{
    match (piece.colour, piece.piece_type) {
        (PieceColour::Black, PieceType::Pawn) => 'p',
        (PieceColour::Black, PieceType::Knight) => 'n',
        (PieceColour::Black, PieceType::Bishop) => 'b',
        (PieceColour::Black, PieceType::Rook) => 'r',
        (PieceColour::Black, PieceType::Queen) => 'q',
        (PieceColour::Black, PieceType::King) => 'k',
        (PieceColour::White, PieceType::Pawn) => 'P',
        (PieceColour::White, PieceType::Knight) => 'N',
        (PieceColour::White, PieceType::Bishop) => 'B',
        (PieceColour::White, PieceType::Rook) => 'R',
        (PieceColour::White, PieceType::Queen) => 'Q',
        (PieceColour::White, PieceType::King) => 'K',
    }
}

pub fn castling_availability(available_castles: &[AvailableCastle]) -> (text: String)
    ensures
        text@ == spec_castling_availability(available_castles@),
{
    let mut letters: Vec<char> = Vec::new();
    if available_castles.len() == 0 {
        letters.push('-');
        assert(letters@ =~= seq!['-']);
        return string_from_chars(letters.as_slice());
    }
    let mut index: usize = 0;
    while index < available_castles.len()
        invariant
            index <= available_castles.len(),
            letters@ == available_castles@.take(index as int).map_values(
                |castle: AvailableCastle| castle_letter(castle),
            ),
        decreases available_castles.len() - index,
    {
        let letter = match available_castles[index] {
            AvailableCastle::WhiteKingside => 'K',
            AvailableCastle::WhiteQueenside => 'Q',
            AvailableCastle::BlackKingside => 'k',
            AvailableCastle::BlackQueenside => 'q',
        };
        letters.push(letter);
        assert(letters@ =~= available_castles@.take(index + 1).map_values(
            |castle: AvailableCastle| castle_letter(castle),
        ));
        index += 1;
    }
    assert(available_castles@.take(index as int) =~= available_castles@);
    string_from_chars(letters.as_slice())
}

fn push_run(letters: &mut Vec<char>, empty: u8)
    requires
        empty <= 8,
    ensures
        final(letters)@ == old(letters)@ + run_text(empty as int),
{
    if empty > 0 {
        let digit = if empty == 1 {
            '1'
        } else if empty == 2 {
            '2'
        } else if empty == 3 {
            '3'
        } else if empty == 4 {
            '4'
        } else if empty == 5 {
            '5'
        } else if empty == 6 {
            '6'
        } else if empty == 7 {
            '7'
        } else {
            '8'
        };
        letters.push(digit);
        assert(letters@ =~= old(letters)@ + seq![digit]);
    } else {
        assert(letters@ =~= old(letters)@ + Seq::<char>::empty());
    }
}

fn push_row(letters: &mut Vec<char>, board: &Board, row: i8)
    requires
        0 <= row <= 7,
    ensures
        final(letters)@ == old(letters)@ + spec_row_text(board@, row as int, 0, 0),
{
    let mut empty: u8 = 0;
    let mut col: i8 = 0;
    while col < 8
        invariant
            0 <= row <= 7,
            0 <= col <= 8,
            empty <= col,
            letters@ + spec_row_text(board@, row as int, col as int, empty as int) == old(
                letters,
            )@ + spec_row_text(board@, row as int, 0, 0),
        decreases 8 - col,
    {
        let ghost before = letters@;
        match board.occupant(Position::new(row, col)) {
            Some(piece) => {
                push_run(letters, empty);
                letters.push(to_char(piece));
                proof {
                    let rest = spec_row_text(board@, row as int, col + 1, 0);
                    assert(before + (run_text(empty as int) + seq![spec_to_char(*piece)] + rest)
                        =~= letters@ + rest);
                }
                empty = 0;
            },
            None => {
                empty = empty + 1;
            },
        }
        col = col + 1;
    }
    let ghost before = letters@;
    push_run(letters, empty);
}

/// The piece placement of `board`.
pub fn pieces(board: &Board) -> (text: String)
    ensures
        text@ == spec_pieces(board@),
{
    let mut letters: Vec<char> = Vec::new();
    let mut row: i8 = 7;
    assert(letters@ + spec_rows_text(board@, 7) =~= spec_pieces(board@));
    while row > 0
        invariant
            0 <= row <= 7,
            letters@ + spec_rows_text(board@, row as int) == spec_pieces(board@),
        decreases row,
    {
        let ghost before = letters@;
        push_row(&mut letters, board, row);
        letters.push('/');
        proof {
            let rest = spec_rows_text(board@, row - 1);
            assert(before + (spec_row_text(board@, row as int, 0, 0) + seq!['/'] + rest)
                =~= letters@ + rest);
        }
        row = row - 1;
    }
    push_row(&mut letters, board, 0);
    string_from_chars(letters.as_slice())
}

/// The position record of `board`.
pub fn from_board(board: &Board) -> (text: String)
    ensures
        text@ == spec_from_board(board@),
{
    let mut text = pieces(board);
    text.append(" ");
    match board.active_colour() {
        PieceColour::White => text.append("w"),
        PieceColour::Black => text.append("b"),
    }
    text.append(" ");
    let castles = board.available_castles();
    let castling = castling_availability(castles.as_slice());
    text.append(castling.as_str());
    text.append(" ");
    match board.en_passant_square() {
        Some(position) => push_square(&mut text, *position),
        None => text.append("-"),
    }
    text.append(" ");
    push_natural(&mut text, board.halfmove_clock() as u64);
    text.append(" ");
    push_natural(&mut text, board.fullmove_clock() as u64);
    text
}

} // verus!
