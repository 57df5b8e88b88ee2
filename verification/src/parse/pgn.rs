use crate::model::pgn::{lookup, without, Pgn, PgnView, Tags};
use crate::model::ply::{ply_views, Ply, PlyView};
use crate::parse::error::{prefix, prefix_of, ParseErrorView, PgnParseError};
use crate::parse::fen;
use crate::parse::movement;
use crate::parse::result;
use crate::parse::scan::{skip_line_endings, spec_skip_line_endings};
use crate::parse::tag;
use crate::text::chars_of;
use vstd::prelude::*;
use vstd::string::StringExecFns;

verus! {

/// The position record of a game that names none: the usual starting
/// position.
pub const DEFAULT_FEN: &'static str = "rnbqkbnr/pppppppp/8/8/8/8/PPPPPPPP/RNBQKBNR w KQkq - 0 1";

/// The position record that the tags give, or the usual starting position.
pub open spec fn fen_text(tags: Seq<(Seq<char>, Seq<char>)>) -> Seq<char> {
    match lookup(tags, "FEN"@) {
        Some(text) => text,
        None => DEFAULT_FEN@,
    }
}

/// What the tags make of a game whose tag section and move text have been
/// read. The `FEN` tag gives the starting position and the `Result` tag,
/// which must be there, the result; both leave the tags.
pub open spec fn spec_assemble(
    tags: Seq<(Seq<char>, Seq<char>)>,
    plies: Seq<PlyView>,
) -> Result<PgnView, ParseErrorView> {
    let remaining = without(tags, "FEN"@);
    match fen::spec_parse_fen(fen_text(tags)) {
        Err(error) => Err(error),
        Ok(fen) => match lookup(remaining, "Result"@) {
            None => Err(ParseErrorView::MissingTag { name: "Result"@ }),
            Some(text) => match result::spec_parse_result(text) {
                None => Err(ParseErrorView::InvalidField { field_name: "Result"@, value: text }),
                Some(result) => Ok(
                    PgnView { tags: without(remaining, "Result"@), fen, result, ply: plies },
                ),
            },
        },
    }
}

/// One game from `at` on: the tag section, the move text, and the line
/// endings behind it, as many as there are. A section that cannot be read
/// is named with the text at which it starts.
pub open spec fn spec_parse(s: Seq<char>, at: int) -> Result<(PgnView, int), ParseErrorView> {
    match tag::spec_parse(s, at) {
        None => Err(
            ParseErrorView::UnexpectedToken {
                context: "tag section"@,
                offending_prefix: prefix_of(s, at),
            },
        ),
        Some((tags, after_tags)) => match movement::spec_parse(s, after_tags) {
            None => Err(
                ParseErrorView::UnexpectedToken {
                    context: "move text"@,
                    offending_prefix: prefix_of(s, after_tags),
                },
            ),
            Some((plies, after_moves)) => match spec_assemble(tags, plies) {
                Err(error) => Err(error),
                Ok(game) => Ok((game, spec_skip_line_endings(s, after_moves))),
            },
        },
    }
}

/// Whether a parser returned the game that the rules say and the same
/// index behind it, or the same error.
pub open spec fn game_matches(
    result: Result<(Pgn, usize), PgnParseError>,
    expected: Result<(PgnView, int), ParseErrorView>,
) -> bool {
    match result {
        Ok((game, next)) => expected == Ok::<(PgnView, int), ParseErrorView>((game@, next as int)),
        Err(error) => expected == Err::<(PgnView, int), ParseErrorView>(error@),
    }
}

/// Whether the replay of a game has room in its clocks: each can count
/// once for every ply.
pub open spec fn replayable(game: PgnView) -> bool {
    &&& game.fen.starting_board.halfmove_clock + game.ply.len() <= usize::MAX
    &&& game.fen.starting_board.fullmove_clock + game.ply.len() <= usize::MAX
}

fn assemble(mut tags: Tags, plies: Vec<Ply>) -> (result: Result<Pgn, PgnParseError>)
    ensures
        result is Ok ==> fen::within_clock_limit(result->Ok_0@.fen),
        match result {
            Ok(game) => spec_assemble(tags@, ply_views(plies@)) == Ok::<PgnView, ParseErrorView>(
                game@,
            ),
            Err(error) => spec_assemble(tags@, ply_views(plies@)) == Err::<
                PgnView,
                ParseErrorView,
            >(error@),
        },
{
    let fen_text = match tags.remove("FEN") {
        Some(text) => text,
        None => DEFAULT_FEN.to_owned(),
    };
    let fen = match fen::parse(fen_text.as_str()) {
        Ok(fen) => fen,
        Err(error) => {
            return Err(error);
        },
    };
    let result_text = match tags.remove("Result") {
        Some(text) => text,
        None => {
            return Err(PgnParseError::MissingTag { name: String::from_str("Result") });
        },
    };
    let result_chars = chars_of(result_text.as_str());
    let result = match result::parse_result(result_chars.as_slice()) {
        Some(result) => result,
        None => {
            return Err(
                PgnParseError::InvalidField {
                    field_name: String::from_str("Result"),
                    value: result_text,
                },
            );
        },
    };
    Ok(Pgn::new(tags, fen, result, plies))
}

/// Reads the game that starts at `at`.
pub fn parse(input: &[char], at: usize) -> (result: Result<(Pgn, usize), PgnParseError>)
    ensures
        game_matches(result, spec_parse(input@, at as int)),
        result is Ok ==> at < (result->Ok_0).1 <= input@.len(),
        result is Ok ==> replayable((result->Ok_0).0@),
{
    let length = input.len();
    let (tags, after_tags) = match tag::parse(input, at) {
        Some(found) => found,
        None => {
            return Err(
                PgnParseError::UnexpectedToken {
                    context: String::from_str("tag section"),
                    offending_prefix: prefix(input, at),
                },
            );
        },
    };
    let (plies, after_moves) = match movement::parse(input, after_tags) {
        Some(found) => found,
        None => {
            return Err(
                PgnParseError::UnexpectedToken {
                    context: String::from_str("move text"),
                    offending_prefix: prefix(input, after_tags),
                },
            );
        },
    };
    match assemble(tags, plies) {
        Ok(game) => Ok((game, skip_line_endings(input, after_moves))),
        Err(error) => Err(error),
    }
}

} // verus!
