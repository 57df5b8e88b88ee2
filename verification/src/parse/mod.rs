use crate::model::pgn::{Pgn, PgnView};
use crate::parse::error::ParseErrorView;
use crate::text::chars_of;
use vstd::prelude::*;

pub mod error;
pub mod fen;
pub mod movement;
pub mod pgn;
pub mod piece;
pub mod ply;
pub mod position;
pub mod result;
pub mod scan;
pub mod tag;
pub mod token;

pub use error::{ParseError, PgnParseError};
pub use fen::{parse_fen, parse_pieces_from_string};
pub use piece::{parse_colour, parse_piece_type};
pub use token::{get_col_from_char, get_row_from_char, parse_ply, parse_position};

verus! {

/// The views of a list of games, in order.
pub open spec fn pgn_views(games: Seq<Pgn>) -> Seq<PgnView> {
    games.map_values(|game: Pgn| game@)
}

/// The games from `at` to the end of the text: one game, and where text
/// is left behind it, the games of that text. The first game that cannot
/// be read gives its error.
pub open spec fn spec_parse_games(s: Seq<char>, at: int) -> Result<Seq<PgnView>, ParseErrorView>
    decreases s.len() - at,
{
    match pgn::spec_parse(s, at) {
        Err(error) => Err(error),
        Ok((game, next)) => if next >= s.len() || next <= at {
            Ok(seq![game])
        } else {
            match spec_parse_games(s, next) {
                Ok(rest) => Ok(seq![game] + rest),
                Err(error) => Err(error),
            }
        },
    }
}

/// The games that a text holds: one or more, and nothing else.
pub open spec fn spec_parse(s: Seq<char>) -> Result<Seq<PgnView>, ParseErrorView> {
    spec_parse_games(s, 0)
}

/// Whether a parser returned the games that the rules say, or the same
/// error.
pub open spec fn games_match(
    result: Result<Vec<Pgn>, PgnParseError>,
    expected: Result<Seq<PgnView>, ParseErrorView>,
) -> bool {
    match result {
        Ok(games) => expected == Ok::<Seq<PgnView>, ParseErrorView>(pgn_views(games@)),
        Err(error) => expected == Err::<Seq<PgnView>, ParseErrorView>(error@),
    }
}

/// Reads the games of a text, one after the other to its end.
pub fn parse(input: &str) -> (result: Result<Vec<Pgn>, PgnParseError>)
    ensures
        games_match(result, spec_parse(input@)),
        result is Ok ==> result->Ok_0@.len() >= 1,
        result is Ok ==> forall|i: int|
            0 <= i < result->Ok_0@.len() ==> pgn::replayable(#[trigger] result->Ok_0@[i]@),
{
    let chars = chars_of(input);
    let text = chars.as_slice();
    let mut games: Vec<Pgn> = Vec::new();
    let mut current: usize = 0;
    assert(pgn_views(games@) =~= Seq::<PgnView>::empty());
    loop
        invariant
            text@ == input@,
            current <= text@.len(),
            forall|i: int| 0 <= i < games@.len() ==> pgn::replayable(#[trigger] games@[i]@),
            match spec_parse_games(text@, current as int) {
                Ok(rest) => spec_parse(text@) == Ok::<Seq<PgnView>, ParseErrorView>(
                    pgn_views(games@) + rest,
                ),
                Err(error) => spec_parse(text@) == Err::<Seq<PgnView>, ParseErrorView>(error),
            },
        decreases text@.len() - current,
    {
        match pgn::parse(text, current) {
            Err(error) => {
                return Err(error);
            },
            Ok((game, next)) => {
                let ghost shown = pgn_views(games@);
                let ghost view = game@;
                proof {
                    if next < text@.len() {
                        match spec_parse_games(text@, next as int) {
                            Ok(rest) => {
                                assert(shown + (seq![view] + rest) =~= shown.push(view) + rest);
                            },
                            Err(_) => {},
                        }
                    } else {
                        assert(shown + seq![view] =~= shown.push(view));
                    }
                }
                games.push(game);
                assert(pgn_views(games@) =~= shown.push(view));
                if next >= text.len() {
                    return Ok(games);
                }
                current = next;
            },
        }
    }
}

} // verus!
