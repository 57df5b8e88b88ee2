use crate::engine::error::{EngineError, EngineErrorView};
use crate::engine::resolve::{execute_moves, spec_execute_moves, views};
use crate::model::board::BoardView;
use crate::model::game::Game;
use crate::model::pgn::{Pgn, PgnView};
use crate::model::ply::{movements, ply_views, PlyMovement, PlyView};
use crate::parse::error::{ParseErrorView, PgnParseError};
use crate::parse::pgn::replayable;
use crate::parse::{parse, pgn_views, spec_parse};
use vstd::prelude::*;

verus! {

/// Why a text did not give games: it could not be read, or one of its
/// games could not be replayed.
#[derive(Debug, PartialEq, Eq, Clone)]
pub enum GameError {
    Parse(PgnParseError),
    Replay(EngineError),
}

/// A `GameError` with the view of what it holds.
pub ghost enum GameErrorView {
    Parse(ParseErrorView),
    Replay(EngineErrorView),
}

impl View for GameError {
    type V = GameErrorView;

    open spec fn view(&self) -> GameErrorView {
        match *self {
            GameError::Parse(error) => GameErrorView::Parse(error@),
            GameError::Replay(error) => GameErrorView::Replay(error@),
        }
    }
}

/// The movements of a list of plies, in order.
pub open spec fn view_movements(plies: Seq<PlyView>) -> Seq<PlyMovement> {
    plies.map_values(|ply: PlyView| ply.movement)
}

/// The boards of a game record: the replay of its plies from its starting
/// board.
pub open spec fn spec_game_boards(game: PgnView) -> Result<Seq<BoardView>, EngineErrorView> {
    spec_execute_moves(game.fen.starting_board, view_movements(game.ply))
}

/// A game as these functions show it: its record and the views of its
/// boards.
pub open spec fn game_view(game: Game) -> (PgnView, Seq<BoardView>) {
    (game.spec_pgn(), views(game.spec_boards()))
}

/// The views of a list of games, in order.
pub open spec fn game_views(games: Seq<Game>) -> Seq<(PgnView, Seq<BoardView>)> {
    games.map_values(|game: Game| game_view(game))
}

/// The records replayed one after the other: each with its boards, or the
/// error of the first that cannot be replayed.
pub open spec fn spec_replay_all(records: Seq<PgnView>) -> Result<
    Seq<(PgnView, Seq<BoardView>)>,
    GameErrorView,
>
    decreases records.len(),
{
    if records.len() == 0 {
        Ok(Seq::empty())
    } else {
        match spec_replay_all(records.drop_last()) {
            Err(error) => Err(error),
            Ok(games) => match spec_game_boards(records.last()) {
                Ok(boards) => Ok(games.push((records.last(), boards))),
                Err(error) => Err(GameErrorView::Replay(error)),
            },
        }
    }
}

/// The games of a text: its records read, then each replayed.
pub open spec fn spec_games_from(s: Seq<char>) -> Result<
    Seq<(PgnView, Seq<BoardView>)>,
    GameErrorView,
> {
    match spec_parse(s) {
        Err(error) => Err(GameErrorView::Parse(error)),
        Ok(records) => spec_replay_all(records),
    }
}

/// A list of records of which one cannot be replayed cannot be replayed,
/// however it goes on.
pub proof fn lemma_replay_all_error_persists(records: Seq<PgnView>, count: int)
    requires
        0 <= count <= records.len(),
        spec_replay_all(records.take(count)) is Err,
    ensures
        spec_replay_all(records) == spec_replay_all(records.take(count)),
    decreases records.len() - count,
{
    if count < records.len() {
        assert(records.take(count + 1).drop_last() =~= records.take(count));
        lemma_replay_all_error_persists(records, count + 1);
    } else {
        assert(records.take(count) =~= records);
    }
}

/// The records in the opposite order.
fn reversed(mut records: Vec<Pgn>) -> (turned: Vec<Pgn>)
    ensures
        turned@.len() == records@.len(),
        forall|i: int|
            0 <= i < turned@.len() ==> #[trigger] turned@[i] == records@[records@.len() - 1 - i],
{
    let ghost given = records@;
    let mut turned: Vec<Pgn> = Vec::new();
    while records.len() > 0
        invariant
            turned@.len() + records@.len() == given.len(),
            forall|i: int| 0 <= i < records@.len() ==> #[trigger] records@[i] == given[i],
            forall|i: int|
                0 <= i < turned@.len() ==> #[trigger] turned@[i] == given[given.len() - 1 - i],
        decreases records@.len(),
    {
        let record = records.pop().unwrap();
        turned.push(record);
    }
    turned
}

/// Replays a record and keeps it with its boards. The clocks of its
/// starting board must have room for one count per ply; every record that
/// `parse` returns has it.
pub fn game_from(pgn: Pgn) -> (result: Result<Game, EngineError>)
    requires
        replayable(pgn@),
    ensures
        match result {
            Ok(game) => spec_game_boards(pgn@) == Ok::<Seq<BoardView>, EngineErrorView>(
                views(game.spec_boards()),
            ) && game.spec_pgn() == pgn@,
            Err(error) => spec_game_boards(pgn@) == Err::<Seq<BoardView>, EngineErrorView>(error@),
        },
{
    let replayed = {
        let plies = pgn.ply();
        assert(movements(plies@) =~= view_movements(ply_views(plies@)));
        execute_moves(pgn.fen().starting_board(), plies)
    };
    match replayed {
        Ok(boards) => Ok(Game::new(pgn, boards)),
        Err(error) => Err(error),
    }
}

/// Reads the games of a text and replays each of them. The first record
/// that cannot be read, or else the first game that cannot be replayed,
/// ends it with its error.
pub fn games_from(input: &str) -> (result: Result<Vec<Game>, GameError>)
    ensures
        match result {
            Ok(games) => spec_games_from(input@) == Ok::<
                Seq<(PgnView, Seq<BoardView>)>,
                GameErrorView,
            >(game_views(games@)),
            Err(error) => spec_games_from(input@) == Err::<
                Seq<(PgnView, Seq<BoardView>)>,
                GameErrorView,
            >(error@),
        },
{
    let records = match parse(input) {
        Ok(records) => records,
        Err(error) => {
            return Err(GameError::Parse(error));
        },
    };
    let ghost shown = pgn_views(records@);
    let mut games: Vec<Game> = Vec::new();
    let mut records = reversed(records);
    assert(game_views(games@) =~= Seq::<(PgnView, Seq<BoardView>)>::empty());
    assert(shown.take(0) =~= Seq::<PgnView>::empty());
    while records.len() > 0
        invariant
            spec_parse(input@) == Ok::<Seq<PgnView>, ParseErrorView>(shown),
            games@.len() + records@.len() == shown.len(),
            forall|i: int|
                0 <= i < records@.len() ==> #[trigger] records@[i]@ == shown[shown.len() - 1 - i],
            forall|i: int| 0 <= i < shown.len() ==> replayable(#[trigger] shown[i]),
            spec_replay_all(shown.take(games@.len() as int)) == Ok::<
                Seq<(PgnView, Seq<BoardView>)>,
                GameErrorView,
            >(game_views(games@)),
        decreases records@.len(),
    {
        let ghost done = games@.len() as int;
        let ghost last = records@.len() - 1;
        let record = records.pop().unwrap();
        proof {
            assert(record@ == shown[done]);
            assert(shown.take(done + 1).drop_last() =~= shown.take(done));
            assert(shown.take(done + 1).last() == shown[done]);
        }
        match game_from(record) {
            Ok(game) => {
                let ghost before = game_views(games@);
                let ghost view = game_view(game);
                games.push(game);
                assert(game_views(games@) =~= before.push(view));
            },
            Err(error) => {
                proof {
                    lemma_replay_all_error_persists(shown, done + 1);
                }
                return Err(GameError::Replay(error));
            },
        }
    }
    proof {
        assert(shown.take(games@.len() as int) =~= shown);
    }
    Ok(games)
}

} // verus!
