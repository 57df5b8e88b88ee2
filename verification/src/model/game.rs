use crate::model::board::Board;
use crate::model::pgn::{Pgn, PgnView};
use vstd::prelude::*;

verus! {

/// A game record together with the boards of its replay.
#[derive(Debug, PartialEq, Eq)]
pub struct Game {
    pgn: Pgn,
    boards: Vec<Board>,
}

impl Game {
    /// The record that the game was made of.
    pub closed spec fn spec_pgn(self) -> PgnView {
        self.pgn@
    }

    /// The boards that the game was made of.
    pub closed spec fn spec_boards(self) -> Seq<Board> {
        self.boards@
    }

    pub fn new(pgn: Pgn, boards: Vec<Board>) -> (game: Game)
        ensures
            game.spec_pgn() == pgn@,
            game.spec_boards() == boards@,
    {
        Game { pgn, boards }
    }

    pub fn boards(&self) -> (boards: &[Board])
        ensures
            boards@ == self.spec_boards(),
    {
        self.boards.as_slice()
    }

    pub fn pgn(&self) -> (pgn: &Pgn)
        ensures
            pgn@ == self.spec_pgn(),
    {
        &self.pgn
    }
}

} // verus!
