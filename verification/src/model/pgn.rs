use crate::model::board::{Board, BoardView};
use crate::model::piece::PieceColour;
use crate::model::ply::{ply_views, Ply, PlyView};
use crate::sequences::{lemma_filter_empty, lemma_filter_step};
use vstd::prelude::*;

verus! {

#[derive(Debug, PartialEq, Eq, Clone, Copy, Structural)]
pub enum GameResult {
    BlackWin,
    WhiteWin,
    Draw,
    Ongoing,
}

impl GameResult {
    /// The token that stands for the result in a game record.
    pub open spec fn spec_text(self) -> Seq<char> {
        match self {
            GameResult::WhiteWin => "1-0"@,
            GameResult::BlackWin => "0-1"@,
            GameResult::Draw => "1/2-1/2"@,
            GameResult::Ongoing => "*"@,
        }
    }

    pub fn text(&self) -> (text: &'static str)
        ensures
            text@ == self.spec_text(),
    {
        match self {
            GameResult::WhiteWin => "1-0",
            GameResult::BlackWin => "0-1",
            GameResult::Draw => "1/2-1/2",
            GameResult::Ongoing => "*",
        }
    }
}

/// What a position record holds.
pub ghost struct FenView {
    pub starting_board: BoardView,
    pub active_colour: PieceColour,
    pub fullmove_clock: nat,
}

/// A starting position as a position record gives it.
#[derive(Debug, PartialEq, Eq)]
pub struct Fen {
    starting_board: Board,
    active_colour: PieceColour,
    fullmove_clock: usize,
}

impl View for Fen {
    type V = FenView;

    closed spec fn view(&self) -> FenView {
        FenView {
            starting_board: self.starting_board@,
            active_colour: self.active_colour,
            fullmove_clock: self.fullmove_clock as nat,
        }
    }
}

impl Fen {
    pub fn new(starting_board: Board, active_colour: PieceColour, fullmove_clock: usize) -> (fen:
        Fen)
        ensures
            fen@ == (FenView {
                starting_board: starting_board@,
                active_colour,
                fullmove_clock: fullmove_clock as nat,
            }),
    {
        Fen { starting_board, active_colour, fullmove_clock }
    }

    pub fn starting_board(&self) -> (board: &Board)
        ensures
            board@ == self@.starting_board,
    {
        &self.starting_board
    }

    pub fn active_colour(&self) -> (colour: &PieceColour)
        ensures
            *colour == self@.active_colour,
    {
        &self.active_colour
    }

    pub fn fullmove_clock(&self) -> (clock: usize)
        ensures
            clock == self@.fullmove_clock,
    {
        self.fullmove_clock
    }
}

/// The value of the last entry named `key`, if there is one.
pub open spec fn lookup(entries: Seq<(Seq<char>, Seq<char>)>, key: Seq<char>) -> Option<Seq<char>>
    decreases entries.len(),
{
    if entries.len() == 0 {
        None
    } else if entries.last().0 == key {
        Some(entries.last().1)
    } else {
        lookup(entries.drop_last(), key)
    }
}

/// The entries that are not named `key`, in their order.
pub open spec fn without(entries: Seq<(Seq<char>, Seq<char>)>, key: Seq<char>) -> Seq<
    (Seq<char>, Seq<char>),
> {
    entries.filter(|entry: (Seq<char>, Seq<char>)| entry.0 != key)
}

/// The tag pairs of a game, in the order in which they were given. Where a
/// name occurs more than once, its last value counts.
#[derive(Debug, PartialEq, Eq)]
pub struct Tags(Vec<(String, String)>);

impl View for Tags {
    type V = Seq<(Seq<char>, Seq<char>)>;

    closed spec fn view(&self) -> Seq<(Seq<char>, Seq<char>)> {
        self.0.deep_view()
    }
}

impl Tags {
    pub fn new(tags: Vec<(String, String)>) -> (result: Tags)
        ensures
            result@ == tags.deep_view(),
    {
        Tags(tags)
    }

    pub fn get(&self, key: &str) -> (value: Option<&String>)
        ensures
            match value {
                Some(text) => lookup(self@, key@) == Some(text@),
                None => lookup(self@, key@) is None,
            },
    {
        let wanted = key.to_owned();
        let mut index = self.0.len();
        assert(self.0.deep_view().take(index as int) =~= self.0.deep_view());
        while index > 0
            invariant
                index <= self.0.len(),
                wanted@ == key@,
                lookup(self.0.deep_view().take(index as int), key@) == lookup(self@, key@),
            decreases index,
        {
            index -= 1;
            proof {
                let shown = self.0.deep_view();
                assert(shown.take(index + 1).drop_last() =~= shown.take(index as int));
                assert(shown.take(index + 1).last() == shown[index as int]);
                assert(shown[index as int] == (self.0@[index as int].0@, self.0@[index as int].1@));
            }
            if self.0[index].0 == wanted {
                return Some(&self.0[index].1);
            }
        }
        None
    }

    pub fn get_or_default(&self, key: &str, default: &str) -> (value: String)
        ensures
            value@ == match lookup(self@, key@) {
                Some(text) => text,
                None => default@,
            },
    {
        match self.get(key) {
            Some(text) => text.clone(),
            None => default.to_owned(),
        }
    }

    /// Takes every entry named `key` out and returns the value that counted.
    pub fn remove(&mut self, key: &str) -> (value: Option<String>)
        ensures
            final(self)@ == without(old(self)@, key@),
            match value {
                Some(text) => lookup(old(self)@, key@) == Some(text@),
                None => lookup(old(self)@, key@) is None,
            },
    {
        let wanted = key.to_owned();
        let mut kept: Vec<(String, String)> = Vec::new();
        let mut value: Option<String> = None;
        let ghost shown = self.0.deep_view();
        let ghost pred = |entry: (Seq<char>, Seq<char>)| entry.0 != key@;
        proof {
            lemma_filter_empty(shown.take(0), pred);
            assert(kept.deep_view() =~= Seq::<(Seq<char>, Seq<char>)>::empty());
        }
        let mut index: usize = 0;
        while index < self.0.len()
            invariant
                index <= self.0.len(),
                wanted@ == key@,
                shown == self.0.deep_view(),
                shown == old(self)@,
                pred == (|entry: (Seq<char>, Seq<char>)| entry.0 != key@),
                kept.deep_view() == shown.take(index as int).filter(pred),
                match value {
                    Some(text) => lookup(shown.take(index as int), key@) == Some(text@),
                    None => lookup(shown.take(index as int), key@) is None,
                },
            decreases self.0.len() - index,
        {
            proof {
                lemma_filter_step(shown, pred, index as int);
                assert(shown.take(index + 1).drop_last() =~= shown.take(index as int));
                assert(shown.take(index + 1).last() == shown[index as int]);
                assert(shown[index as int] == (self.0@[index as int].0@, self.0@[index as int].1@));
            }
            if self.0[index].0 == wanted {
                value = Some(self.0[index].1.clone());
            } else {
                let ghost before = kept.deep_view();
                let name = self.0[index].0.clone();
                let text = self.0[index].1.clone();
                kept.push((name, text));
                assert(kept.deep_view() =~= before.push(shown[index as int]));
            }
            index += 1;
        }
        proof {
            assert(shown.take(index as int) =~= shown);
        }
        self.0 = kept;
        value
    }

    pub fn inner(&self) -> (entries: &Vec<(String, String)>)
        ensures
            entries.deep_view() == self@,
    {
        &self.0
    }
}

/// What a game record holds.
pub ghost struct PgnView {
    pub tags: Seq<(Seq<char>, Seq<char>)>,
    pub fen: FenView,
    pub result: GameResult,
    pub ply: Seq<PlyView>,
}

/// A game as it is written down: its tags, its starting position, its
/// result and its plies.
#[derive(Debug, PartialEq, Eq)]
pub struct Pgn {
    tags: Tags,
    fen: Fen,
    result: GameResult,
    ply: Vec<Ply>,
}

impl View for Pgn {
    type V = PgnView;

    closed spec fn view(&self) -> PgnView {
        PgnView { tags: self.tags@, fen: self.fen@, result: self.result, ply: ply_views(self.ply@) }
    }
}

impl Pgn {
    pub fn new(tags: Tags, fen: Fen, result: GameResult, ply_list: Vec<Ply>) -> (pgn: Pgn)
        ensures
            pgn@ == (PgnView { tags: tags@, fen: fen@, result, ply: ply_views(ply_list@) }),
    {
        Pgn { tags, fen, result, ply: ply_list }
    }

    pub fn tags(&self) -> (tags: &Tags)
        ensures
            tags@ == self@.tags,
    {
        &self.tags
    }

    pub fn fen(&self) -> (fen: &Fen)
        ensures
            fen@ == self@.fen,
    {
        &self.fen
    }

    pub fn result(&self) -> (result: GameResult)
        ensures
            result == self@.result,
    {
        self.result
    }

    pub fn ply(&self) -> (ply: &[Ply])
        ensures
            ply_views(ply@) == self@.ply,
    {
        self.ply.as_slice()
    }
}

} // verus!
