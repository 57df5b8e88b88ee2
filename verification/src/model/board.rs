use crate::model::piece::{Piece, PieceColour};
use crate::model::position::{group_position, Position};
use crate::sequences::{lemma_filter_empty, lemma_filter_step};
use vstd::prelude::*;

verus! {

broadcast use group_position;

#[derive(Debug, PartialEq, Eq, Clone, Copy, Structural)]
pub enum AvailableCastle {
    WhiteKingside,
    WhiteQueenside,
    BlackKingside,
    BlackQueenside,
}

/// The 64 squares in the order in which a board is walked: row by row from
/// White's back rank, each row from file `a`.
pub open spec fn all_positions() -> Seq<Position> {
    Seq::new(64, |i: int| Position::nth(i))
}

/// The four castle rights in the order in which a board lists them.
pub open spec fn all_castles() -> Seq<AvailableCastle> {
    seq![
        AvailableCastle::WhiteKingside,
        AvailableCastle::WhiteQueenside,
        AvailableCastle::BlackKingside,
        AvailableCastle::BlackQueenside,
    ]
}

/// What a board holds: the occupied squares with their pieces, the side to
/// move, the castle rights still available, the en-passant target, and the
/// two clocks.
pub ghost struct BoardView {
    pub grid: Map<Position, Piece>,
    pub active_colour: PieceColour,
    pub available_castles: Set<AvailableCastle>,
    pub en_passant_square: Option<Position>,
    pub halfmove_clock: nat,
    pub fullmove_clock: nat,
}

impl BoardView {
    /// The board a builder starts from: no piece, White to move, no castle
    /// right, no en-passant target, clocks at 0 and 1.
    pub open spec fn empty() -> BoardView {
        BoardView {
            grid: Map::empty(),
            active_colour: PieceColour::White,
            available_castles: Set::empty(),
            en_passant_square: None,
            halfmove_clock: 0,
            fullmove_clock: 1,
        }
    }

    /// The piece on `position`, if any.
    pub open spec fn occupant(self, position: Position) -> Option<Piece> {
        if self.grid.contains_key(position) {
            Some(self.grid[position])
        } else {
            None
        }
    }

    /// Whether `piece` stands on `position`.
    pub open spec fn holds(self, piece: Piece, position: Position) -> bool {
        self.grid.contains_key(position) && self.grid[position] == piece
    }

    /// Every square that holds a piece equal to `piece`, in board order.
    pub open spec fn search(self, piece: Piece) -> Seq<Position> {
        all_positions().filter(|position: Position| self.holds(piece, position))
    }

    /// The rights of `available_castles`, in the order of `all_castles`.
    pub open spec fn castle_list(self) -> Seq<AvailableCastle> {
        all_castles().filter(|castle: AvailableCastle| self.available_castles.contains(castle))
    }

    /// `piece` written on `position`, over whatever stood there.
    pub open spec fn add(self, piece: Piece, position: Position) -> BoardView {
        BoardView { grid: self.grid.insert(position, piece), ..self }
    }

    /// `position` emptied.
    pub open spec fn remove(self, position: Position) -> BoardView {
        BoardView { grid: self.grid.remove(position), ..self }
    }

    /// One castle right dropped.
    pub open spec fn remove_available_castle(self, castle: AvailableCastle) -> BoardView {
        BoardView { available_castles: self.available_castles.remove(castle), ..self }
    }
}

#[derive(Debug, PartialEq, Eq, Clone, Copy)]
pub struct Board {
    grid: [Option<Piece>; 64],
    active_colour: PieceColour,
    white_kingside: bool,
    white_queenside: bool,
    black_kingside: bool,
    black_queenside: bool,
    en_passant_square: Option<Position>,
    halfmove_clock: usize,
    fullmove_clock: usize,
}

impl View for Board {
    type V = BoardView;

    closed spec fn view(&self) -> BoardView {
        BoardView {
            grid: Map::new(
                |position: Position| position.wf() && self.grid[position.index()] is Some,
                |position: Position| self.grid[position.index()]->0,
            ),
            active_colour: self.active_colour,
            available_castles: Set::new(
                |castle: AvailableCastle|
                    match castle {
                        AvailableCastle::WhiteKingside => self.white_kingside,
                        AvailableCastle::WhiteQueenside => self.white_queenside,
                        AvailableCastle::BlackKingside => self.black_kingside,
                        AvailableCastle::BlackQueenside => self.black_queenside,
                    },
            ),
            en_passant_square: self.en_passant_square,
            halfmove_clock: self.halfmove_clock as nat,
            fullmove_clock: self.fullmove_clock as nat,
        }
    }
}

fn grid_index(position: Position) -> (index: usize)
    ensures
        index == position.index(),
        position.wf(),
        index < 64,
{
    (position.row() as usize) * 8 + (position.col() as usize)
}

impl Board {
    pub fn builder() -> (builder: Builder)
        ensures
            builder@ == BoardView::empty(),
    {
        Builder::new()
    }

    pub fn active_colour(&self) -> (colour: &PieceColour)
        ensures
            *colour == self@.active_colour,
    {
        &self.active_colour
    }

    /// The castle rights still available, in the order White kingside,
    /// White queenside, Black kingside, Black queenside.
    pub fn available_castles(&self) -> (castles: Vec<AvailableCastle>)
        ensures
            castles@ == self@.castle_list(),
    {
        let mut castles: Vec<AvailableCastle> = Vec::new();
        let ghost all = all_castles();
        let ghost pred = |castle: AvailableCastle| self@.available_castles.contains(castle);
        proof {
            lemma_filter_empty(all.take(0), pred);
        }
        if self.white_kingside {
            castles.push(AvailableCastle::WhiteKingside);
        }
        proof {
            lemma_filter_step(all, pred, 0);
        }
        if self.white_queenside {
            castles.push(AvailableCastle::WhiteQueenside);
        }
        proof {
            lemma_filter_step(all, pred, 1);
        }
        if self.black_kingside {
            castles.push(AvailableCastle::BlackKingside);
        }
        proof {
            lemma_filter_step(all, pred, 2);
        }
        if self.black_queenside {
            castles.push(AvailableCastle::BlackQueenside);
        }
        proof {
            lemma_filter_step(all, pred, 3);
            assert(all.take(4) =~= all);
        }
        castles
    }

    /// Whether `castle` is still available.
    pub fn has_available_castle(&self, castle: AvailableCastle) -> (available: bool)
        ensures
            available == self@.available_castles.contains(castle),
    {
        match castle {
            AvailableCastle::WhiteKingside => self.white_kingside,
            AvailableCastle::WhiteQueenside => self.white_queenside,
            AvailableCastle::BlackKingside => self.black_kingside,
            AvailableCastle::BlackQueenside => self.black_queenside,
        }
    }

    pub fn en_passant_square(&self) -> (square: Option<&Position>)
        ensures
            square == match self@.en_passant_square {
                Some(position) => Some(&position),
                None => None,
            },
    {
        self.en_passant_square.as_ref()
    }

    pub fn halfmove_clock(&self) -> (clock: usize)
        ensures
            clock == self@.halfmove_clock,
    {
        self.halfmove_clock
    }

    pub fn fullmove_clock(&self) -> (clock: usize)
        ensures
            clock == self@.fullmove_clock,
    {
        self.fullmove_clock
    }

    pub fn occupant(&self, position: Position) -> (piece: Option<&Piece>)
        ensures
            piece == match self@.occupant(position) {
                Some(found) => Some(&found),
                None => None,
            },
    {
        let index = grid_index(position);
        self.grid[index].as_ref()
    }

    /// Every square that holds a piece equal to `piece`, row by row from
    /// White's back rank, each row from file `a`.
    pub fn search(&self, piece: Piece) -> (positions: Vec<Position>)
        ensures
            positions@ == self@.search(piece),
    {
        let mut positions: Vec<Position> = Vec::new();
        let ghost all = all_positions();
        let ghost pred = |position: Position| self@.holds(piece, position);
        proof {
            lemma_filter_empty(all.take(0), pred);
        }
        let mut index: usize = 0;
        while index < 64
            invariant
                index <= 64,
                all == all_positions(),
                pred == (|position: Position| self@.holds(piece, position)),
                positions@ == all.take(index as int).filter(pred),
            decreases 64 - index,
        {
            let position = Position::new((index / 8) as i8, (index % 8) as i8);
            proof {
                lemma_filter_step(all, pred, index as int);
                assert(all[index as int] == position);
                assert(position.index() == index);
            }
            if self.grid[index] == Some(piece) {
                positions.push(position);
            }
            index += 1;
        }
        proof {
            assert(all.take(64) =~= all);
        }
        positions
    }

    pub fn add(&mut self, piece: Piece, position: Position)
        ensures
            final(self)@ == old(self)@.add(piece, position),
    {
        let index = grid_index(position);
        self.grid[index] = Some(piece);
        assert(self@.grid =~= old(self)@.grid.insert(position, piece));
        assert(self@.available_castles =~= old(self)@.available_castles);
    }

    pub fn remove(&mut self, position: Position)
        ensures
            final(self)@ == old(self)@.remove(position),
    {
        let index = grid_index(position);
        self.grid[index] = None;
        assert(self@.grid =~= old(self)@.grid.remove(position));
        assert(self@.available_castles =~= old(self)@.available_castles);
    }

    pub fn update_active_colour(&mut self, active_colour: PieceColour)
        ensures
            final(self)@ == (BoardView { active_colour, ..old(self)@ }),
    {
        self.active_colour = active_colour;
        assert(self@.grid =~= old(self)@.grid);
        assert(self@.available_castles =~= old(self)@.available_castles);
    }

    pub fn remove_available_castle(&mut self, available_castle: AvailableCastle)
        ensures
            final(self)@ == old(self)@.remove_available_castle(available_castle),
    {
        match available_castle {
            AvailableCastle::WhiteKingside => {
                self.white_kingside = false;
            },
            AvailableCastle::WhiteQueenside => {
                self.white_queenside = false;
            },
            AvailableCastle::BlackKingside => {
                self.black_kingside = false;
            },
            AvailableCastle::BlackQueenside => {
                self.black_queenside = false;
            },
        }
        assert(self@.grid =~= old(self)@.grid);
        assert(self@.available_castles =~= old(self)@.available_castles.remove(available_castle));
    }

    pub fn remove_en_passant_square(&mut self)
        ensures
            final(self)@ == (BoardView { en_passant_square: None, ..old(self)@ }),
    {
        self.en_passant_square = None;
        assert(self@.grid =~= old(self)@.grid);
        assert(self@.available_castles =~= old(self)@.available_castles);
    }

    pub fn update_en_passant_square(&mut self, position: Position)
        ensures
            final(self)@ == (BoardView { en_passant_square: Some(position), ..old(self)@ }),
    {
        self.en_passant_square = Some(position);
        assert(self@.grid =~= old(self)@.grid);
        assert(self@.available_castles =~= old(self)@.available_castles);
    }

    pub fn update_halfmove_clock(&mut self, halfmove_clock: usize)
        ensures
            final(self)@ == (BoardView { halfmove_clock: halfmove_clock as nat, ..old(self)@ }),
    {
        self.halfmove_clock = halfmove_clock;
        assert(self@.grid =~= old(self)@.grid);
        assert(self@.available_castles =~= old(self)@.available_castles);
    }

    pub fn update_fullmove_clock(&mut self, fullmove_clock: usize)
        ensures
            final(self)@ == (BoardView { fullmove_clock: fullmove_clock as nat, ..old(self)@ }),
    {
        self.fullmove_clock = fullmove_clock;
        assert(self@.grid =~= old(self)@.grid);
        assert(self@.available_castles =~= old(self)@.available_castles);
    }
}

/// Collects what a board is to hold, then builds it.
pub struct Builder {
    board: Board,
}

impl View for Builder {
    type V = BoardView;

    closed spec fn view(&self) -> BoardView {
        self.board@
    }
}

impl Builder {
    pub fn new() -> (builder: Builder)
        ensures
            builder@ == BoardView::empty(),
    {
        let board = Board {
            grid: [None;64],
            active_colour: PieceColour::White,
            white_kingside: false,
            white_queenside: false,
            black_kingside: false,
            black_queenside: false,
            en_passant_square: None,
            halfmove_clock: 0,
            fullmove_clock: 1,
        };
        assert(board@.grid =~= Map::<Position, Piece>::empty());
        assert(board@.available_castles =~= Set::<AvailableCastle>::empty());
        Builder { board }
    }

    pub fn piece(&mut self, piece: Piece, position: Position) -> (builder: &mut Builder)
        ensures
            builder@ == old(self)@.add(piece, position),
            *final(self) == *final(builder),
    {
        self.board.add(piece, position);
        self
    }

    pub fn active_colour(&mut self, active_colour: PieceColour) -> (builder: &mut Builder)
        ensures
            builder@ == (BoardView { active_colour, ..old(self)@ }),
            *final(self) == *final(builder),
    {
        self.board.update_active_colour(active_colour);
        self
    }

    /// Replaces the castle rights by those that `available_castles` lists.
    pub fn available_castles(&mut self, available_castles: Vec<AvailableCastle>) -> (builder:
        &mut Builder)
        ensures
            builder@ == (BoardView {
                available_castles: available_castles@.to_set(),
                ..old(self)@
            }),
            *final(self) == *final(builder),
    {
        self.board.white_kingside = false;
        self.board.white_queenside = false;
        self.board.black_kingside = false;
        self.board.black_queenside = false;
        assert(self.board@.grid =~= old(self)@.grid);
        assert(self.board@.available_castles =~= available_castles@.take(0).to_set());
        let mut index: usize = 0;
        while index < available_castles.len()
            invariant
                index <= available_castles.len(),
                self.board@ == (BoardView {
                    available_castles: available_castles@.take(index as int).to_set(),
                    ..old(self)@
                }),
            decreases available_castles.len() - index,
        {
            let ghost before = self.board@;
            match available_castles[index] {
                AvailableCastle::WhiteKingside => {
                    self.board.white_kingside = true;
                },
                AvailableCastle::WhiteQueenside => {
                    self.board.white_queenside = true;
                },
                AvailableCastle::BlackKingside => {
                    self.board.black_kingside = true;
                },
                AvailableCastle::BlackQueenside => {
                    self.board.black_queenside = true;
                },
            }
            proof {
                let next = available_castles@.take(index + 1);
                assert(next.drop_last() =~= available_castles@.take(index as int));
                assert(next.last() == available_castles@[index as int]);
                assert forall|castle: AvailableCastle|
                    next.to_set().contains(castle) <==> (before.available_castles.contains(castle)
                        || castle == available_castles@[index as int]) by {
                    if next.contains(castle) {
                        let k = choose|k: int| 0 <= k < next.len() && next[k] == castle;
                        if k < index {
                            assert(available_castles@.take(index as int)[k] == castle);
                        }
                    }
                    if available_castles@.take(index as int).contains(castle) {
                        let k = choose|k: int|
                            0 <= k < index && available_castles@.take(index as int)[k] == castle;
                        assert(next[k] == castle);
                    }
                    if castle == available_castles@[index as int] {
                        assert(next[index as int] == castle);
                    }
                }
                assert(self.board@.grid =~= before.grid);
                assert(self.board@.available_castles =~= next.to_set());
            }
            index += 1;
        }
        assert(available_castles@.take(index as int) =~= available_castles@);
        self
    }

    pub fn en_passant_square(&mut self, position: Position) -> (builder: &mut Builder)
        ensures
            builder@ == (BoardView { en_passant_square: Some(position), ..old(self)@ }),
            *final(self) == *final(builder),
    {
        self.board.update_en_passant_square(position);
        self
    }

    pub fn halfmove_clock(&mut self, halfmove_clock: usize) -> (builder: &mut Builder)
        ensures
            builder@ == (BoardView { halfmove_clock: halfmove_clock as nat, ..old(self)@ }),
            *final(self) == *final(builder),
    {
        self.board.update_halfmove_clock(halfmove_clock);
        self
    }

    pub fn fullmove_clock(&mut self, fullmove_clock: usize) -> (builder: &mut Builder)
        ensures
            builder@ == (BoardView { fullmove_clock: fullmove_clock as nat, ..old(self)@ }),
            *final(self) == *final(builder),
    {
        self.board.update_fullmove_clock(fullmove_clock);
        self
    }

    pub fn build(self) -> (board: Board)
        ensures
            board@ == self@,
    {
        self.board
    }
}

} // verus!
