use crate::model::piece::PieceColour;
use vstd::prelude::*;

verus! {

/// What a viewer of games can be told to do.
#[derive(Debug, PartialEq, Eq, Clone, Copy, Structural)]
pub enum Command {
    PlyForwards,
    PlyBackwards,
    GameForwards,
    GameBackwards,
    FlipPerspective,
    ToggleMetadata,
    DisplayFen,
    Quit,
}

/// Where a viewer stands: the game shown, for each game the ply shown and
/// the last ply it has, the side from which the board is seen, and what is
/// shown besides.
pub ghost struct NavigationView {
    pub current_game: nat,
    pub current_ply: Seq<nat>,
    pub max_ply: Seq<nat>,
    pub perspective: PieceColour,
    pub show_metadata: bool,
    pub display_fen: bool,
}

impl NavigationView {
    /// The game shown is one of the games, and no game is beyond its last
    /// ply.
    pub open spec fn wf(self) -> bool {
        &&& self.current_ply.len() == self.max_ply.len()
        &&& self.current_game < self.max_ply.len()
        &&& forall|i: int|
            0 <= i < self.max_ply.len() ==> #[trigger] self.current_ply[i] <= self.max_ply[i]
    }

    /// Where a viewer of games with these last plies starts: at the first
    /// ply of the first game, seen from White, with nothing else shown.
    pub open spec fn start(max_ply: Seq<nat>) -> NavigationView {
        NavigationView {
            current_game: 0,
            current_ply: Seq::new(max_ply.len(), |i: int| 0nat),
            max_ply,
            perspective: PieceColour::White,
            show_metadata: false,
            display_fen: false,
        }
    }

    /// Where the viewer stands after `command`. A step that would leave
    /// the games or the plies of the game shown is not taken.
    pub open spec fn apply(self, command: Command) -> NavigationView {
        let game = self.current_game as int;
        match command {
            Command::PlyForwards => if self.current_ply[game] < self.max_ply[game] {
                NavigationView {
                    current_ply: self.current_ply.update(game, self.current_ply[game] + 1),
                    ..self
                }
            } else {
                self
            },
            Command::PlyBackwards => if self.current_ply[game] > 0 {
                NavigationView {
                    current_ply: self.current_ply.update(
                        game,
                        (self.current_ply[game] - 1) as nat,
                    ),
                    ..self
                }
            } else {
                self
            },
            Command::GameForwards => if self.current_game + 1 < self.max_ply.len() {
                NavigationView { current_game: self.current_game + 1, ..self }
            } else {
                self
            },
            Command::GameBackwards => if self.current_game > 0 {
                NavigationView { current_game: (self.current_game - 1) as nat, ..self }
            } else {
                self
            },
            Command::FlipPerspective => NavigationView {
                perspective: self.perspective.spec_opposite(),
                ..self
            },
            Command::ToggleMetadata => NavigationView {
                show_metadata: !self.show_metadata,
                ..self
            },
            Command::DisplayFen => NavigationView { display_fen: !self.display_fen, ..self },
            Command::Quit => self,
        }
    }
}

/// The numbers of a list as natural numbers.
pub open spec fn naturals(numbers: Seq<usize>) -> Seq<nat> {
    numbers.map_values(|number: usize| number as nat)
}

/// The state of a viewer of at least one game. Its fields are set by `new`
/// and `apply` alone, which keep it well-formed.
pub struct Navigation {
    current_game: usize,
    current_ply: Vec<usize>,
    max_ply: Vec<usize>,
    perspective: PieceColour,
    show_metadata: bool,
    display_fen: bool,
}

impl View for Navigation {
    type V = NavigationView;

    closed spec fn view(&self) -> NavigationView {
        NavigationView {
            current_game: self.current_game as nat,
            current_ply: naturals(self.current_ply@),
            max_ply: naturals(self.max_ply@),
            perspective: self.perspective,
            show_metadata: self.show_metadata,
            display_fen: self.display_fen,
        }
    }
}

impl Navigation {
    /// A viewer of games of which game `i` has `max_ply[i]` as its last
    /// ply. There must be a game.
    pub fn new(max_ply: Vec<usize>) -> (navigation: Navigation)
        requires
            max_ply@.len() > 0,
        ensures
            navigation@ == NavigationView::start(naturals(max_ply@)),
            navigation@.wf(),
    {
        let mut current_ply: Vec<usize> = Vec::new();
        let mut index: usize = 0;
        while index < max_ply.len()
            invariant
                index <= max_ply.len(),
                current_ply@.len() == index,
                forall|i: int| 0 <= i < index ==> current_ply@[i] == 0,
            decreases max_ply.len() - index,
        {
            current_ply.push(0);
            index += 1;
        }
        assert(naturals(current_ply@) =~= Seq::new(naturals(max_ply@).len(), |i: int| 0nat));
        Navigation {
            current_game: 0,
            current_ply,
            max_ply,
            perspective: PieceColour::White,
            show_metadata: false,
            display_fen: false,
        }
    }

    /// Carries `command` out and says whether the viewer goes on: `false`
    /// after `Quit`.
    pub fn apply(&mut self, command: Command) -> (goes_on: bool)
        requires
            old(self)@.wf(),
        ensures
            final(self)@ == old(self)@.apply(command),
            final(self)@.wf(),
            goes_on == (command != Command::Quit),
    {
        let game = self.current_game;
        match command {
            Command::PlyForwards => {
                let current = self.current_ply[game];
                if current < self.max_ply[game] {
                    self.current_ply.set(game, current + 1);
                    assert(naturals(self.current_ply@) =~= old(self)@.current_ply.update(
                        game as int,
                        (current + 1) as nat,
                    ));
                }
            },
            Command::PlyBackwards => {
                let current = self.current_ply[game];
                if current > 0 {
                    self.current_ply.set(game, current - 1);
                    assert(naturals(self.current_ply@) =~= old(self)@.current_ply.update(
                        game as int,
                        (current - 1) as nat,
                    ));
                }
            },
            Command::GameForwards => {
                if self.current_game < self.max_ply.len() - 1 {
                    self.current_game += 1;
                }
            },
            Command::GameBackwards => {
                if self.current_game > 0 {
                    self.current_game -= 1;
                }
            },
            Command::FlipPerspective => {
                self.perspective = match self.perspective {
                    PieceColour::White => PieceColour::Black,
                    PieceColour::Black => PieceColour::White,
                };
            },
            Command::ToggleMetadata => {
                self.show_metadata = !self.show_metadata;
            },
            Command::DisplayFen => {
                self.display_fen = !self.display_fen;
            },
            Command::Quit => {},
        }
        command != Command::Quit
    }

    pub fn current_game(&self) -> (game: usize)
        ensures
            game == self@.current_game,
    {
        self.current_game
    }

    /// The ply shown of the game shown.
    pub fn current_ply(&self) -> (ply: usize)
        requires
            self@.wf(),
        ensures
            ply == self@.current_ply[self@.current_game as int],
            ply <= self@.max_ply[self@.current_game as int],
    {
        assert(self@.current_ply[self.current_game as int] <= self@.max_ply[self.current_game as int]);
        self.current_ply[self.current_game]
    }

    pub fn perspective(&self) -> (perspective: PieceColour)
        ensures
            perspective == self@.perspective,
    {
        self.perspective
    }

    pub fn show_metadata(&self) -> (shown: bool)
        ensures
            shown == self@.show_metadata,
    {
        self.show_metadata
    }

    pub fn display_fen(&self) -> (shown: bool)
        ensures
            shown == self@.display_fen,
    {
        self.display_fen
    }
}

} // verus!
