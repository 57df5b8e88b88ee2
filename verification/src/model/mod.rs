pub mod board;
pub mod game;
pub mod pgn;
pub mod piece;
pub mod ply;
pub mod position;

pub use board::{AvailableCastle, Board, BoardView, Builder};
pub use game::Game;
pub use pgn::{Fen, GameResult, Pgn, Tags};
pub use piece::{Piece, PieceColour, PieceType};
pub use ply::{Check, MoveQualifier, Movement, Ply, PlyMovement};
pub use position::{InvalidPositionError, Position, MAX_POSITION, MIN_POSITION};
