pub mod engine;
pub mod format;
pub mod games;
pub mod model;
pub mod navigation;
pub mod notation;
pub mod parse;
pub mod sequences;
pub mod text;

pub use engine::execute_moves;
pub use games::{game_from, games_from, GameError};
pub use model::Game;
pub use model::Pgn;
pub use parse::parse;
