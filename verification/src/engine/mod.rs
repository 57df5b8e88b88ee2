pub mod active_colour;
pub mod castle;
pub mod clocks;
pub mod en_passant;
pub mod error;
pub mod invariants;
pub mod legality;
pub mod moves;
pub mod resolve;

pub use error::{CastleSide, EngineError, EngineErrorView};
pub use resolve::{
    execute_move, execute_moves, piece_move, qualified_position, update_available_castles,
};
