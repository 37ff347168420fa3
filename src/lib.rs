//! Rule engine of a grid-based snake game: the snake's body and movement,
//! food placement, collision checks and the running / game-over state machine.
//! Rendering and input decoding are left to the caller, which receives plain
//! draw commands and hands in decoded directions and elapsed time.
pub mod draw;
pub mod game;
pub mod snake;

pub use draw::{DrawCmd, Role};
pub use game::{ConfigError, Coordinate, Game, Phase};
pub use snake::{Direction, Snake};
