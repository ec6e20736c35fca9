//! Game-state core of a grid-based snake game.
//!
//! The crate tracks the snake, the food, the score and the lives, and decides
//! once per tick whether the move is legal, whether food is eaten and whether
//! a round or the whole session ends. Drawing, windowing and timing belong to
//! the caller, which feeds in ticks and heading changes and reads snapshots.

pub mod grid;
pub mod snake;
pub mod chance;
pub mod food;
pub mod round;
pub mod session;
pub mod laws;
pub mod capacity;

pub use grid::{Board, BoundaryPolicy, Cell, Heading};
pub use snake::{MoveOutcome, Snake};
pub use food::Food;
pub use round::{Frame, Round, RoundOutcome};
pub use session::{Session, SessionOutcome};
