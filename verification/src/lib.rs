//! Core engine of a single-screen numeric matching puzzle: a 3x3 grid of
//! numbered tiles, each markable for increment or decrement, resolved by a
//! multi-round cascading-match elimination algorithm.
//!
//! The library owns the data model (tiles, board, action budget, level
//! snapshots) and the resolution algorithm; rendering, input polling and
//! asset handling live outside, behind plain-value interfaces.

pub mod assets;
pub mod budget;
pub mod button;
pub mod disabled;
pub mod effect;
pub mod game;
pub mod level;
pub mod levelmanager;
pub mod tile;
pub mod tilemanager;
pub mod timer;

pub use budget::ActionBudget;
pub use button::ButtonType;
pub use disabled::Disabled;
pub use effect::Direction;
pub use effect::Effect;
pub use game::GameState;
pub use level::Level;
pub use levelmanager::Levelmanager;
pub use tile::Tile;
pub use tile::TileState;
pub use tilemanager::Tilemanager;
pub use timer::Timer;
