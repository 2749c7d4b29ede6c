//! Noughts and crosses: the rules of the game on a 3×3 grid.
//!
//! Two players take turns marking empty cells. A game ends as soon as one
//! player holds a whole row, column or diagonal, or when the grid is full.
//!
//! - [`player`]: the two sides;
//! - [`board`]: the nine cells and the marks on them;
//! - [`rules`]: the eight lines and the verdict on a grid;
//! - [`game`]: [`GameState`], the game in play, and [`Game`], its model;
//! - [`laws`]: what is proved of every game.

pub mod board;
pub mod game;
pub mod laws;
pub mod player;
pub mod rules;

pub use board::Cell;
pub use game::{Game, GameError, GameState};
pub use player::Player;
pub use rules::{evaluate, Outcome};
