//! Rules engine for a two-player game of squares on a 7x7 lattice of points.
//!
//! Players alternately claim edges of the lattice. Claiming the fourth edge of
//! a cell awards the cell to the claiming player, who then moves again.
//!
//! - [`geometry`]: lattice points, exact board-space coordinates, and the map
//!   from window pixels to board space.
//! - [`edge`]: edges and their hit regions.
//! - [`board`]: the fixed arena of edges and cells.
//! - [`input`]: what a tick is told about the pointer and the mouse button.
//! - [`rules`]: the game as a mathematical state machine.
//! - [`game`]: the running game, proved to follow the state machine.
//! - [`laws`]: what holds of every game.

pub mod board;
pub mod edge;
pub mod game;
pub mod geometry;
pub mod input;
pub mod laws;
pub mod rules;

pub use crate::game::{spawn_world, Game};
