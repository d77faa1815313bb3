//! A 3×3 noughts-and-crosses engine with an exact, exhaustive solver.
//!
//! The crate is split into a mathematical model of a position
//! ([`position::Position`]), the executable board ([`board::BoardState`]) whose
//! operations are specified against that model, and the solver
//! ([`BoardState::min_max`], [`BoardState::solve`]) specified against the
//! game-theoretic value defined in [`minimax`].

pub mod board;
pub mod cell;
pub mod minimax;
pub mod position;
pub mod solver;
pub mod theorems;

pub use board::{BoardState, GameError};
pub use cell::{CellState, Side};
pub use position::{BoardResult, Position};
