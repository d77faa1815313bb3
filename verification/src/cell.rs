//! Marks on the grid and the two sides that place them.

use vstd::prelude::*;

verus! {

/// What one square of the grid holds.
#[derive(Debug, Clone, Copy, PartialEq, Eq, Structural)]
pub enum CellState {
    Empty,
    Player,
    Bot,
}

/// One of the two sides. `Player` moves first.
#[derive(Debug, Clone, Copy, PartialEq, Eq, Structural)]
pub enum Side {
    Player,
    Bot,
}

impl Side {
    /// The side that moves after this one.
    pub open spec fn opponent(self) -> Side {
        match self {
            Side::Player => Side::Bot,
            Side::Bot => Side::Player,
        }
    }

    /// The value of a game this side has won: `-1` for `Player`, `1` for `Bot`.
    pub open spec fn goal(self) -> int {
        match self {
            Side::Player => -1,
            Side::Bot => 1,
        }
    }

    /// The mark this side leaves on the grid.
    pub open spec fn spec_mark(self) -> CellState {
        match self {
            Side::Player => CellState::Player,
            Side::Bot => CellState::Bot,
        }
    }

    /// The mark this side leaves on the grid.
    #[verifier::when_used_as_spec(spec_mark)]
    pub fn mark(self) -> (m: CellState)
        ensures
            m == self.spec_mark(),
    {
        match self {
            Side::Player => CellState::Player,
            Side::Bot => CellState::Bot,
        }
    }
}

impl CellState {
    /// The character a square is drawn with: `-` for an empty square, `X` for
    /// the first side, `O` for the second.
    pub open spec fn spec_symbol(self) -> char {
        match self {
            CellState::Empty => '-',
            CellState::Player => 'X',
            CellState::Bot => 'O',
        }
    }

    /// The character a square is drawn with.
    #[verifier::when_used_as_spec(spec_symbol)]
    pub fn symbol(self) -> (c: char)
        ensures
            c == self.spec_symbol(),
    {
        match self {
            CellState::Empty => '-',
            CellState::Player => 'X',
            CellState::Bot => 'O',
        }
    }
}

} // verus!
