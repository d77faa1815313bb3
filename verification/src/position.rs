//! The mathematical model of a game position.
//!
//! A position is the nine squares of the grid in row-major order (square
//! `3 * row + col`) together with the flag that says whose move is next.
//! Everything the executable board promises is stated over this model.

use vstd::prelude::*;
use crate::cell::{CellState, Side};

verus! {

/// How a position stands: won by one side, drawn, or still being played.
#[derive(Debug, Clone, Copy, PartialEq, Eq, Structural)]
pub enum BoardResult {
    PlayerWin,
    BotWin,
    Draw,
    Playing,
}

/// A position: the nine squares in row-major order and the turn flag.
#[verifier::ext_equal]
pub struct Position {
    pub cells: Seq<CellState>,
    pub player_turn: bool,
}

/// The square with the given row and column, as an index into the
/// row-major sequence.
pub open spec fn square(row: int, col: int) -> int {
    3 * row + col
}

/// The three squares of line `k`. Lines are numbered in the order in which
/// they are examined: rows 0 to 2 top to bottom, columns 3 to 5 left to
/// right, then the main diagonal 6 and the anti-diagonal 7.
pub open spec fn line(k: int) -> (int, int, int) {
    if 0 <= k < 3 {
        (square(k, 0), square(k, 1), square(k, 2))
    } else if 3 <= k < 6 {
        (square(0, k - 3), square(1, k - 3), square(2, k - 3))
    } else if k == 6 {
        (square(0, 0), square(1, 1), square(2, 2))
    } else {
        (square(0, 2), square(1, 1), square(2, 0))
    }
}

/// Who has completed a line made of the three given marks, if anyone.
pub open spec fn three_in_a_row(a: CellState, b: CellState, c: CellState) -> Option<Side> {
    if a == CellState::Player && b == CellState::Player && c == CellState::Player {
        Some(Side::Player)
    } else if a == CellState::Bot && b == CellState::Bot && c == CellState::Bot {
        Some(Side::Bot)
    } else {
        None
    }
}

impl Position {
    /// The position before the first move: every square empty, `Player` to move.
    pub open spec fn initial() -> Position {
        Position { cells: Seq::new(9, |i: int| CellState::Empty), player_turn: true }
    }

    /// A position has exactly nine squares.
    pub open spec fn shaped(self) -> bool {
        self.cells.len() == 9
    }

    /// The mark at the given row and column.
    pub open spec fn at(self, row: int, col: int) -> CellState {
        self.cells[square(row, col)]
    }

    /// The side whose move is next.
    pub open spec fn mover(self) -> Side {
        if self.player_turn {
            Side::Player
        } else {
            Side::Bot
        }
    }

    /// Square `i` is on the grid and empty.
    pub open spec fn vacant(self, i: int) -> bool {
        0 <= i < 9 && self.cells[i] == CellState::Empty
    }

    /// No square is empty.
    pub open spec fn full(self) -> bool {
        forall|i: int| 0 <= i < 9 ==> self.cells[i] != CellState::Empty
    }

    /// The side that owns line `k`: all three of its squares carry that
    /// side's mark.
    pub open spec fn line_owner(self, k: int) -> Option<Side> {
        let (a, b, c) = line(k);
        three_in_a_row(self.cells[a], self.cells[b], self.cells[c])
    }

    /// `side` owns at least one of the eight lines.
    pub open spec fn has_line(self, side: Side) -> bool {
        exists|k: int| 0 <= k < 8 && self.line_owner(k) == Some(side)
    }

    /// The owner of the first owned line among lines `k..8`.
    pub open spec fn first_owner(self, k: int) -> Option<Side>
        decreases 8 - k,
    {
        if k < 0 || k >= 8 {
            None
        } else if self.line_owner(k) is Some {
            self.line_owner(k)
        } else {
            self.first_owner(k + 1)
        }
    }

    /// The winner: the owner of the first owned line in examination order.
    pub open spec fn winner(self) -> Option<Side> {
        self.first_owner(0)
    }

    /// The standing of the position. A won line decides; without one the
    /// position is drawn when full and still being played otherwise.
    pub open spec fn outcome(self) -> BoardResult {
        match self.winner() {
            Some(Side::Player) => BoardResult::PlayerWin,
            Some(Side::Bot) => BoardResult::BotWin,
            None => if self.full() {
                BoardResult::Draw
            } else {
                BoardResult::Playing
            },
        }
    }

    /// The position drawn as text: a line for each row, top to bottom, with
    /// one character for each square and a line feed at its end.
    pub open spec fn text(self) -> Seq<char> {
        Seq::new(
            12,
            |i: int|
                if i % 4 == 3 {
                    '\n'
                } else {
                    self.at(i / 4, i % 4).spec_symbol()
                },
        )
    }

    /// The number of squares below index `k` that carry `mark`.
    pub open spec fn count_below(self, mark: CellState, k: int) -> nat
        decreases k,
    {
        if k <= 0 {
            0
        } else {
            self.count_below(mark, k - 1) + if self.cells[k - 1] == mark {
                1nat
            } else {
                0nat
            }
        }
    }

    /// The number of squares that carry `mark`.
    pub open spec fn count(self, mark: CellState) -> nat {
        self.count_below(mark, 9)
    }

    /// The parity invariant of play: `Player` moves first and the sides
    /// alternate, so `Player` has made as many moves as `Bot` exactly when
    /// `Player` is to move, and one more otherwise.
    pub open spec fn well_formed(self) -> bool {
        &&& self.shaped()
        &&& if self.player_turn {
            self.count(CellState::Player) == self.count(CellState::Bot)
        } else {
            self.count(CellState::Player) == self.count(CellState::Bot) + 1
        }
    }

    /// The position after `mark` is written to square `i` and the turn flag
    /// is flipped.
    pub open spec fn place(self, i: int, mark: CellState) -> Position {
        Position { cells: self.cells.update(i, mark), player_turn: !self.player_turn }
    }

    /// The position after the side to move takes square `i`.
    pub open spec fn child(self, i: int) -> Position {
        self.place(i, self.mover().spec_mark())
    }

    /// How writing `mark` to square `i` changes the number of squares below
    /// `k` that carry `m`: the old mark of the square is no longer counted
    /// and the new one is.
    pub proof fn lemma_count_below_after_place(self, i: int, mark: CellState, m: CellState, k: int)
        requires
            self.shaped(),
            0 <= i < 9,
            0 <= k <= 9,
        ensures
            self.place(i, mark).count_below(m, k) + (if i < k && self.cells[i] == m {
                1int
            } else {
                0int
            }) == self.count_below(m, k) + (if i < k && mark == m {
                1int
            } else {
                0int
            }),
        decreases k,
    {
        if k > 0 {
            self.lemma_count_below_after_place(i, mark, m, k - 1);
        }
    }

    /// How writing `mark` to square `i` changes the number of squares that
    /// carry `m`.
    pub proof fn lemma_count_after_place(self, i: int, mark: CellState, m: CellState)
        requires
            self.shaped(),
            0 <= i < 9,
        ensures
            self.place(i, mark).count(m) + (if self.cells[i] == m {
                1int
            } else {
                0int
            }) == self.count(m) + (if mark == m {
                1int
            } else {
                0int
            }),
    {
        self.lemma_count_below_after_place(i, mark, m, 9);
    }
}

/// The position reached from the initial one when the sides, taking turns,
/// take the given squares in order.
pub open spec fn after(moves: Seq<int>) -> Position
    decreases moves.len(),
{
    if moves.len() == 0 {
        Position::initial()
    } else {
        after(moves.drop_last()).child(moves.last())
    }
}

/// Every move of the sequence takes a square that is vacant when it is made.
pub open spec fn legal(moves: Seq<int>) -> bool
    decreases moves.len(),
{
    moves.len() > 0 ==> legal(moves.drop_last()) && after(moves.drop_last()).vacant(moves.last())
}

/// The sequence is a game as it is played: every move takes a vacant square
/// and is made while the game is still in progress.
pub open spec fn played(moves: Seq<int>) -> bool
    decreases moves.len(),
{
    moves.len() > 0 ==> {
        &&& played(moves.drop_last())
        &&& after(moves.drop_last()).vacant(moves.last())
        &&& after(moves.drop_last()).outcome() == BoardResult::Playing
    }
}

impl BoardResult {
    /// The value of a finished game to the solver: `-1` when `Player` has
    /// won, `1` when `Bot` has won, `0` for a draw. A game still being
    /// played has none.
    pub open spec fn spec_score(self) -> Option<int> {
        match self {
            BoardResult::PlayerWin => Some(-1int),
            BoardResult::BotWin => Some(1int),
            BoardResult::Draw => Some(0int),
            BoardResult::Playing => None,
        }
    }

    /// The value of a finished game to the solver, `None` while the game is
    /// still being played.
    pub fn score(&self) -> (s: Option<i32>)
        ensures
            match s {
                Some(value) => self.spec_score() == Some(value as int),
                None => self.spec_score() is None,
            },
    {
        match self {
            BoardResult::PlayerWin => Some(-1),
            BoardResult::BotWin => Some(1),
            BoardResult::Draw => Some(0),
            BoardResult::Playing => None,
        }
    }
}

} // verus!
