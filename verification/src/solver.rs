//! The exact solver: exhaustive search of the game tree, without pruning.

use vstd::prelude::*;
use crate::board::{BoardState, GameError};
use crate::cell::{CellState, Side};
use crate::position::{square, BoardResult, Position};

verus! {

/// A search result in the terms of the model: the value, and the square as
/// an index in row-major order.
pub open spec fn found(best: Option<(i32, (usize, usize))>) -> Option<(int, int)> {
    match best {
        None => None,
        Some((value, (row, col))) => Some((value as int, square(row as int, col as int))),
    }
}

/// What solving the position `p` must return.
///
/// A position that breaks the parity invariant is refused. Otherwise the
/// value is the value of the game; a finished game has no move, and a game
/// in progress has the best move, given by its row and column.
pub open spec fn is_solution(
    p: Position,
    result: Result<(i32, Option<(usize, usize)>), GameError>,
) -> bool {
    match result {
        Err(e) => !p.well_formed() && e == GameError::InternalInvariantViolation,
        Ok((value, best_move)) => {
            &&& p.well_formed()
            &&& value == p.value()
            &&& match best_move {
                None => p.outcome() != BoardResult::Playing,
                Some((row, col)) => {
                    &&& p.outcome() == BoardResult::Playing
                    &&& row < 3
                    &&& col < 3
                    &&& p.is_best_move(square(row as int, col as int))
                },
            }
        },
    }
}

impl BoardState {
    /// The side whose move is next.
    pub fn mover(&self) -> (side: Side)
        ensures
            side == self@.mover(),
    {
        if self.player_turn {
            Side::Player
        } else {
            Side::Bot
        }
    }

    /// The number of squares that carry `mark`.
    pub fn count(&self, mark: CellState) -> (n: usize)
        ensures
            n == self@.count(mark),
            n <= 9,
    {
        let mut n: usize = 0;
        for i in 0usize..3
            invariant
                n == self@.count_below(mark, 3 * i),
                n <= 3 * i,
        {
            for j in 0usize..3
                invariant
                    i < 3,
                    n == self@.count_below(mark, 3 * i + j),
                    n <= 3 * i + j,
            {
                if self.board[i][j] == mark {
                    n += 1;
                }
            }
        }
        n
    }

    /// Whether the board keeps the parity invariant of play: `Player` has
    /// made as many moves as `Bot` when `Player` is to move, and one more
    /// when `Bot` is.
    pub fn is_well_formed(&self) -> (ok: bool)
        ensures
            ok == self@.well_formed(),
    {
        let players = self.count(CellState::Player);
        let bots = self.count(CellState::Bot);
        if self.player_turn {
            players == bots
        } else {
            players == bots + 1
        }
    }

    /// The value of the game from this board when both sides play perfectly:
    /// `-1` if `Player` wins, `1` if `Bot` wins, `0` for a draw.
    ///
    /// Every continuation is searched. On a board still being played the
    /// side to move tries each empty square in row-major order and keeps the
    /// best of the values found, the least for `Player` and the greatest for
    /// `Bot`.
    pub fn min_max(&self) -> (value: i32)
        ensures
            value == self@.value(),
        decreases self@.count(CellState::Empty),
    {
        match self.check_result().score() {
            Some(score) => {
                return score;
            },
            None => {},
        }
        let side = self.mover();
        let mut best: Option<i32> = None;
        for i in 0usize..3
            invariant
                side == self@.mover(),
                best is Some == self@.optimum(3 * i) is Some,
                best is Some ==> best->0 == self@.optimum(3 * i)->0,
                best is None ==> forall|k: int| 0 <= k < 3 * i ==> !self@.vacant(k),
        {
            for j in 0usize..3
                invariant
                    i < 3,
                    side == self@.mover(),
                    best is Some == self@.optimum(3 * i + j) is Some,
                    best is Some ==> best->0 == self@.optimum(3 * i + j)->0,
                    best is None ==> forall|k: int| 0 <= k < 3 * i + j ==> !self@.vacant(k),
            {
                if let Ok(new_board) = self.apply(i, j, side) {
                    proof {
                        self@.lemma_child_fills_a_square(square(i as int, j as int));
                    }
                    let result = new_board.min_max();
                    if self.player_turn {
                        if best.is_none() || best.unwrap() > result {
                            best = Some(result);
                        }
                    } else {
                        if best.is_none() || best.unwrap() < result {
                            best = Some(result);
                        }
                    }
                }
            }
        }
        proof {
            // A game still being played has an empty square, so a reply was found.
            assert(!self@.full());
            let k = choose|k: int| 0 <= k < 9 && self@.cells[k] == CellState::Empty;
            assert(self@.vacant(k));
        }
        best.unwrap()
    }

    /// Solves the board: the value of the game under perfect play and the
    /// move that secures it.
    ///
    /// A board that breaks the parity invariant is refused with
    /// [`GameError::InternalInvariantViolation`]. On a finished board the
    /// value is the score of the result and there is no move. Otherwise the
    /// move is the first square in row-major order whose reply attains the
    /// value: a later square of equal worth never replaces an earlier one.
    pub fn solve(&self) -> (result: Result<(i32, Option<(usize, usize)>), GameError>)
        ensures
            is_solution(self@, result),
    {
        if !self.is_well_formed() {
            return Err(GameError::InternalInvariantViolation);
        }
        match self.check_result().score() {
            Some(score) => {
                return Ok((score, None));
            },
            None => {},
        }
        let side = self.mover();
        let mut best: Option<(i32, (usize, usize))> = None;
        for i in 0usize..3
            invariant
                side == self@.mover(),
                self@.scanned(3 * i, found(best)),
                best matches Some((_, (row, col))) ==> row < 3 && col < 3,
        {
            for j in 0usize..3
                invariant
                    i < 3,
                    side == self@.mover(),
                    self@.scanned(3 * i + j, found(best)),
                    best matches Some((_, (row, col))) ==> row < 3 && col < 3,
            {
                if let Ok(new_board) = self.apply(i, j, side) {
                    let result = new_board.min_max();
                    let improves = match best {
                        None => true,
                        Some((held, _)) => if self.player_turn {
                            held > result
                        } else {
                            held < result
                        },
                    };
                    if improves {
                        best = Some((result, (i, j)));
                    }
                }
            }
        }
        match best {
            Some((value, cell)) => Ok((value, Some(cell))),
            None => {
                proof {
                    // A game still being played has an empty square, so a reply was found.
                    assert(!self@.full());
                    let k = choose|k: int| 0 <= k < 9 && self@.cells[k] == CellState::Empty;
                    assert(self@.vacant(k));
                }
                Err(GameError::InternalInvariantViolation)
            },
        }
    }
}

} // verus!
