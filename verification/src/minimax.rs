//! The game-theoretic value of a position, and what makes a move the best.
//!
//! `Player` wins count `-1`, `Bot` wins `1` and draws `0`, so `Player` plays
//! for the least value and `Bot` for the greatest.

use vstd::prelude::*;
use crate::cell::CellState;
use crate::position::{line, Position};

verus! {

impl Position {
    /// Taking a vacant square leaves one empty square fewer.
    pub proof fn lemma_child_fills_a_square(self, i: int)
        requires
            self.shaped(),
            self.vacant(i),
        ensures
            self.child(i).shaped(),
            self.child(i).count(CellState::Empty) + 1 == self.count(CellState::Empty),
    {
        self.lemma_count_after_place(i, self.mover().spec_mark(), CellState::Empty);
    }

    /// Of two values, the one the side to move would rather have. The first
    /// is kept unless the second is strictly better.
    pub open spec fn prefer(self, held: int, offered: int) -> int {
        if self.player_turn {
            if held > offered {
                offered
            } else {
                held
            }
        } else {
            if held < offered {
                offered
            } else {
                held
            }
        }
    }

    /// The value of the game from this position when both sides play
    /// perfectly: the score of a finished game, and otherwise the best, for
    /// the side to move, of the values of the positions one move away. A
    /// game in progress has a vacant square, so there is such a best value.
    pub open spec fn value(self) -> int
        decreases self.count(CellState::Empty), 1int, 0int,
        when self.shaped()
    {
        match self.outcome().spec_score() {
            Some(score) => score,
            None => match self.optimum(9) {
                Some(best) => best,
                None => 0,
            },
        }
    }

    /// The best value, for the side to move, among the replies on the vacant
    /// squares below `k`; `None` when no such square is vacant.
    pub open spec fn optimum(self, k: int) -> Option<int>
        decreases self.count(CellState::Empty), 0int, k,
        when self.shaped()
    {
        if k <= 0 {
            None
        } else if !self.vacant(k - 1) {
            self.optimum(k - 1)
        } else {
            proof {
                self.lemma_child_fills_a_square(k - 1);
            }
            let reply = self.child(k - 1).value();
            match self.optimum(k - 1) {
                None => Some(reply),
                Some(held) => Some(self.prefer(held, reply)),
            }
        }
    }

    /// The value of the position reached when the side to move takes square `i`.
    pub open spec fn reply(self, i: int) -> int {
        self.child(i).value()
    }

    /// What a scan of the squares below `k` in row-major order has found:
    /// nothing if none of them is vacant, and otherwise the best value among
    /// their replies together with the first square that attains it.
    pub open spec fn scanned(self, k: int, found: Option<(int, int)>) -> bool {
        match found {
            None => {
                &&& self.optimum(k) is None
                &&& forall|j: int| 0 <= j < k ==> !self.vacant(j)
            },
            Some((value, at)) => {
                &&& self.optimum(k) == Some(value)
                &&& 0 <= at < k
                &&& self.vacant(at)
                &&& self.reply(at) == value
                &&& forall|j: int| 0 <= j < at && self.vacant(j) ==> self.reply(j) != value
                &&& forall|j: int|
                    0 <= j < k && self.vacant(j) ==> self.prefer(value, #[trigger] self.reply(j))
                        == value
            },
        }
    }

    /// The side to move holds two squares of line `k` and the third, `t`, is
    /// vacant: taking `t` completes the line.
    pub open spec fn completes(self, k: int, t: int) -> bool {
        let (a, b, c) = line(k);
        let own = self.mover().spec_mark();
        &&& 0 <= k < 8
        &&& self.vacant(t)
        &&& {
            ||| t == a && self.cells[b] == own && self.cells[c] == own
            ||| t == b && self.cells[a] == own && self.cells[c] == own
            ||| t == c && self.cells[a] == own && self.cells[b] == own
        }
    }

    /// Square `i` is the best move: it is vacant, the reply on it attains the
    /// value of the position, and no vacant square before it in row-major
    /// order does.
    pub open spec fn is_best_move(self, i: int) -> bool {
        &&& self.vacant(i)
        &&& self.reply(i) == self.value()
        &&& forall|j: int| 0 <= j < i && self.vacant(j) ==> self.reply(j) != self.value()
    }
}

} // verus!
