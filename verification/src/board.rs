//! The executable board and its operations, each specified against the
//! [`Position`] it stands for.

use vstd::prelude::*;
use crate::cell::{CellState, Side};
use crate::position::{square, three_in_a_row, BoardResult, Position};
use crate::theorems::{lemma_initial_position, lemma_move_keeps_parity};

verus! {

/// Why an operation on a board was refused.
#[derive(Debug, Clone, Copy, PartialEq, Eq, Structural)]
pub enum GameError {
    /// The move addresses a square off the grid or one already taken.
    InvalidMove,
    /// The board breaks the parity invariant of play, so no game leads to it.
    InternalInvariantViolation,
}

/// A 3×3 grid of squares, indexed `board[row][col]`, and the flag that says
/// whether `Player` is the side to move.
#[derive(Debug, Clone, Copy, PartialEq, Eq)]
pub struct BoardState {
    pub board: [[CellState; 3]; 3],
    pub player_turn: bool,
}

impl View for BoardState {
    type V = Position;

    open spec fn view(&self) -> Position {
        Position {
            cells: Seq::new(9, |i: int| self.board[i / 3][i % 3]),
            player_turn: self.player_turn,
        }
    }
}

impl Default for BoardState {
    /// The board before the first move.
    fn default() -> (b: BoardState)
        ensures
            b@ == Position::initial(),
            b@.well_formed(),
    {
        let row = [CellState::Empty, CellState::Empty, CellState::Empty];
        let b = BoardState { board: [row, row, row], player_turn: true };
        proof {
            assert(b@ =~= Position::initial());
            lemma_initial_position();
        }
        b
    }
}

/// Who has completed a line made of the three given marks, if anyone.
pub fn player_won(c1: CellState, c2: CellState, c3: CellState) -> (owner: Option<Side>)
    ensures
        owner == three_in_a_row(c1, c2, c3),
{
    match (c1, c2, c3) {
        (CellState::Player, CellState::Player, CellState::Player) => Some(Side::Player),
        (CellState::Bot, CellState::Bot, CellState::Bot) => Some(Side::Bot),
        _ => None,
    }
}

impl BoardState {
    /// Whether the square at `row`, `col` is on the grid and empty, which is
    /// exactly when a move there is accepted.
    pub fn is_empty(&self, row: usize, col: usize) -> (open: bool)
        ensures
            open == (row < 3 && col < 3 && self@.at(row as int, col as int) == CellState::Empty),
    {
        row < 3 && col < 3 && self.board[row][col] == CellState::Empty
    }

    /// Whether no square is empty.
    pub fn is_full(&self) -> (full: bool)
        ensures
            full == self@.full(),
    {
        for i in 0usize..3
            invariant
                forall|k: int| 0 <= k < 3 * i ==> self@.cells[k] != CellState::Empty,
        {
            for j in 0usize..3
                invariant
                    i < 3,
                    forall|k: int| 0 <= k < 3 * i + j ==> self@.cells[k] != CellState::Empty,
            {
                if self.board[i][j] == CellState::Empty {
                    assert(self@.cells[3 * i + j] == CellState::Empty);
                    return false;
                }
            }
        }
        true
    }

    /// The board drawn as text: a line for each row, top to bottom, with one
    /// character for each square and a line feed at its end.
    pub fn render(&self) -> (text: Vec<char>)
        ensures
            text@ == self@.text(),
    {
        let mut text: Vec<char> = Vec::new();
        for i in 0usize..3
            invariant
                text@.len() == 4 * i,
                forall|k: int| 0 <= k < text@.len() ==> text@[k] == self@.text()[k],
        {
            for j in 0usize..3
                invariant
                    i < 3,
                    text@.len() == 4 * i + j,
                    forall|k: int| 0 <= k < text@.len() ==> text@[k] == self@.text()[k],
            {
                text.push(self.board[i][j].symbol());
            }
            text.push('\n');
        }
        text
    }

    /// The standing of the board: the owner of the first completed line in
    /// examination order has won; without a completed line the game is drawn
    /// when the board is full and still being played otherwise.
    pub fn check_result(&self) -> (result: BoardResult)
        ensures
            result == self@.outcome(),
    {
        let board = &self.board;
        let mut won = player_won(board[0][0], board[0][1], board[0][2]);
        if won.is_none() {
            won = player_won(board[1][0], board[1][1], board[1][2]);
        }
        if won.is_none() {
            won = player_won(board[2][0], board[2][1], board[2][2]);
        }
        if won.is_none() {
            won = player_won(board[0][0], board[1][0], board[2][0]);
        }
        if won.is_none() {
            won = player_won(board[0][1], board[1][1], board[2][1]);
        }
        if won.is_none() {
            won = player_won(board[0][2], board[1][2], board[2][2]);
        }
        if won.is_none() {
            won = player_won(board[0][0], board[1][1], board[2][2]);
        }
        if won.is_none() {
            won = player_won(board[0][2], board[1][1], board[2][0]);
        }
        proof {
            reveal_with_fuel(Position::first_owner, 9);
        }
        match won {
            Some(Side::Player) => BoardResult::PlayerWin,
            Some(Side::Bot) => BoardResult::BotWin,
            None => if self.is_full() {
                BoardResult::Draw
            } else {
                BoardResult::Playing
            },
        }
    }

    /// Plays `side`'s mark on the square at `row`, `col`.
    ///
    /// The move is refused with [`GameError::InvalidMove`] exactly when the
    /// square is off the grid or not empty. Otherwise the result is a new
    /// board that differs from this one in that square, which now carries
    /// `side`'s mark, and in the turn flag, which is flipped. A move by the
    /// side whose turn it is keeps the parity invariant.
    pub fn apply(&self, row: usize, col: usize, side: Side) -> (result: Result<BoardState, GameError>)
        ensures
            result is Ok <==> row < 3 && col < 3 && self@.at(row as int, col as int)
                == CellState::Empty,
            result matches Ok(next) ==> next@ == self@.place(
                square(row as int, col as int),
                side.spec_mark(),
            ),
            result matches Err(e) ==> e == GameError::InvalidMove,
            result matches Ok(next) ==> (self@.well_formed() && side == self@.mover()
                ==> next@.well_formed()),
    {
        if !self.is_empty(row, col) {
            return Err(GameError::InvalidMove);
        }
        proof {
            if self@.well_formed() && side == self@.mover() {
                lemma_move_keeps_parity(self@, square(row as int, col as int));
            }
        }
        let mut next = *self;
        next.board[row][col] = side.mark();
        next.player_turn = !next.player_turn;
        Ok(next)
    }
}

} // verus!
