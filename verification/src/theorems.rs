//! What holds of every position: theorems about the outcome, about moves and
//! about the value of the game, each proved from the definitions of the model.

use vstd::prelude::*;
use crate::board::{BoardState, GameError};
use crate::cell::{CellState, Side};
use crate::position::{after, legal, played, square, BoardResult, Position};
use crate::solver::is_solution;

verus! {

/// The outcome names the winner or tells that there is none: it is a win for
/// a side only if that side owns a line, and a draw or a game in progress
/// only if nobody does.
pub proof fn lemma_outcome_is_sound(p: Position)
    ensures
        p.outcome() == BoardResult::PlayerWin ==> p.has_line(Side::Player),
        p.outcome() == BoardResult::BotWin ==> p.has_line(Side::Bot),
        p.outcome() == BoardResult::Draw ==> !p.has_line(Side::Player) && !p.has_line(Side::Bot)
            && p.full(),
        p.outcome() == BoardResult::Playing ==> !p.has_line(Side::Player) && !p.has_line(
            Side::Bot,
        ) && !p.full(),
{
    reveal_with_fuel(Position::first_owner, 9);
}

/// The winner is the owner of the first owned line in examination order:
/// rows before columns before diagonals.
pub proof fn lemma_winner_owns_the_first_line(p: Position, side: Side)
    ensures
        p.winner() == Some(side) <==> exists|k: int|
            0 <= k < 8 && #[trigger] p.line_owner(k) == Some(side) && forall|j: int|
                0 <= j < k ==> p.line_owner(j) is None,
{
    reveal_with_fuel(Position::first_owner, 9);
}

/// The outcome classifies every position on which at most one side owns a
/// line: three equal marks of a side in a row, column or diagonal are a win
/// for that side, a full grid without such a line is a draw, and anything
/// else is a game in progress.
pub proof fn lemma_outcome_classifies(p: Position)
    requires
        !(p.has_line(Side::Player) && p.has_line(Side::Bot)),
    ensures
        p.has_line(Side::Player) ==> p.outcome() == BoardResult::PlayerWin,
        p.has_line(Side::Bot) ==> p.outcome() == BoardResult::BotWin,
        !p.has_line(Side::Player) && !p.has_line(Side::Bot) && p.full() ==> p.outcome()
            == BoardResult::Draw,
        !p.has_line(Side::Player) && !p.has_line(Side::Bot) && !p.full() ==> p.outcome()
            == BoardResult::Playing,
{
    lemma_outcome_is_sound(p);
    reveal_with_fuel(Position::first_owner, 9);
}

/// Two boards that stand for the same position are the same board.
pub proof fn lemma_view_tells_boards_apart(a: BoardState, b: BoardState)
    requires
        a@ == b@,
    ensures
        a == b,
{
    assert forall|i: int| 0 <= i < 3 implies a.board[i] == b.board[i] by {
        assert forall|j: int| 0 <= j < 3 implies a.board[i][j] == b.board[i][j] by {
            assert(a@.cells[3 * i + j] == a.board[i][j]);
            assert(b@.cells[3 * i + j] == b.board[i][j]);
        }
        assert(a.board[i] =~= b.board[i]);
    }
    assert(a.board =~= b.board);
}

/// The initial position keeps the parity invariant and is a game in progress.
pub proof fn lemma_initial_position()
    ensures
        Position::initial().well_formed(),
        Position::initial().outcome() == BoardResult::Playing,
{
    let p = Position::initial();
    reveal_with_fuel(Position::count_below, 10);
    reveal_with_fuel(Position::first_owner, 9);
    assert(p.cells[0] == CellState::Empty);
}

/// A move by the side whose turn it is keeps the parity invariant.
pub proof fn lemma_move_keeps_parity(p: Position, i: int)
    requires
        p.well_formed(),
        p.vacant(i),
    ensures
        p.child(i).well_formed(),
{
    let mark = p.mover().spec_mark();
    p.lemma_count_after_place(i, mark, CellState::Player);
    p.lemma_count_after_place(i, mark, CellState::Bot);
}

/// Writing a mark changes the square written to, leaves every other square
/// as it was, and flips the turn flag.
pub proof fn lemma_place_changes_one_square(p: Position, row: int, col: int, mark: CellState)
    requires
        p.shaped(),
        0 <= row < 3,
        0 <= col < 3,
    ensures
        p.place(square(row, col), mark).shaped(),
        p.place(square(row, col), mark).at(row, col) == mark,
        forall|r: int, c: int|
            0 <= r < 3 && 0 <= c < 3 && (r != row || c != col) ==> #[trigger] p.place(
                square(row, col),
                mark,
            ).at(r, c) == p.at(r, c),
        p.place(square(row, col), mark).player_turn == !p.player_turn,
{
}

/// A move completes lines only for the side that makes it: if the other
/// side owned no line before the move, it owns none after it.
pub proof fn lemma_move_completes_only_own_lines(p: Position, i: int)
    requires
        p.shaped(),
        p.vacant(i),
        !p.has_line(p.mover().opponent()),
    ensures
        !p.child(i).has_line(p.mover().opponent()),
{
    let other = p.mover().opponent();
    let q = p.child(i);
    if q.has_line(other) {
        let k = choose|k: int| 0 <= k < 8 && q.line_owner(k) == Some(other);
        assert(p.line_owner(k) == Some(other));
    }
}

/// Every position reached by legal moves from the initial position keeps
/// the parity invariant: after `n` moves `Player` has made the first, third
/// and every other odd one, `Bot` the even ones, and `Player` is to move
/// exactly when `n` is even.
pub proof fn lemma_legal_moves_keep_parity(moves: Seq<int>)
    requires
        legal(moves),
    ensures
        after(moves).well_formed(),
        after(moves).count(CellState::Player) == (moves.len() + 1) / 2,
        after(moves).count(CellState::Bot) == moves.len() / 2,
        after(moves).count(CellState::Empty) == 9 - moves.len(),
        after(moves).player_turn <==> moves.len() % 2 == 0,
    decreases moves.len(),
{
    if moves.len() == 0 {
        lemma_initial_position();
        reveal_with_fuel(Position::count_below, 10);
    } else {
        let before = after(moves.drop_last());
        let mark = before.mover().spec_mark();
        lemma_legal_moves_keep_parity(moves.drop_last());
        lemma_move_keeps_parity(before, moves.last());
        before.lemma_count_after_place(moves.last(), mark, CellState::Player);
        before.lemma_count_after_place(moves.last(), mark, CellState::Bot);
        before.lemma_count_after_place(moves.last(), mark, CellState::Empty);
    }
}

/// In a game as it is played at most one side ever owns a line, so the
/// outcome classifies every position of the game: a line of three equal
/// marks is a win for its side, a full grid without one is a draw, and
/// anything else is a game in progress.
pub proof fn lemma_outcome_classifies_play(moves: Seq<int>)
    requires
        played(moves),
    ensures
        legal(moves),
        !(after(moves).has_line(Side::Player) && after(moves).has_line(Side::Bot)),
        after(moves).has_line(Side::Player) <==> after(moves).outcome() == BoardResult::PlayerWin,
        after(moves).has_line(Side::Bot) <==> after(moves).outcome() == BoardResult::BotWin,
        !after(moves).has_line(Side::Player) && !after(moves).has_line(Side::Bot) && after(
            moves,
        ).full() <==> after(moves).outcome() == BoardResult::Draw,
        !after(moves).has_line(Side::Player) && !after(moves).has_line(Side::Bot) && !after(
            moves,
        ).full() <==> after(moves).outcome() == BoardResult::Playing,
    decreases moves.len(),
{
    if moves.len() == 0 {
        lemma_initial_position();
        lemma_outcome_is_sound(after(moves));
    } else {
        let before = after(moves.drop_last());
        lemma_outcome_classifies_play(moves.drop_last());
        lemma_legal_moves_keep_parity(moves.drop_last());
        lemma_outcome_is_sound(before);
        lemma_move_completes_only_own_lines(before, moves.last());
    }
    lemma_outcome_is_sound(after(moves));
    lemma_outcome_classifies(after(moves));
}

/// The value of a position is the score of a win, a loss or a draw, and so
/// is the best reply found on any stretch of squares.
pub proof fn lemma_value_is_a_score(p: Position, k: int)
    requires
        p.shaped(),
    ensures
        -1 <= p.value() <= 1,
        p.optimum(k) matches Some(best) ==> -1 <= best <= 1,
    decreases p.count(CellState::Empty), 1int, 0int,
{
    lemma_optimum_is_a_score(p, 9);
    lemma_optimum_is_a_score(p, k);
}

/// The best reply found on the squares below `k` is the score of a win, a
/// loss or a draw.
pub proof fn lemma_optimum_is_a_score(p: Position, k: int)
    requires
        p.shaped(),
    ensures
        p.optimum(k) matches Some(best) ==> -1 <= best <= 1,
    decreases p.count(CellState::Empty), 0int, k,
{
    if k > 0 {
        lemma_optimum_is_a_score(p, k - 1);
        if p.vacant(k - 1) {
            p.lemma_child_fills_a_square(k - 1);
            lemma_value_is_a_score(p.child(k - 1), 0);
        }
    }
}

/// What a scan of the squares below `k` finds: the best value among the
/// replies on them and the first square that attains it, or nothing when
/// none of the squares is vacant.
pub proof fn lemma_scan(p: Position, k: int) -> (found: Option<(int, int)>)
    requires
        p.shaped(),
        0 <= k <= 9,
    ensures
        p.scanned(k, found),
    decreases k,
{
    if k == 0 {
        None
    } else {
        let before = lemma_scan(p, k - 1);
        if !p.vacant(k - 1) {
            before
        } else {
            match before {
                None => Some((p.reply(k - 1), k - 1)),
                Some((held, at)) => if p.prefer(held, p.reply(k - 1)) == held {
                    before
                } else {
                    Some((p.reply(k - 1), k - 1))
                },
            }
        }
    }
}

/// While the game is in progress its value is the best that the side to
/// move can reach in one move: some vacant square attains it, and no vacant
/// square does better, which for `Player` means lower and for `Bot` higher.
pub proof fn lemma_value_is_optimal(p: Position)
    requires
        p.shaped(),
        p.outcome() == BoardResult::Playing,
    ensures
        exists|i: int| p.vacant(i) && #[trigger] p.reply(i) == p.value(),
        forall|j: int|
            p.vacant(j) ==> if p.player_turn {
                p.value() <= #[trigger] p.reply(j)
            } else {
                p.value() >= p.reply(j)
            },
{
    lemma_outcome_is_sound(p);
    let found = lemma_scan(p, 9);
    assert(found is Some) by {
        let i = choose|i: int| 0 <= i < 9 && p.cells[i] == CellState::Empty;
        assert(p.vacant(i));
    }
    let (value, at) = found->0;
    assert(p.vacant(at) && p.reply(at) == p.value());
    assert forall|j: int| p.vacant(j) implies if p.player_turn {
        p.value() <= #[trigger] p.reply(j)
    } else {
        p.value() >= p.reply(j)
    } by {
        assert(p.prefer(value, p.reply(j)) == value);
    }
}

/// While the game is in progress there is exactly one best move: the first
/// vacant square, in row-major order, whose reply attains the value of the
/// position.
pub proof fn lemma_best_move_is_unique(p: Position) -> (best: int)
    requires
        p.shaped(),
        p.outcome() == BoardResult::Playing,
    ensures
        p.is_best_move(best),
        forall|i: int| p.is_best_move(i) ==> i == best,
{
    lemma_outcome_is_sound(p);
    let found = lemma_scan(p, 9);
    assert(found is Some) by {
        let i = choose|i: int| 0 <= i < 9 && p.cells[i] == CellState::Empty;
        assert(p.vacant(i));
    }
    let (value, at) = found->0;
    assert(p.is_best_move(at));
    at
}

/// A move that completes a line wins: when the side to move holds two
/// squares of a line and takes the vacant third, the game is won at once, so
/// the value of the position is that side's winning score and the move
/// attains it.
pub proof fn lemma_completing_a_line_wins(p: Position, k: int, t: int)
    requires
        p.shaped(),
        p.outcome() == BoardResult::Playing,
        p.completes(k, t),
    ensures
        p.child(t).winner() == Some(p.mover()),
        p.reply(t) == p.mover().goal(),
        p.value() == p.mover().goal(),
{
    let q = p.child(t);
    lemma_outcome_is_sound(p);
    lemma_move_completes_only_own_lines(p, t);
    assert(q.line_owner(k) == Some(p.mover()));
    lemma_outcome_classifies(q);
    lemma_value_is_optimal(p);
    lemma_value_is_a_score(p, 0);
    assert(if p.player_turn {
        p.value() <= p.reply(t)
    } else {
        p.value() >= p.reply(t)
    });
}

/// The completing move is the best move unless an earlier vacant square
/// wins as well.
pub proof fn lemma_completing_move_is_best(p: Position, k: int, t: int)
    requires
        p.shaped(),
        p.outcome() == BoardResult::Playing,
        p.completes(k, t),
        forall|j: int| 0 <= j < t && p.vacant(j) ==> p.reply(j) != p.mover().goal(),
    ensures
        p.is_best_move(t),
{
    lemma_completing_a_line_wins(p, k, t);
}

/// Solving a board on which the side to move can complete a line returns
/// that side's winning score and the completing square, unless an earlier
/// vacant square wins as well.
pub proof fn lemma_solve_completes_the_line(
    p: Position,
    k: int,
    row: usize,
    col: usize,
    result: Result<(i32, Option<(usize, usize)>), GameError>,
)
    requires
        p.well_formed(),
        p.outcome() == BoardResult::Playing,
        row < 3,
        col < 3,
        p.completes(k, square(row as int, col as int)),
        forall|j: int|
            0 <= j < square(row as int, col as int) && p.vacant(j) ==> p.reply(j)
                != p.mover().goal(),
        is_solution(p, result),
    ensures
        result == Ok::<(i32, Option<(usize, usize)>), GameError>(
            (if p.player_turn { -1i32 } else { 1i32 }, Some((row, col))),
        ),
{
    lemma_completing_move_is_best(p, k, square(row as int, col as int));
    lemma_completing_a_line_wins(p, k, square(row as int, col as int));
    let best = lemma_best_move_is_unique(p);
}

/// Solving is deterministic: a position has exactly one solution, so two
/// calls on the same board return the same value and the same move.
pub proof fn lemma_solution_is_unique(
    p: Position,
    first: Result<(i32, Option<(usize, usize)>), GameError>,
    second: Result<(i32, Option<(usize, usize)>), GameError>,
)
    requires
        is_solution(p, first),
        is_solution(p, second),
    ensures
        first == second,
{
    if p.well_formed() && p.outcome() == BoardResult::Playing {
        let best = lemma_best_move_is_unique(p);
    }
}

} // verus!
