use tictactoe::{BoardResult, BoardState, CellState, GameError, Side};

const E: CellState = CellState::Empty;
const X: CellState = CellState::Player;
const O: CellState = CellState::Bot;

fn board(rows: [[CellState; 3]; 3], player_turn: bool) -> BoardState {
    BoardState { board: rows, player_turn }
}

#[test]
fn default_board_is_empty_with_player_to_move() {
    let b = BoardState::default();
    assert_eq!(b.board, [[E; 3]; 3]);
    assert!(b.player_turn);
    assert_eq!(b.mover(), Side::Player);
    assert_eq!(b.check_result(), BoardResult::Playing);
    assert!(b.is_well_formed());
    assert!(!b.is_full());
    assert_eq!(b.count(E), 9);
    assert_eq!(b.count(X), 0);
    assert_eq!(b.count(O), 0);
}

#[test]
fn side_marks() {
    assert_eq!(Side::Player.mark(), X);
    assert_eq!(Side::Bot.mark(), O);
}

#[test]
fn cell_symbols() {
    assert_eq!(E.symbol(), '-');
    assert_eq!(X.symbol(), 'X');
    assert_eq!(O.symbol(), 'O');
}

#[test]
fn result_scores() {
    assert_eq!(BoardResult::PlayerWin.score(), Some(-1));
    assert_eq!(BoardResult::BotWin.score(), Some(1));
    assert_eq!(BoardResult::Draw.score(), Some(0));
    assert_eq!(BoardResult::Playing.score(), None);
}

#[test]
fn every_row_wins() {
    for r in 0..3 {
        let mut rows = [[E; 3]; 3];
        rows[r] = [X; 3];
        rows[(r + 1) % 3] = [O, O, E];
        assert_eq!(board(rows, false).check_result(), BoardResult::PlayerWin);
        let mut rows = [[E; 3]; 3];
        rows[r] = [O; 3];
        rows[(r + 1) % 3] = [X, X, E];
        rows[(r + 2) % 3] = [E, E, X];
        assert_eq!(board(rows, true).check_result(), BoardResult::BotWin);
    }
}

#[test]
fn every_column_wins() {
    for c in 0..3 {
        let mut rows = [[E; 3]; 3];
        for r in 0..3 {
            rows[r][c] = X;
        }
        rows[0][(c + 1) % 3] = O;
        rows[1][(c + 1) % 3] = O;
        assert_eq!(board(rows, false).check_result(), BoardResult::PlayerWin);
        let mut rows = [[E; 3]; 3];
        for r in 0..3 {
            rows[r][c] = O;
        }
        rows[0][(c + 1) % 3] = X;
        rows[1][(c + 1) % 3] = X;
        rows[2][(c + 2) % 3] = X;
        assert_eq!(board(rows, true).check_result(), BoardResult::BotWin);
    }
}

#[test]
fn both_diagonals_win() {
    let main = board([[X, O, E], [O, X, E], [E, E, X]], false);
    assert_eq!(main.check_result(), BoardResult::PlayerWin);
    let anti = board([[X, X, O], [X, O, E], [O, E, E]], true);
    assert_eq!(anti.check_result(), BoardResult::BotWin);
}

#[test]
fn full_board_without_line_is_a_draw() {
    let b = board([[X, O, X], [X, O, O], [O, X, X]], false);
    assert!(b.is_full());
    assert_eq!(b.check_result(), BoardResult::Draw);
}

#[test]
fn full_board_with_line_is_a_win() {
    let b = board([[X, X, X], [O, O, X], [X, O, O]], false);
    assert!(b.is_full());
    assert_eq!(b.check_result(), BoardResult::PlayerWin);
}

#[test]
fn board_without_line_and_with_room_is_playing() {
    let b = board([[X, O, X], [E, O, E], [O, X, X]], false);
    assert!(!b.is_full());
    assert_eq!(b.check_result(), BoardResult::Playing);
}

#[test]
fn two_in_a_row_is_not_a_win() {
    let b = board([[X, X, E], [O, O, E], [E, E, E]], true);
    assert_eq!(b.check_result(), BoardResult::Playing);
}

#[test]
fn a_line_of_empty_squares_is_not_a_win() {
    let b = board([[E, E, E], [X, O, X], [O, X, O]], false);
    assert_eq!(b.check_result(), BoardResult::Playing);
}

#[test]
fn first_line_in_examination_order_decides() {
    // Rows come before columns and diagonals, upper rows before lower ones.
    let rows_first = board([[O, O, O], [X, X, X], [E, E, E]], true);
    assert_eq!(rows_first.check_result(), BoardResult::BotWin);
    let upper_row = board([[X, X, X], [O, O, O], [E, E, E]], true);
    assert_eq!(upper_row.check_result(), BoardResult::PlayerWin);
    let row_before_column = board([[O, X, E], [O, X, E], [O, X, E]], true);
    assert_eq!(row_before_column.check_result(), BoardResult::BotWin);
    let left_column = board([[X, O, E], [X, O, E], [X, O, E]], true);
    assert_eq!(left_column.check_result(), BoardResult::PlayerWin);
    let row_before_diagonal = board([[X, E, E], [O, X, E], [O, O, O]], true);
    assert_eq!(row_before_diagonal.check_result(), BoardResult::BotWin);
}

#[test]
fn is_empty_looks_up_the_square() {
    let b = board([[X, E, E], [E, O, E], [E, E, E]], true);
    assert!(!b.is_empty(0, 0));
    assert!(b.is_empty(0, 1));
    assert!(!b.is_empty(1, 1));
    assert!(b.is_empty(2, 2));
}

#[test]
fn is_empty_is_false_off_the_grid() {
    let b = BoardState::default();
    assert!(!b.is_empty(3, 0));
    assert!(!b.is_empty(0, 3));
    assert!(!b.is_empty(usize::MAX, usize::MAX));
}

#[test]
fn apply_sets_the_square_and_flips_the_turn() {
    let b = BoardState::default();
    let next = b.apply(1, 2, Side::Player).unwrap();
    assert_eq!(next.board, [[E, E, E], [E, E, X], [E, E, E]]);
    assert!(!next.player_turn);
    let after = next.apply(0, 0, Side::Bot).unwrap();
    assert_eq!(after.board, [[O, E, E], [E, E, X], [E, E, E]]);
    assert!(after.player_turn);
}

#[test]
fn apply_leaves_the_board_untouched() {
    let b = board([[X, E, E], [E, O, E], [E, E, E]], true);
    let copy = b;
    let _ = b.apply(2, 2, Side::Player).unwrap();
    assert_eq!(b, copy);
}

#[test]
fn apply_changes_exactly_one_square() {
    let b = board([[X, O, X], [E, O, E], [O, X, E]], true);
    for r in 0..3 {
        for c in 0..3 {
            if b.board[r][c] != E {
                continue;
            }
            let next = b.apply(r, c, Side::Player).unwrap();
            for i in 0..3 {
                for j in 0..3 {
                    if (i, j) == (r, c) {
                        assert_eq!(next.board[i][j], X);
                    } else {
                        assert_eq!(next.board[i][j], b.board[i][j]);
                    }
                }
            }
            assert_eq!(next.player_turn, !b.player_turn);
        }
    }
}

#[test]
fn apply_rejects_an_occupied_square() {
    let b = board([[X, E, E], [E, O, E], [E, E, E]], true);
    assert_eq!(b.apply(0, 0, Side::Player), Err(GameError::InvalidMove));
    assert_eq!(b.apply(1, 1, Side::Player), Err(GameError::InvalidMove));
    assert_eq!(b.apply(0, 0, Side::Bot), Err(GameError::InvalidMove));
}

#[test]
fn apply_rejects_a_square_off_the_grid() {
    let b = BoardState::default();
    assert_eq!(b.apply(3, 0, Side::Player), Err(GameError::InvalidMove));
    assert_eq!(b.apply(0, 3, Side::Player), Err(GameError::InvalidMove));
    assert_eq!(b.apply(7, 9, Side::Bot), Err(GameError::InvalidMove));
}

#[test]
fn apply_is_accepted_exactly_on_empty_squares() {
    let b = board([[X, O, X], [E, O, E], [O, X, E]], true);
    for r in 0..5 {
        for c in 0..5 {
            let accepted = b.apply(r, c, Side::Player).is_ok();
            assert_eq!(accepted, r < 3 && c < 3 && b.board[r][c] == E);
            assert_eq!(accepted, b.is_empty(r, c));
        }
    }
}

#[test]
fn apply_writes_the_mark_of_the_side_given() {
    // The side is the caller's to choose; the turn flag is flipped either way.
    let b = BoardState::default();
    let next = b.apply(0, 0, Side::Bot).unwrap();
    assert_eq!(next.board[0][0], O);
    assert!(!next.player_turn);
    assert!(!next.is_well_formed());
}

#[test]
fn moves_by_the_side_to_move_keep_the_parity_invariant() {
    let mut b = BoardState::default();
    let moves = [(1, 1), (0, 0), (2, 2), (0, 2), (0, 1), (2, 1)];
    for (r, c) in moves {
        assert!(b.is_well_formed());
        b = b.apply(r, c, b.mover()).unwrap();
    }
    assert!(b.is_well_formed());
    assert_eq!(b.count(X), 3);
    assert_eq!(b.count(O), 3);
    assert_eq!(b.count(E), 3);
    assert!(b.player_turn);
}

#[test]
fn parity_check_compares_counts_with_the_turn_flag() {
    assert!(board([[X, E, E], [E, E, E], [E, E, E]], false).is_well_formed());
    assert!(!board([[X, E, E], [E, E, E], [E, E, E]], true).is_well_formed());
    assert!(board([[X, O, E], [E, E, E], [E, E, E]], true).is_well_formed());
    assert!(!board([[X, O, E], [E, E, E], [E, E, E]], false).is_well_formed());
    assert!(!board([[X, X, X], [E, E, E], [E, E, E]], false).is_well_formed());
    assert!(!board([[O, E, E], [E, E, E], [E, E, E]], true).is_well_formed());
    assert!(!board([[O, E, E], [E, E, E], [E, E, E]], false).is_well_formed());
    assert!(!board([[E, E, E], [E, E, E], [E, E, E]], false).is_well_formed());
}

#[test]
fn render_draws_rows_as_lines() {
    let b = board([[X, O, E], [E, X, E], [O, E, X]], false);
    let text: String = b.render().into_iter().collect();
    assert_eq!(text, "XO-\n-X-\nO-X\n");
    let empty: String = BoardState::default().render().into_iter().collect();
    assert_eq!(empty, "---\n---\n---\n");
}

#[test]
fn player_won_tells_the_owner_of_three_marks() {
    assert_eq!(tictactoe::board::player_won(X, X, X), Some(Side::Player));
    assert_eq!(tictactoe::board::player_won(O, O, O), Some(Side::Bot));
    assert_eq!(tictactoe::board::player_won(E, E, E), None);
    assert_eq!(tictactoe::board::player_won(X, X, O), None);
    assert_eq!(tictactoe::board::player_won(O, X, O), None);
    assert_eq!(tictactoe::board::player_won(X, E, X), None);
}
