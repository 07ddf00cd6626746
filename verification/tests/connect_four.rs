use connect_four::board::{Board, Cell, GameMoveResult, MoveError, Player};
use connect_four::win::line_has_run;

#[test]
fn new_board() {
    let starting_player = Player::Red;

    let board = Board::new(starting_player);

    assert_eq!(board.current_player, Player::Red);

    for row in board.board {
        assert!(row.iter().eq([Cell::Empty; 7].iter()));
    }
}

#[test]
fn horizontal_connect_four() {
    let mut board = Board::new(Player::Red);

    board.update_cell(0, 1, Cell::Player(Player::Red));
    board.update_cell(0, 2, Cell::Player(Player::Yellow));
    board.update_cell(0, 3, Cell::Player(Player::Red));
    board.update_cell(0, 4, Cell::Player(Player::Red));
    board.update_cell(0, 5, Cell::Player(Player::Red));
    board.update_cell(0, 6, Cell::Player(Player::Red));

    board.update_cell(1, 1, Cell::Player(Player::Red));
    board.update_cell(1, 2, Cell::Player(Player::Red));
    board.update_cell(1, 3, Cell::Player(Player::Red));

    assert!(board.has_won(0, 3));
    assert!(!board.has_won(1, 1));
}

#[test]
fn vertical_connect_four() {
    let mut board = Board::new(Player::Yellow);

    board.update_cell(0, 3, Cell::Player(Player::Yellow));
    board.update_cell(1, 3, Cell::Player(Player::Red));
    board.update_cell(2, 3, Cell::Player(Player::Yellow));
    board.update_cell(3, 3, Cell::Player(Player::Yellow));
    board.update_cell(4, 3, Cell::Player(Player::Yellow));
    board.update_cell(5, 3, Cell::Player(Player::Yellow));

    assert!(board.has_won(2, 3));
}

// Win detection goes by the player to move, so the Red diagonal runs below
// are only found with Red to move.
#[test]
fn diagonal_connect_four() {
    let mut board = Board::new(Player::Red);

    // Left diagonal
    board.update_cell(0, 3, Cell::Player(Player::Yellow));
    board.update_cell(1, 3, Cell::Player(Player::Red));
    board.update_cell(2, 4, Cell::Player(Player::Red));
    board.update_cell(3, 5, Cell::Player(Player::Red));
    board.update_cell(4, 6, Cell::Player(Player::Red));

    // Right diagonal
    board.update_cell(3, 3, Cell::Player(Player::Red));
    board.update_cell(4, 2, Cell::Player(Player::Red));
    board.update_cell(5, 1, Cell::Player(Player::Red));

    // 2 long diagonal
    board.update_cell(5, 5, Cell::Player(Player::Red));

    assert!(board.has_won(2, 4));
    assert!(board.has_won(3, 3));
    assert!(!board.has_won(5, 5));
}

#[test]
fn fresh_board_is_empty_with_chosen_starter() {
    let board = Board::new(Player::Yellow);
    assert_eq!(board.current_player, Player::Yellow);
    for row in board.board {
        for cell in row {
            assert_eq!(cell, Cell::Empty);
        }
    }
}

#[test]
fn gravity_stacks_tokens_from_the_bottom() {
    let mut board = Board::new(Player::Red);

    // Three drops into column 2: each lands on the lowest empty row.
    assert_eq!(board.game_move(2), Ok(GameMoveResult::Valid));
    assert_eq!(board.board[0][2], Cell::Player(Player::Red));

    assert_eq!(board.game_move(2), Ok(GameMoveResult::Valid));
    assert_eq!(board.board[1][2], Cell::Player(Player::Yellow));

    assert_eq!(board.game_move(2), Ok(GameMoveResult::Valid));
    assert_eq!(board.board[2][2], Cell::Player(Player::Red));

    assert_eq!(board.board[3][2], Cell::Empty);
    assert_eq!(board.row_available(2), Some(3));
}

#[test]
fn gravity_lands_above_prefilled_rows() {
    let mut board = Board::new(Player::Yellow);
    board.update_cell(0, 5, Cell::Player(Player::Red));
    board.update_cell(1, 5, Cell::Player(Player::Yellow));

    // Rows 0 and 1 of column 5 are filled, so the drop lands at row 2.
    assert_eq!(board.row_available(5), Some(2));
    assert_eq!(board.game_move(5), Ok(GameMoveResult::Valid));
    assert_eq!(board.board[2][5], Cell::Player(Player::Yellow));
}

#[test]
fn valid_move_flips_the_turn() {
    let mut board = Board::new(Player::Red);
    assert_eq!(board.game_move(0), Ok(GameMoveResult::Valid));
    assert_eq!(board.current_player, Player::Yellow);
    assert_eq!(board.game_move(0), Ok(GameMoveResult::Valid));
    assert_eq!(board.current_player, Player::Red);
}

#[test]
fn winning_move_keeps_the_turn() {
    let mut board = Board::new(Player::Red);
    board.update_cell(0, 0, Cell::Player(Player::Red));
    board.update_cell(0, 1, Cell::Player(Player::Red));
    board.update_cell(0, 2, Cell::Player(Player::Red));

    assert_eq!(board.game_move(3), Ok(GameMoveResult::Won(Player::Red)));
    assert_eq!(board.current_player, Player::Red);
    assert_eq!(board.board[0][3], Cell::Player(Player::Red));
}

#[test]
fn rejected_move_on_a_full_column() {
    let mut board = Board::new(Player::Red);
    // Fill column 3 with six tokens and no four-in-a-row.
    board.update_cell(0, 3, Cell::Player(Player::Red));
    board.update_cell(1, 3, Cell::Player(Player::Red));
    board.update_cell(2, 3, Cell::Player(Player::Yellow));
    board.update_cell(3, 3, Cell::Player(Player::Yellow));
    board.update_cell(4, 3, Cell::Player(Player::Red));
    board.update_cell(5, 3, Cell::Player(Player::Red));

    assert_eq!(board.row_available(3), None);
    assert_eq!(board.game_move(3), Err(MoveError::ColumnFull(3)));
    // A rejected move changes nothing.
    assert_eq!(board.current_player, Player::Red);
    assert_eq!(board.board[5][3], Cell::Player(Player::Red));
}

/// A full board with no four-in-a-row: the owner of `(r, c)` is decided by
/// the parity of `c + r / 2`, which keeps every straight run at length two
/// or less.
fn full_drawn_board(starter: Player) -> Board {
    let mut board = Board::new(starter);
    for r in 0..6 {
        for c in 0..7 {
            let p = if (c + r / 2) % 2 == 0 { Player::Red } else { Player::Yellow };
            board.update_cell(r, c, Cell::Player(p));
        }
    }
    board
}

#[test]
fn stalemate_reported_before_a_rejected_move() {
    let mut board = full_drawn_board(Player::Red);
    for c in 0..7 {
        assert_eq!(board.row_available(c), None);
    }
    // Every column is full, so any requested column answers Stalemate,
    // never a rejected move.
    for c in 0..7 {
        assert_eq!(board.game_move(c), Ok(GameMoveResult::Stalemate));
    }
    assert_eq!(board.current_player, Player::Red);
}

#[test]
fn horizontal_run_of_four_wins_through_each_of_its_cells() {
    let mut board = Board::new(Player::Red);
    board.update_cell(0, 1, Cell::Player(Player::Red));
    board.update_cell(0, 2, Cell::Player(Player::Red));
    board.update_cell(0, 3, Cell::Player(Player::Red));
    board.update_cell(0, 4, Cell::Player(Player::Red));

    assert!(board.has_won(0, 1));
    assert!(board.has_won(0, 2));
    assert!(board.has_won(0, 3));
    assert!(board.has_won(0, 4));
}

#[test]
fn horizontal_run_of_three_does_not_win() {
    let mut board = Board::new(Player::Red);
    board.update_cell(0, 1, Cell::Player(Player::Red));
    board.update_cell(0, 2, Cell::Player(Player::Red));
    board.update_cell(0, 3, Cell::Player(Player::Red));

    for c in 1..4 {
        assert!(!board.has_won(0, c));
    }
}

#[test]
fn scenario_row_zero_run() {
    let mut board = Board::new(Player::Red);
    board.update_cell(0, 1, Cell::Player(Player::Red));
    board.update_cell(0, 2, Cell::Player(Player::Red));
    board.update_cell(0, 3, Cell::Player(Player::Red));
    board.update_cell(0, 4, Cell::Player(Player::Red));

    assert!(board.has_won(0, 3));
}

#[test]
fn stalemate_scan_finds_the_open_column() {
    let mut board = full_drawn_board(Player::Red);
    for r in 0..6 {
        board.update_cell(r, 6, Cell::Empty);
    }
    // One column still has room, so the game goes on.
    assert_eq!(board.row_available(6), Some(0));
    assert_eq!(board.game_move(6), Ok(GameMoveResult::Valid));
    assert_eq!(board.board[0][6], Cell::Player(Player::Red));
    assert_eq!(board.current_player, Player::Yellow);
}

#[test]
fn vertical_win_through_drops() {
    let mut board = Board::new(Player::Red);
    // Red stacks column 0 while Yellow answers in column 1.
    assert_eq!(board.game_move(0), Ok(GameMoveResult::Valid));
    assert_eq!(board.game_move(1), Ok(GameMoveResult::Valid));
    assert_eq!(board.game_move(0), Ok(GameMoveResult::Valid));
    assert_eq!(board.game_move(1), Ok(GameMoveResult::Valid));
    assert_eq!(board.game_move(0), Ok(GameMoveResult::Valid));
    assert_eq!(board.game_move(1), Ok(GameMoveResult::Valid));
    assert_eq!(board.game_move(0), Ok(GameMoveResult::Won(Player::Red)));
    assert_eq!(board.current_player, Player::Red);
}

#[test]
fn empty_board_has_no_win() {
    let board = Board::new(Player::Red);
    assert!(!board.has_won(0, 0));
    assert!(!board.has_won(5, 6));
    assert!(!board.has_won(2, 3));
}

#[test]
fn scan_detects_only_four_consecutive() {
    let p = Player::Red;
    let o = Cell::Player(Player::Yellow);
    let r = Cell::Player(Player::Red);
    let e = Cell::Empty;

    assert!(line_has_run(&vec![r, r, r, r], p));
    assert!(!line_has_run(&vec![r, r, r, o, r], p));
    assert!(!line_has_run(&vec![r, r, e, r, r], p));
    assert!(line_has_run(&vec![e, o, r, r, r, r, o], p));
    assert!(!line_has_run(&vec![], p));
    assert!(!line_has_run(&vec![r, r, r], p));
}
