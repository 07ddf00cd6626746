//! Laws of the rules engine, stated and proved once for all boards.

use vstd::prelude::*;
use vstd::assert_by_contradiction;
use crate::board::{Board, Cell, Grid, Player, cell_at, col_full, grid_cell, gravity_respected,
    lowest_empty_from, lowest_empty_row};
use crate::win::{col_seq, fall_seq, fall_start_col, fall_start_row, four_at, has_four_run,
    rise_seq, rise_start_col, rise_start_row, row_seq, wins_at};

verus! {

proof fn lemma_lowest_empty_from_step(b: Board, col: int, k: int, j: int)
    requires
        0 <= j <= k < 6,
        forall|i: int| j <= i < k ==> cell_at(b, i, col) != Cell::Empty,
        cell_at(b, k, col) == Cell::Empty,
    ensures
        lowest_empty_from(b, col, j) == k,
    decreases k - j,
{
    if j < k {
        lemma_lowest_empty_from_step(b, col, k, j + 1);
    }
}

/// Gravity: if the rows below `k` of column `col` are all occupied and row
/// `k` itself is empty, then a token dropped into `col` lands exactly at
/// row `k`.
pub proof fn lemma_gravity_lands_at_first_gap(b: Board, col: int, k: int)
    requires
        0 <= col < 7,
        0 <= k < 6,
        forall|i: int| 0 <= i < k ==> cell_at(b, i, col) != Cell::Empty,
        cell_at(b, k, col) == Cell::Empty,
    ensures
        lowest_empty_row(b, col) == k,
{
    lemma_lowest_empty_from_step(b, col, k, 0);
}

proof fn lemma_lowest_from_props(b: Board, col: int, j: int)
    requires
        0 <= j < 6,
        exists|r: int| j <= r < 6 && cell_at(b, r, col) == Cell::Empty,
    ensures
        ({
            let k = lowest_empty_from(b, col, j);
            &&& j <= k < 6
            &&& cell_at(b, k, col) == Cell::Empty
            &&& forall|i: int| j <= i < k ==> cell_at(b, i, col) != Cell::Empty
        }),
    decreases 6 - j,
{
    if cell_at(b, j, col) != Cell::Empty {
        let r = choose|r: int| j <= r < 6 && cell_at(b, r, col) == Cell::Empty;
        assert(j + 1 <= r < 6 && cell_at(b, r, col) == Cell::Empty);
        lemma_lowest_from_props(b, col, j + 1);
    }
}

/// In a column with room, the landing row is a real row: it is empty and
/// every row below it is occupied.
pub proof fn lemma_lowest_empty_row_props(b: Board, col: int)
    requires
        0 <= col < 7,
        !col_full(b, col),
    ensures
        ({
            let k = lowest_empty_row(b, col);
            &&& 0 <= k < 6
            &&& cell_at(b, k, col) == Cell::Empty
            &&& forall|i: int| 0 <= i < k ==> cell_at(b, i, col) != Cell::Empty
        }),
{
    lemma_lowest_from_props(b, col, 0);
}

/// An all-empty board trivially respects gravity.
pub proof fn lemma_empty_board_respects_gravity(b: Board)
    requires
        forall|r: int, c: int| 0 <= r < 6 && 0 <= c < 7 ==> cell_at(b, r, c) == Cell::Empty,
    ensures
        gravity_respected(b),
{
}

/// Tokens never float: filling the landing row of a column with room keeps
/// the gravity invariant, so every board reached by accepted moves from an
/// empty board respects it.
pub proof fn lemma_move_preserves_gravity(pre: Board, post: Board, col: int)
    requires
        0 <= col < 7,
        gravity_respected(pre),
        !col_full(pre, col),
        cell_at(post, lowest_empty_row(pre, col), col) != Cell::Empty,
        forall|r: int, c: int|
            0 <= r < 6 && 0 <= c < 7 && !(r == lowest_empty_row(pre, col) && c == col)
                ==> cell_at(post, r, c) == cell_at(pre, r, c),
    ensures
        gravity_respected(post),
{
    lemma_lowest_empty_row_props(pre, col);
    let k = lowest_empty_row(pre, col);
    assert forall|r: int, c: int|
        0 < r < 6 && 0 <= c < 7 && #[trigger] cell_at(post, r, c) != Cell::Empty
            implies cell_at(post, r - 1, c) != Cell::Empty by {
        if r == k && c == col {
            if k > 0 {
                assert(cell_at(pre, k - 1, col) != Cell::Empty);
            }
        } else {
            assert(cell_at(pre, r, c) != Cell::Empty);
            assert(cell_at(pre, r - 1, c) != Cell::Empty);
        }
    }
}

/// Win-detection symmetry, the positive half: a horizontal run of four
/// same-owner tokens is a win through any of its four cells.
pub proof fn lemma_horizontal_four_wins(g: Grid, p: Player, row: int, c0: int, c: int)
    requires
        0 <= row < 6,
        0 <= c0,
        c0 + 4 <= 7,
        forall|k: int| 0 <= k < 4 ==> #[trigger] grid_cell(g, row, c0 + k) == Cell::Player(p),
        c0 <= c < c0 + 4,
    ensures
        wins_at(g, row, c, p),
{
    assert(forall|k: int|
        0 <= k < 4 ==> #[trigger] row_seq(g, row)[c0 + k] == Cell::Player(p));
    assert(four_at(row_seq(g, row), p, c0));
    assert(has_four_run(row_seq(g, row), p));
}

proof fn lemma_three_no_win_one_cell(g: Grid, p: Player, row: int, c0: int, r: int, c: int)
    requires
        0 <= row < 6,
        0 <= c0,
        c0 + 3 <= 7,
        forall|r2: int, c2: int|
            0 <= r2 < 6 && 0 <= c2 < 7 && !(r2 == row && c0 <= c2 < c0 + 3)
                ==> grid_cell(g, r2, c2) == Cell::Empty,
        0 <= r < 6,
        0 <= c < 7,
    ensures
        !wins_at(g, r, c, p),
{
    assert_by_contradiction!(!has_four_run(row_seq(g, r), p), {
        let i = choose|i: int|
            0 <= i && i + 4 <= row_seq(g, r).len() && #[trigger] four_at(row_seq(g, r), p, i);
        if r != row || i < c0 {
            assert(row_seq(g, r)[i + 0] == Cell::Player(p));
            assert(grid_cell(g, r, i) == Cell::Empty);
        } else {
            assert(row_seq(g, r)[i + 3] == Cell::Player(p));
            assert(grid_cell(g, r, i + 3) == Cell::Empty);
        }
    });
    assert_by_contradiction!(!has_four_run(col_seq(g, c), p), {
        let i = choose|i: int|
            0 <= i && i + 4 <= col_seq(g, c).len() && #[trigger] four_at(col_seq(g, c), p, i);
        if i == row {
            assert(col_seq(g, c)[i + 1] == Cell::Player(p));
            assert(grid_cell(g, i + 1, c) == Cell::Empty);
        } else {
            assert(col_seq(g, c)[i + 0] == Cell::Player(p));
            assert(grid_cell(g, i, c) == Cell::Empty);
        }
    });
    assert_by_contradiction!(!has_four_run(rise_seq(g, r, c), p), {
        let r0 = rise_start_row(r, c);
        let cc0 = rise_start_col(r, c);
        let i = choose|i: int|
            0 <= i && i + 4 <= rise_seq(g, r, c).len()
                && #[trigger] four_at(rise_seq(g, r, c), p, i);
        if r0 + i == row {
            assert(rise_seq(g, r, c)[i + 1] == Cell::Player(p));
            assert(grid_cell(g, r0 + i + 1, cc0 + i + 1) == Cell::Empty);
        } else {
            assert(rise_seq(g, r, c)[i + 0] == Cell::Player(p));
            assert(grid_cell(g, r0 + i, cc0 + i) == Cell::Empty);
        }
    });
    assert_by_contradiction!(!has_four_run(fall_seq(g, r, c), p), {
        let r0 = fall_start_row(r, c);
        let cc0 = fall_start_col(r, c);
        let i = choose|i: int|
            0 <= i && i + 4 <= fall_seq(g, r, c).len()
                && #[trigger] four_at(fall_seq(g, r, c), p, i);
        if r0 + i == row {
            assert(fall_seq(g, r, c)[i + 1] == Cell::Player(p));
            assert(grid_cell(g, r0 + i + 1, cc0 - i - 1) == Cell::Empty);
        } else {
            assert(fall_seq(g, r, c)[i + 0] == Cell::Player(p));
            assert(grid_cell(g, r0 + i, cc0 - i) == Cell::Empty);
        }
    });
}

/// Win-detection symmetry, the negative half: if the only tokens on the
/// board are a horizontal run of exactly three owned by `p`, no cell of the
/// grid is a win for `p`.
pub proof fn lemma_horizontal_three_no_win(g: Grid, p: Player, row: int, c0: int)
    requires
        0 <= row < 6,
        0 <= c0,
        c0 + 3 <= 7,
        forall|k: int| 0 <= k < 3 ==> #[trigger] grid_cell(g, row, c0 + k) == Cell::Player(p),
        forall|r2: int, c2: int|
            0 <= r2 < 6 && 0 <= c2 < 7 && !(r2 == row && c0 <= c2 < c0 + 3)
                ==> grid_cell(g, r2, c2) == Cell::Empty,
    ensures
        forall|r: int, c: int| 0 <= r < 6 && 0 <= c < 7 ==> !wins_at(g, r, c, p),
{
    assert forall|r: int, c: int| 0 <= r < 6 && 0 <= c < 7 implies !wins_at(g, r, c, p) by {
        lemma_three_no_win_one_cell(g, p, row, c0, r, c);
    }
}

} // verus!
