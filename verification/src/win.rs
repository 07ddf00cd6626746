//! Win detection: specification of a four-in-a-row along each of the four
//! axes through a cell, and the verified scan that decides it.

use vstd::prelude::*;
use vstd::assert_by_contradiction;
use crate::board::{Board, Cell, Grid, Player, grid_cell};

verus! {

/// The four cells of `s` starting at index `i` are all owned by `p`.
pub open spec fn four_at(s: Seq<Cell>, p: Player, i: int) -> bool {
    forall|k: int| 0 <= k < 4 ==> #[trigger] s[i + k] == Cell::Player(p)
}

/// `s` contains four consecutive cells all owned by `p`.
pub open spec fn has_four_run(s: Seq<Cell>, p: Player) -> bool {
    exists|i: int| 0 <= i && i + 4 <= s.len() && #[trigger] four_at(s, p, i)
}

/// Row `row` of the board, left to right.
pub open spec fn row_seq(g: Grid, row: int) -> Seq<Cell> {
    Seq::new(7, |c: int| grid_cell(g, row, c))
}

/// Column `col` of the board, bottom to top.
pub open spec fn col_seq(g: Grid, col: int) -> Seq<Cell> {
    Seq::new(6, |r: int| grid_cell(g, r, col))
}

/// Start row of the rising diagonal (`/`) through `(row, col)`: the point
/// where the diagonal meets row 0 or column 0, whichever comes first.
pub open spec fn rise_start_row(row: int, col: int) -> int {
    if row <= col {
        0
    } else {
        row - col
    }
}

/// Start column of the rising diagonal through `(row, col)`.
pub open spec fn rise_start_col(row: int, col: int) -> int {
    if row <= col {
        col - row
    } else {
        0
    }
}

/// The number of cells of the rising diagonal through `(row, col)`.
pub open spec fn rise_len(row: int, col: int) -> int {
    vstd::math::min(6 - rise_start_row(row, col), 7 - rise_start_col(row, col))
}

/// The rising diagonal through `(row, col)`, from its low end upward:
/// row and column both increase by one per step.
pub open spec fn rise_seq(g: Grid, row: int, col: int) -> Seq<Cell> {
    Seq::new(
        rise_len(row, col) as nat,
        |k: int| grid_cell(g, rise_start_row(row, col) + k, rise_start_col(row, col) + k),
    )
}

/// Start row of the falling diagonal (`\`) through `(row, col)`: the point
/// where the diagonal meets row 0 or the rightmost column, whichever comes
/// first.
pub open spec fn fall_start_row(row: int, col: int) -> int {
    if row + col <= 6 {
        0
    } else {
        row + col - 6
    }
}

/// Start column of the falling diagonal through `(row, col)`.
pub open spec fn fall_start_col(row: int, col: int) -> int {
    if row + col <= 6 {
        row + col
    } else {
        6
    }
}

/// The number of cells of the falling diagonal through `(row, col)`.
pub open spec fn fall_len(row: int, col: int) -> int {
    vstd::math::min(6 - fall_start_row(row, col), fall_start_col(row, col) + 1)
}

/// The falling diagonal through `(row, col)`, from its low end upward:
/// the row increases and the column decreases by one per step.
pub open spec fn fall_seq(g: Grid, row: int, col: int) -> Seq<Cell> {
    Seq::new(
        fall_len(row, col) as nat,
        |k: int| grid_cell(g, fall_start_row(row, col) + k, fall_start_col(row, col) - k),
    )
}

/// Player `p` has four in a row on one of the four lines through
/// `(row, col)`: its row, its column, or either diagonal.
pub open spec fn wins_at(g: Grid, row: int, col: int, p: Player) -> bool {
    ||| has_four_run(row_seq(g, row), p)
    ||| has_four_run(col_seq(g, col), p)
    ||| has_four_run(rise_seq(g, row, col), p)
    ||| has_four_run(fall_seq(g, row, col), p)
}

/// The length of the consecutive run of `p`-owned cells of `s` that ends
/// just before index `i`.
pub open spec fn run_before(s: Seq<Cell>, p: Player, i: int) -> nat
    decreases i,
{
    if i <= 0 || i > s.len() {
        0
    } else if s[i - 1] == Cell::Player(p) {
        run_before(s, p, i - 1) + 1
    } else {
        0
    }
}

/// A run of at least four ending before `i` yields four consecutive
/// `p`-owned cells starting at `i - 4`.
proof fn lemma_run_before_gives_four(s: Seq<Cell>, p: Player, i: int)
    requires
        0 <= i <= s.len(),
        run_before(s, p, i) >= 4,
    ensures
        four_at(s, p, i - 4),
        has_four_run(s, p),
{
    assert(s[i - 1] == Cell::Player(p) && run_before(s, p, i - 1) >= 3);
    assert(s[i - 2] == Cell::Player(p) && run_before(s, p, i - 2) >= 2);
    assert(s[i - 3] == Cell::Player(p) && run_before(s, p, i - 3) >= 1);
    assert(s[i - 4] == Cell::Player(p));
    assert(forall|k: int| 0 <= k < 4 ==> #[trigger] s[(i - 4) + k] == Cell::Player(p));
    assert(0 <= i - 4 && (i - 4) + 4 <= s.len() && four_at(s, p, i - 4));
}

/// Conversely, four consecutive `p`-owned cells starting at `i` mean the
/// run ending before `i + 4` has length at least four.
proof fn lemma_four_gives_run_before(s: Seq<Cell>, p: Player, i: int)
    requires
        0 <= i,
        i + 4 <= s.len(),
        four_at(s, p, i),
    ensures
        run_before(s, p, i + 4) >= 4,
{
    assert(s[i + 0] == Cell::Player(p));
    assert(s[i + 1] == Cell::Player(p));
    assert(s[i + 2] == Cell::Player(p));
    assert(s[i + 3] == Cell::Player(p));
    assert(run_before(s, p, i + 1) >= 1);
    assert(run_before(s, p, i + 2) >= 2);
    assert(run_before(s, p, i + 3) >= 3);
    assert(run_before(s, p, i + 4) >= 4);
}

/// Scans `cells` once, keeping a running count of consecutive cells owned
/// by `p`; any other cell resets the count, and a count of four decides a
/// win. Returns whether `cells` holds four in a row for `p`.
pub fn line_has_run(cells: &Vec<Cell>, p: Player) -> (r: bool)
    ensures
        r == has_four_run(cells@, p),
{
    let n = cells.len();
    let mut count: usize = 0;
    let mut i: usize = 0;
    while i < n
        invariant
            n == cells@.len(),
            i <= n,
            count == run_before(cells@, p, i as int),
            count <= 3,
            forall|j: int| 0 <= j <= i ==> run_before(cells@, p, j) < 4,
        decreases n - i,
    {
        if cells[i] == Cell::Player(p) {
            count += 1;
            if count == 4 {
                proof {
                    lemma_run_before_gives_four(cells@, p, i + 1);
                }
                return true;
            }
        } else {
            count = 0;
        }
        i += 1;
    }
    proof {
        assert_by_contradiction!(!has_four_run(cells@, p), {
            let w = choose|w: int| 0 <= w && w + 4 <= cells@.len() && four_at(cells@, p, w);
            lemma_four_gives_run_before(cells@, p, w);
        });
    }
    false
}

/// Copies row `row` of the board into a vector, left to right.
pub(crate) fn collect_row(b: &Board, row: usize) -> (v: Vec<Cell>)
    requires
        row < 6,
    ensures
        v@ == row_seq(b.board, row as int),
{
    let mut v: Vec<Cell> = Vec::new();
    let mut c: usize = 0;
    while c < 7
        invariant
            row < 6,
            c <= 7,
            v@.len() == c,
            forall|j: int| 0 <= j < c ==> v@[j] == grid_cell(b.board, row as int, j),
        decreases 7 - c,
    {
        v.push(b.board[row][c]);
        c += 1;
    }
    proof {
        assert(v@ =~= row_seq(b.board, row as int));
    }
    v
}

/// Copies column `col` of the board into a vector, bottom to top.
pub(crate) fn collect_col(b: &Board, col: usize) -> (v: Vec<Cell>)
    requires
        col < 7,
    ensures
        v@ == col_seq(b.board, col as int),
{
    let mut v: Vec<Cell> = Vec::new();
    let mut r: usize = 0;
    while r < 6
        invariant
            col < 7,
            r <= 6,
            v@.len() == r,
            forall|j: int| 0 <= j < r ==> v@[j] == grid_cell(b.board, j, col as int),
        decreases 6 - r,
    {
        v.push(b.board[r][col]);
        r += 1;
    }
    proof {
        assert(v@ =~= col_seq(b.board, col as int));
    }
    v
}

/// Copies the rising diagonal through `(row, col)` into a vector, walking
/// first to the diagonal's low boundary and then up-right across the grid.
pub(crate) fn collect_rise(b: &Board, row: usize, col: usize) -> (v: Vec<Cell>)
    requires
        row < 6,
        col < 7,
    ensures
        v@ == rise_seq(b.board, row as int, col as int),
{
    let r0: usize = if row <= col { 0 } else { row - col };
    let c0: usize = if row <= col { col - row } else { 0 };
    let len: usize = if 6 - r0 < 7 - c0 { 6 - r0 } else { 7 - c0 };
    let mut v: Vec<Cell> = Vec::new();
    let mut k: usize = 0;
    while k < len
        invariant
            r0 == rise_start_row(row as int, col as int),
            c0 == rise_start_col(row as int, col as int),
            len == rise_len(row as int, col as int),
            r0 + len <= 6,
            c0 + len <= 7,
            k <= len,
            v@.len() == k,
            forall|j: int| 0 <= j < k ==> v@[j] == grid_cell(b.board, r0 + j, c0 + j),
        decreases len - k,
    {
        v.push(b.board[r0 + k][c0 + k]);
        k += 1;
    }
    proof {
        assert(v@ =~= rise_seq(b.board, row as int, col as int));
    }
    v
}

/// Copies the falling diagonal through `(row, col)` into a vector, walking
/// first to the diagonal's low boundary and then up-left across the grid.
pub(crate) fn collect_fall(b: &Board, row: usize, col: usize) -> (v: Vec<Cell>)
    requires
        row < 6,
        col < 7,
    ensures
        v@ == fall_seq(b.board, row as int, col as int),
{
    let r0: usize = if row + col <= 6 { 0 } else { row + col - 6 };
    let c0: usize = if row + col <= 6 { row + col } else { 6 };
    let len: usize = if 6 - r0 < c0 + 1 { 6 - r0 } else { c0 + 1 };
    let mut v: Vec<Cell> = Vec::new();
    let mut k: usize = 0;
    while k < len
        invariant
            r0 == fall_start_row(row as int, col as int),
            c0 == fall_start_col(row as int, col as int),
            len == fall_len(row as int, col as int),
            r0 + len <= 6,
            len <= c0 + 1,
            c0 <= 6,
            k <= len,
            v@.len() == k,
            forall|j: int| 0 <= j < k ==> v@[j] == grid_cell(b.board, r0 + j, c0 - j),
        decreases len - k,
    {
        v.push(b.board[r0 + k][c0 - k]);
        k += 1;
    }
    proof {
        assert(v@ =~= fall_seq(b.board, row as int, col as int));
    }
    v
}

} // verus!
