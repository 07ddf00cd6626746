//! The board state machine: a 6x7 grid of cells, a turn cursor, and the
//! move-submission entry point that enforces gravity, detects wins and
//! stalemates, and alternates turns.

use vstd::prelude::*;
use crate::win::{wins_at, collect_row, collect_col, collect_rise, collect_fall, line_has_run};

verus! {

/// One of the two players.
#[derive(Copy, Clone, PartialEq, Eq, Structural, Debug)]
pub enum Player {
    Red,
    Yellow,
}

/// One cell of the grid: empty, or occupied by a player's token.
#[derive(Copy, Clone, PartialEq, Eq, Structural, Debug)]
pub enum Cell {
    Player(Player),
    Empty,
}

/// The grid of cells: 6 rows of 7 columns, row 0 at the bottom.
pub type Grid = [[Cell; 7]; 6];

/// The board: the grid of cells plus whose turn it is.
pub struct Board {
    pub current_player: Player,
    pub board: Grid,
}

/// The outcome of an accepted move.
#[derive(Copy, Clone, PartialEq, Eq, Structural, Debug)]
pub enum GameMoveResult {
    Valid,
    Won(Player),
    Stalemate,
}

/// A rejected move: the named column has no room.
#[derive(Copy, Clone, PartialEq, Eq, Structural, Debug)]
pub enum MoveError {
    ColumnFull(usize),
}

/// The player whose turn comes after `p`.
pub open spec fn other_player(p: Player) -> Player {
    match p {
        Player::Red => Player::Yellow,
        Player::Yellow => Player::Red,
    }
}

/// The cell of `g` at `row` (0 = bottom) and `col` (0 = leftmost).
pub open spec fn grid_cell(g: Grid, row: int, col: int) -> Cell {
    g[row][col]
}

/// The cell of `b` at `row` (0 = bottom) and `col` (0 = leftmost).
pub open spec fn cell_at(b: Board, row: int, col: int) -> Cell {
    grid_cell(b.board, row, col)
}

/// Column `col` has no empty cell left.
pub open spec fn col_full(b: Board, col: int) -> bool {
    forall|r: int| 0 <= r < 6 ==> cell_at(b, r, col) != Cell::Empty
}

/// No column of `b` has room: the whole grid is occupied.
pub open spec fn board_full(b: Board) -> bool {
    forall|c: int| 0 <= c < 7 ==> col_full(b, c)
}

/// The least row at or above `r` whose cell in `col` is empty, or 6 if
/// the rest of the column is occupied.
pub open spec fn lowest_empty_from(b: Board, col: int, r: int) -> int
    decreases 6 - r,
{
    if r < 0 || r >= 6 {
        6
    } else if cell_at(b, r, col) == Cell::Empty {
        r
    } else {
        lowest_empty_from(b, col, r + 1)
    }
}

/// The lowest empty row of column `col` (gravity: a dropped token lands
/// there), or 6 if the column is full.
pub open spec fn lowest_empty_row(b: Board, col: int) -> int {
    lowest_empty_from(b, col, 0)
}

/// No token floats: every occupied cell rests on an occupied cell or on
/// the bottom row.
pub open spec fn gravity_respected(b: Board) -> bool {
    forall|r: int, c: int|
        0 < r < 6 && 0 <= c < 7 && #[trigger] cell_at(b, r, c) != Cell::Empty
            ==> cell_at(b, r - 1, c) != Cell::Empty
}

impl Board {
    /// A new board: every cell empty, `starting_player` to move first.
    pub fn new(starting_player: Player) -> (b: Board)
        ensures
            b.current_player == starting_player,
            forall|r: int, c: int|
                0 <= r < 6 && 0 <= c < 7 ==> cell_at(b, r, c) == Cell::Empty,
    {
        Board { current_player: starting_player, board: [[Cell::Empty; 7]; 6] }
    }

    /// Overwrites one cell, leaving the rest of the board and the turn
    /// cursor unchanged. Not gravity-checked: it exists so that tests and
    /// replay tooling can construct arbitrary positions directly.
    pub fn update_cell(&mut self, row: usize, col: usize, cell: Cell)
        requires
            row < 6,
            col < 7,
        ensures
            cell_at(*final(self), row as int, col as int) == cell,
            forall|r: int, c: int|
                0 <= r < 6 && 0 <= c < 7 && !(r == row && c == col)
                    ==> cell_at(*final(self), r, c) == cell_at(*old(self), r, c),
            final(self).current_player == old(self).current_player,
    {
        self.board[row][col] = cell;
    }

    /// Scans column `col` bottom to top and returns the index of the lowest
    /// empty cell, or `None` if the column is full. This is the sole gravity
    /// enforcement point: a move always lands in the row returned here.
    pub fn row_available(&self, col: usize) -> (r: Option<usize>)
        requires
            col < 7,
        ensures
            match r {
                Some(row) => {
                    &&& row < 6
                    &&& row == lowest_empty_row(*self, col as int)
                    &&& cell_at(*self, row as int, col as int) == Cell::Empty
                    &&& forall|i: int|
                        0 <= i < row ==> cell_at(*self, i, col as int) != Cell::Empty
                },
                None => col_full(*self, col as int),
            },
            r is None <==> col_full(*self, col as int),
    {
        let mut i: usize = 0;
        while i < 6
            invariant
                col < 7,
                i <= 6,
                forall|j: int| 0 <= j < i ==> cell_at(*self, j, col as int) != Cell::Empty,
                lowest_empty_from(*self, col as int, 0)
                    == lowest_empty_from(*self, col as int, i as int),
            decreases 6 - i,
        {
            if self.board[i][col] == Cell::Empty {
                return Some(i);
            }
            i += 1;
        }
        None
    }

    /// Submits a move for the player to move: a drop into column `col`.
    /// If the whole board is full the move is answered with `Stalemate`,
    /// whatever column was named. Otherwise a full `col` is a rejected move.
    /// Otherwise the token lands on the lowest empty row of `col`; a move
    /// that completes four in a row wins and leaves the turn cursor as it
    /// is, and any other accepted move passes the turn to the opponent.
    pub fn game_move(&mut self, col: usize) -> (r: Result<GameMoveResult, MoveError>)
        requires
            col < 7,
        ensures
            board_full(*old(self)) ==> {
                &&& r == Ok::<GameMoveResult, MoveError>(GameMoveResult::Stalemate)
                &&& *final(self) == *old(self)
            },
            !board_full(*old(self)) && col_full(*old(self), col as int) ==> {
                &&& r == Err::<GameMoveResult, MoveError>(MoveError::ColumnFull(col))
                &&& *final(self) == *old(self)
            },
            !col_full(*old(self), col as int) ==> {
                let row = lowest_empty_row(*old(self), col as int);
                &&& cell_at(*final(self), row, col as int)
                    == Cell::Player(old(self).current_player)
                &&& forall|r2: int, c2: int|
                    0 <= r2 < 6 && 0 <= c2 < 7 && !(r2 == row && c2 == col)
                        ==> cell_at(*final(self), r2, c2) == cell_at(*old(self), r2, c2)
                &&& if wins_at(final(self).board, row, col as int, old(self).current_player) {
                    &&& r == Ok::<GameMoveResult, MoveError>(
                        GameMoveResult::Won(old(self).current_player),
                    )
                    &&& final(self).current_player == old(self).current_player
                } else {
                    &&& r == Ok::<GameMoveResult, MoveError>(GameMoveResult::Valid)
                    &&& final(self).current_player == other_player(old(self).current_player)
                }
            },
    {
        let mut stalemate = true;
        let mut i: usize = 0;
        while i < 7
            invariant
                i <= 7,
                *self == *old(self),
                stalemate <==> (forall|j: int| 0 <= j < i ==> col_full(*self, j)),
            decreases 7 - i,
        {
            if self.row_available(i).is_some() {
                stalemate = false;
            }
            i += 1;
        }
        if stalemate {
            return Ok(GameMoveResult::Stalemate);
        }
        match self.row_available(col) {
            Some(row) => {
                let p = self.current_player;
                self.update_cell(row, col, Cell::Player(p));
                if self.has_won(row, col) {
                    return Ok(GameMoveResult::Won(p));
                }
                self.current_player = if p == Player::Yellow {
                    Player::Red
                } else {
                    Player::Yellow
                };
                Ok(GameMoveResult::Valid)
            },
            None => Err(MoveError::ColumnFull(col)),
        }
    }

    /// Decides whether the player to move has four in a row on one of the
    /// four lines through `(row, col)`: the whole row, the whole column, or
    /// either diagonal through that cell. Meant to be called right after a
    /// placement at `(row, col)`, so only the placing player's runs matter.
    pub fn has_won(&self, row: usize, col: usize) -> (r: bool)
        requires
            row < 6,
            col < 7,
        ensures
            r == wins_at(self.board, row as int, col as int, self.current_player),
    {
        let p = self.current_player;
        let row_cells = collect_row(self, row);
        if line_has_run(&row_cells, p) {
            return true;
        }
        let col_cells = collect_col(self, col);
        if line_has_run(&col_cells, p) {
            return true;
        }
        let rise_cells = collect_rise(self, row, col);
        if line_has_run(&rise_cells, p) {
            return true;
        }
        let fall_cells = collect_fall(self, row, col);
        line_has_run(&fall_cells, p)
    }
}

} // verus!
