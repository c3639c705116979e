//! The board, its coordinates, and the placing of a mark.

use vstd::prelude::*;
use crate::player::{Cell, Player};

verus! {

/// A position as (row, column). Row 0 is the row lettered A, column 0 the
/// column numbered 1.
pub type Coord = (usize, usize);

/// Whether the position lies on the board.
pub open spec fn on_board(at: Coord) -> bool {
    at.0 < 3 && at.1 < 3
}

/// The error of placing a mark on a cell that already holds one.
#[derive(Clone, Copy, PartialEq, Eq, Structural, Debug)]
pub struct OccupiedCellError;

/// The 3x3 grid of cells.
#[derive(Clone, Copy, PartialEq, Eq, Debug)]
pub struct Board {
    pub cells: [[Cell; 3]; 3],
}

impl View for Board {
    type V = Seq<Seq<Cell>>;

    /// The board as three rows of three cells.
    open spec fn view(&self) -> Seq<Seq<Cell>> {
        Seq::new(3, |r: int| Seq::new(3, |c: int| self.cells[r][c]))
    }
}

/// Whether `grid` has the shape of a board: three rows of three cells.
pub open spec fn is_grid(grid: Seq<Seq<Cell>>) -> bool {
    grid.len() == 3 && forall|r: int| 0 <= r < 3 ==> (#[trigger] grid[r]).len() == 3
}

/// The grid of a board with no mark on it.
pub open spec fn empty_grid() -> Seq<Seq<Cell>> {
    Seq::new(3, |r: int| Seq::new(3, |c: int| Cell::Empty))
}

/// The number of marks in the first `n` cells of `grid`, read row by row.
pub open spec fn marks_before(grid: Seq<Seq<Cell>>, n: nat) -> nat
    decreases n,
{
    if n == 0 {
        0
    } else {
        let k = n - 1;
        marks_before(grid, k as nat) + if grid[k / 3][k % 3] == Cell::Empty {
            0nat
        } else {
            1nat
        }
    }
}

/// The number of marks on the board.
pub open spec fn marks(grid: Seq<Seq<Cell>>) -> nat {
    marks_before(grid, 9)
}

/// Whether every cell holds a mark.
pub open spec fn is_full(grid: Seq<Seq<Cell>>) -> bool {
    forall|r: int, c: int| 0 <= r < 3 && 0 <= c < 3 ==> (#[trigger] grid[r][c]) != Cell::Empty
}

/// `grid` with the cell at (`row`, `col`) replaced by `cell`.
pub open spec fn with_cell(grid: Seq<Seq<Cell>>, row: int, col: int, cell: Cell) -> Seq<Seq<Cell>> {
    grid.update(row, grid[row].update(col, cell))
}

impl Board {
    /// The board with no mark on it.
    pub fn new() -> (board: Board)
        ensures
            board@ == empty_grid(),
    {
        let board = Board { cells: [[Cell::Empty; 3]; 3] };
        assert(board@ =~~= empty_grid());
        board
    }

    /// The cell at `at`.
    pub fn get(&self, at: Coord) -> (cell: Cell)
        requires
            on_board(at),
        ensures
            cell == self@[at.0 as int][at.1 as int],
    {
        self.cells[at.0][at.1]
    }

    /// Writes `player`'s mark at `at` if that cell is empty, and refuses
    /// otherwise, leaving the board as it was.
    pub fn place(&mut self, at: Coord, player: Player) -> (placed: Result<(), OccupiedCellError>)
        requires
            on_board(at),
        ensures
            old(self)@[at.0 as int][at.1 as int] == Cell::Empty ==> placed is Ok && final(self)@
                == with_cell(old(self)@, at.0 as int, at.1 as int, Cell::Taken(player)),
            old(self)@[at.0 as int][at.1 as int] != Cell::Empty ==> placed is Err
                && *final(self) == *old(self),
    {
        if self.cells[at.0][at.1] != Cell::Empty {
            Err(OccupiedCellError)
        } else {
            self.cells[at.0][at.1] = Cell::Taken(player);
            assert(self@ =~~= with_cell(
                old(self)@,
                at.0 as int,
                at.1 as int,
                Cell::Taken(player),
            ));
            Ok(())
        }
    }
}

} // verus!
