//! The eight lines of three cells that win the game.

use vstd::prelude::*;
use crate::board::Coord;
use crate::player::{Cell, Player};

verus! {

/// The winning lines: the three rows, the three columns and the two diagonals.
pub const WIN_CONDITIONS: [[Coord; 3]; 8] = [
    [(0, 0), (0, 1), (0, 2)],
    [(1, 0), (1, 1), (1, 2)],
    [(2, 0), (2, 1), (2, 2)],
    [(0, 0), (1, 0), (2, 0)],
    [(0, 1), (1, 1), (2, 1)],
    [(0, 2), (1, 2), (2, 2)],
    [(0, 0), (1, 1), (2, 2)],
    [(0, 2), (1, 1), (2, 0)],
];

/// Whether `player`'s mark is on each of the three cells of `line`.
pub open spec fn holds_line(grid: Seq<Seq<Cell>>, line: [Coord; 3], player: Player) -> bool {
    forall|k: int|
        0 <= k < 3 ==> grid[(#[trigger] line[k]).0 as int][line[k].1 as int] == Cell::Taken(player)
}

/// Whether `player` holds at least one of the eight winning lines.
pub open spec fn has_won(grid: Seq<Seq<Cell>>, player: Player) -> bool {
    exists|i: int| 0 <= i < 8 && holds_line(grid, #[trigger] WIN_CONDITIONS[i], player)
}

/// Whether `player`'s mark is on every cell of row `r`.
pub open spec fn holds_row(grid: Seq<Seq<Cell>>, r: int, player: Player) -> bool {
    forall|c: int| 0 <= c < 3 ==> #[trigger] grid[r][c] == Cell::Taken(player)
}

/// Whether `player`'s mark is on every cell of column `c`.
pub open spec fn holds_column(grid: Seq<Seq<Cell>>, c: int, player: Player) -> bool {
    forall|r: int| 0 <= r < 3 ==> (#[trigger] grid[r])[c] == Cell::Taken(player)
}

/// Whether `player`'s mark is on every cell of the diagonal from the top left.
pub open spec fn holds_diagonal(grid: Seq<Seq<Cell>>, player: Player) -> bool {
    forall|d: int| 0 <= d < 3 ==> (#[trigger] grid[d])[d] == Cell::Taken(player)
}

/// Whether `player`'s mark is on every cell of the diagonal from the top right.
pub open spec fn holds_antidiagonal(grid: Seq<Seq<Cell>>, player: Player) -> bool {
    forall|d: int| 0 <= d < 3 ==> (#[trigger] grid[d])[2 - d] == Cell::Taken(player)
}

/// Whether `player` holds a whole row, a whole column or a whole diagonal.
pub open spec fn three_in_a_row(grid: Seq<Seq<Cell>>, player: Player) -> bool {
    ||| exists|r: int| 0 <= r < 3 && #[trigger] holds_row(grid, r, player)
    ||| exists|c: int| 0 <= c < 3 && #[trigger] holds_column(grid, c, player)
    ||| holds_diagonal(grid, player)
    ||| holds_antidiagonal(grid, player)
}

/// What holding the line numbered `i` means, cell by cell.
proof fn lemma_line_cells(grid: Seq<Seq<Cell>>, i: int, player: Player)
    requires
        0 <= i < 8,
    ensures
        holds_line(grid, WIN_CONDITIONS[i], player) <==> {
            let line = WIN_CONDITIONS[i];
            &&& grid[line[0].0 as int][line[0].1 as int] == Cell::Taken(player)
            &&& grid[line[1].0 as int][line[1].1 as int] == Cell::Taken(player)
            &&& grid[line[2].0 as int][line[2].1 as int] == Cell::Taken(player)
        },
{
}

/// The eight winning lines are exactly the rows, the columns and the
/// diagonals: a player holds one of them if and only if that player has three
/// marks in a row.
pub proof fn lemma_lines_are_rows_columns_diagonals(grid: Seq<Seq<Cell>>, player: Player)
    ensures
        has_won(grid, player) <==> three_in_a_row(grid, player),
{
    assert forall|i: int| 0 <= i < 8 implies (holds_line(grid, #[trigger] WIN_CONDITIONS[i], player)
        <==> if i < 3 {
        holds_row(grid, i, player)
    } else if i < 6 {
        holds_column(grid, i - 3, player)
    } else if i == 6 {
        holds_diagonal(grid, player)
    } else {
        holds_antidiagonal(grid, player)
    }) by {
        lemma_line_cells(grid, i, player);
    }
    if has_won(grid, player) {
        let i = choose|i: int| 0 <= i < 8 && holds_line(grid, #[trigger] WIN_CONDITIONS[i], player);
        if i < 3 {
            assert(holds_row(grid, i, player));
        } else if i < 6 {
            assert(holds_column(grid, i - 3, player));
        }
    }
    if three_in_a_row(grid, player) {
        if exists|r: int| 0 <= r < 3 && #[trigger] holds_row(grid, r, player) {
            let r = choose|r: int| 0 <= r < 3 && #[trigger] holds_row(grid, r, player);
            assert(holds_line(grid, WIN_CONDITIONS[r], player));
        } else if exists|c: int| 0 <= c < 3 && #[trigger] holds_column(grid, c, player) {
            let c = choose|c: int| 0 <= c < 3 && #[trigger] holds_column(grid, c, player);
            assert(holds_line(grid, WIN_CONDITIONS[c + 3], player));
        } else if holds_diagonal(grid, player) {
            assert(holds_line(grid, WIN_CONDITIONS[6], player));
        } else {
            assert(holds_line(grid, WIN_CONDITIONS[7], player));
        }
    }
}

} // verus!
