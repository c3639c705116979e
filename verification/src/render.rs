//! The board as a table of text.

use vstd::prelude::*;
use vstd::string::*;
use crate::board::Board;
use crate::player::Cell;

verus! {

/// The text that `comfy_table` lays out for a table with the header `header`
/// and the rows `rows`, each a sequence of cells, a cell being its characters.
pub uninterp spec fn table_text(header: Seq<Seq<char>>, rows: Seq<Seq<Seq<char>>>) -> Seq<char>;

/// Whether every row has as many cells as the header, and every cell, the
/// header's too, is a single character.
pub open spec fn is_plain_grid(header: Seq<Seq<char>>, rows: Seq<Seq<Seq<char>>>) -> bool {
    &&& forall|j: int| 0 <= j < header.len() ==> (#[trigger] header[j]).len() == 1
    &&& forall|i: int| 0 <= i < rows.len() ==> (#[trigger] rows[i]).len() == header.len()
    &&& forall|i: int, j: int|
        0 <= i < rows.len() && 0 <= j < rows[i].len() ==> (#[trigger] rows[i][j]).len() == 1
}

/// Lays a grid of cells out as text with `comfy_table`: a table made by
/// `Table::new`, given its header by `Table::set_header` and its rows by
/// `Table::add_rows`, and turned into text by its `Display`. Such a table has no
/// setting but those that `Table::new` gives, so its text depends on the cells
/// alone; the contract says that and nothing of what the text looks like. It is
/// stated for grids of one-character cells, which are all that is laid out here.
#[verifier::external_body]
fn lay_out(header: Vec<String>, rows: Vec<Vec<String>>) -> (text: String)
    requires
        is_plain_grid(header.deep_view(), rows.deep_view()),
    ensures
        text@ == table_text(header.deep_view(), rows.deep_view()),
{
    let mut table = comfy_table::Table::new();
    table.set_header(header);
    table.add_rows(rows);
    table.to_string()
}

/// The cells of the header: a corner sign and the numbers of the columns.
pub open spec fn header_cells() -> Seq<Seq<char>> {
    seq![seq!['#'], seq!['1'], seq!['2'], seq!['3']]
}

/// The letter of row `r`.
pub open spec fn row_letter(r: int) -> char {
    if r == 0 {
        'A'
    } else if r == 1 {
        'B'
    } else {
        'C'
    }
}

/// The cells of the table's row for row `r` of the board: the row's letter,
/// then the mark of each cell, a blank for an empty one.
pub open spec fn row_cells(grid: Seq<Seq<Cell>>, r: int) -> Seq<Seq<char>> {
    seq![
        seq![row_letter(r)],
        seq![grid[r][0].glyph()],
        seq![grid[r][1].glyph()],
        seq![grid[r][2].glyph()],
    ]
}

/// The cells of the table's three rows.
pub open spec fn board_cells(grid: Seq<Seq<Cell>>) -> Seq<Seq<Seq<char>>> {
    seq![row_cells(grid, 0), row_cells(grid, 1), row_cells(grid, 2)]
}

/// The header of the table.
pub fn header_row() -> (cells: Vec<String>)
    ensures
        cells.deep_view() == header_cells(),
{
    proof {
        reveal_strlit("#");
        reveal_strlit("1");
        reveal_strlit("2");
        reveal_strlit("3");
    }
    let mut cells: Vec<String> = Vec::new();
    cells.push(String::from_str("#"));
    cells.push(String::from_str("1"));
    cells.push(String::from_str("2"));
    cells.push(String::from_str("3"));
    assert(cells.deep_view() =~~= header_cells());
    cells
}

/// The table's row for row `r` of the board.
pub fn board_row(cells: &Board, r: usize) -> (row: Vec<String>)
    requires
        r < 3,
    ensures
        row.deep_view() == row_cells(cells@, r as int),
{
    proof {
        reveal_strlit("A");
        reveal_strlit("B");
        reveal_strlit("C");
    }
    let label = if r == 0 {
        "A"
    } else if r == 1 {
        "B"
    } else {
        "C"
    };
    let mut row: Vec<String> = Vec::new();
    row.push(String::from_str(label));
    let mut c: usize = 0;
    while c < 3
        invariant
            r < 3,
            c <= 3,
            row@.len() == c + 1,
            row@[0]@ =~= seq![row_letter(r as int)],
            forall|j: int|
                1 <= j <= c ==> (#[trigger] row@[j])@ == seq![cells@[r as int][j - 1].glyph()],
        decreases 3 - c,
    {
        row.push(cells.cells[r][c].to_text());
        c += 1;
    }
    assert(row.deep_view() =~~= row_cells(cells@, r as int));
    row
}

/// The board as a table: a header with the columns' numbers, then one row
/// for each row of the board, with its letter and its three cells.
pub fn display_cells(cells: &Board) -> (text: String)
    ensures
        text@ == table_text(header_cells(), board_cells(cells@)),
{
    let header = header_row();
    let mut rows: Vec<Vec<String>> = Vec::new();
    let mut r: usize = 0;
    while r < 3
        invariant
            r <= 3,
            rows@.len() == r,
            forall|i: int| 0 <= i < r ==> (#[trigger] rows@[i]).deep_view() == row_cells(cells@, i),
        decreases 3 - r,
    {
        rows.push(board_row(cells, r));
        r += 1;
    }
    assert(rows.deep_view() =~~= board_cells(cells@));
    lay_out(header, rows)
}

} // verus!
