//! Deciding whether the game has ended, and how.

use vstd::prelude::*;
use vstd::string::*;
use crate::board::{is_full, Board};
use crate::lines::{has_won, holds_line, WIN_CONDITIONS};
use crate::player::{Cell, Player};

verus! {

/// How a game ends.
#[derive(Clone, Copy, PartialEq, Eq, Structural, Debug)]
pub enum GameOver {
    /// The player holds a winning line.
    Victory(Player),
    /// The board is full and nobody holds a winning line.
    Tie,
}

impl GameOver {
    /// The words that announce this end of the game.
    pub open spec fn announcement(self) -> Seq<char> {
        match self {
            GameOver::Victory(p) => seq![p.glyph()] + " Wins!"@,
            GameOver::Tie => "Tie Game!"@,
        }
    }

    /// The message that announces this end of the game: the winner's mark
    /// and ` Wins!`, or `Tie Game!`.
    pub fn message(&self) -> (text: String)
        ensures
            text@ == self.announcement(),
    {
        match self {
            GameOver::Victory(p) => p.to_text().concat(" Wins!"),
            GameOver::Tie => String::from_str("Tie Game!"),
        }
    }
}

/// The standing of the game for `player`, who has just moved: a victory if
/// `player` holds a winning line; otherwise a tie if no cell is empty; otherwise
/// the game goes on.
pub open spec fn standing(grid: Seq<Seq<Cell>>, player: Player) -> Option<GameOver> {
    if has_won(grid, player) {
        Some(GameOver::Victory(player))
    } else if is_full(grid) {
        Some(GameOver::Tie)
    } else {
        None
    }
}

/// Whether `player`'s mark is on each of the three cells of the winning line
/// numbered `i`.
fn line_is_held(cells: &Board, i: usize, player: Player) -> (held: bool)
    requires
        i < 8,
    ensures
        held == holds_line(cells@, WIN_CONDITIONS[i as int], player),
{
    let line = WIN_CONDITIONS[i];
    let mine = Cell::Taken(player);
    let a = line[0];
    let b = line[1];
    let c = line[2];
    cells.cells[a.0][a.1] == mine && cells.cells[b.0][b.1] == mine && cells.cells[c.0][c.1] == mine
}

/// Whether every cell of the board holds a mark.
fn board_is_full(cells: &Board) -> (full: bool)
    ensures
        full == is_full(cells@),
{
    let mut r: usize = 0;
    while r < 3
        invariant
            r <= 3,
            forall|i: int, j: int| 0 <= i < r && 0 <= j < 3 ==> (#[trigger] cells@[i][j]) != Cell::Empty,
        decreases 3 - r,
    {
        let mut c: usize = 0;
        while c < 3
            invariant
                r < 3,
                c <= 3,
                forall|i: int, j: int|
                    0 <= i < r && 0 <= j < 3 ==> (#[trigger] cells@[i][j]) != Cell::Empty,
                forall|j: int| 0 <= j < c ==> (#[trigger] cells@[r as int][j]) != Cell::Empty,
            decreases 3 - c,
        {
            if cells.cells[r][c] == Cell::Empty {
                assert(cells@[r as int][c as int] == Cell::Empty);
                return false;
            }
            c += 1;
        }
        r += 1;
    }
    true
}

/// Tells whether `player`, who has just moved, has ended the game: with a
/// victory if one of the eight winning lines holds `player`'s mark on all three
/// cells, with a tie if there is no such line and no empty cell; `None` says that
/// the game goes on.
pub fn check_game_over(cells: &Board, player: Player) -> (over: Option<GameOver>)
    ensures
        over == standing(cells@, player),
        (over == Some(GameOver::Victory(player))) <==> has_won(cells@, player),
        (over == Some(GameOver::Tie)) <==> (!has_won(cells@, player) && is_full(cells@)),
        (over is None) <==> (!has_won(cells@, player) && !is_full(cells@)),
{
    let mut won = false;
    let mut i: usize = 0;
    while i < 8
        invariant
            i <= 8,
            won == exists|k: int| 0 <= k < i && holds_line(cells@, #[trigger] WIN_CONDITIONS[k], player),
        decreases 8 - i,
    {
        let held = line_is_held(cells, i, player);
        won = won || held;
        i += 1;
    }
    if won {
        Some(GameOver::Victory(player))
    } else if board_is_full(cells) {
        Some(GameOver::Tie)
    } else {
        None
    }
}

} // verus!
