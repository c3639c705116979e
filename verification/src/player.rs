//! The two players and what a cell of the board can hold.

use vstd::prelude::*;
use vstd::string::*;

verus! {

/// One of the two players. `X` moves first.
#[derive(Clone, Copy, PartialEq, Eq, Structural, Debug)]
pub enum Player {
    X,
    O,
}

/// What one position of the board holds: nothing yet, or a player's mark.
#[derive(Clone, Copy, PartialEq, Eq, Structural, Debug)]
pub enum Cell {
    Empty,
    Taken(Player),
}

impl Player {
    /// The opponent of this player.
    pub open spec fn other(self) -> Player {
        match self {
            Player::X => Player::O,
            Player::O => Player::X,
        }
    }

    /// The character that stands for this player's mark.
    pub open spec fn glyph(self) -> char {
        match self {
            Player::X => 'X',
            Player::O => 'O',
        }
    }

    /// The player whose turn follows this player's.
    pub fn alternate(&self) -> (next: Player)
        ensures
            next == self.other(),
    {
        match self {
            Player::X => Player::O,
            Player::O => Player::X,
        }
    }

    /// This player's mark as a one-character text.
    pub fn to_text(&self) -> (text: String)
        ensures
            text@ == seq![self.glyph()],
    {
        proof {
            reveal_strlit("X");
            reveal_strlit("O");
        }
        let text = match self {
            Player::X => String::from_str("X"),
            Player::O => String::from_str("O"),
        };
        assert(text@ =~= seq![self.glyph()]);
        text
    }
}

impl Cell {
    /// The character shown for this cell: the mark, or a blank.
    pub open spec fn glyph(self) -> char {
        match self {
            Cell::Empty => ' ',
            Cell::Taken(p) => p.glyph(),
        }
    }

    /// The cell's content as a one-character text.
    pub fn to_text(&self) -> (text: String)
        ensures
            text@ == seq![self.glyph()],
    {
        match self {
            Cell::Empty => {
                proof {
                    reveal_strlit(" ");
                }
                let text = String::from_str(" ");
                assert(text@ =~= seq![self.glyph()]);
                text
            },
            Cell::Taken(p) => p.to_text(),
        }
    }
}

} // verus!
