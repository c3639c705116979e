//! The game as a state machine: each line of input is a step.
//!
//! Reading the line and showing the answer are left to the caller. A step
//! takes the line, and says what became of it.

use vstd::prelude::*;
use vstd::string::*;
use crate::board::{empty_grid, is_grid, marks, with_cell, Board};
use crate::detect::{check_game_over, standing, GameOver};
use crate::laws::{lemma_start_is_consistent, lemma_step_keeps_consistent};
use crate::lines::has_won;
use crate::parse::{coord_parser, parsed};
use crate::player::{Cell, Player};

verus! {

/// Why a line of input placed no mark.
#[derive(Clone, Copy, PartialEq, Eq, Structural, Debug)]
pub enum InputError {
    /// The line does not open with a position.
    InvalidPosition,
    /// The position named already holds a mark.
    Occupied,
}

impl InputError {
    /// The words that tell the player of this error.
    pub open spec fn complaint(self) -> Seq<char> {
        match self {
            InputError::InvalidPosition => "Invalid Position"@,
            InputError::Occupied => "This Position Cannot Be Overwriten!"@,
        }
    }

    /// The message that tells the player of this error.
    pub fn message(&self) -> (text: String)
        ensures
            text@ == self.complaint(),
    {
        match self {
            InputError::InvalidPosition => String::from_str("Invalid Position"),
            InputError::Occupied => String::from_str("This Position Cannot Be Overwriten!"),
        }
    }
}

/// What a step did with its line.
#[derive(Clone, Copy, PartialEq, Eq, Structural, Debug)]
pub enum Reply {
    /// No mark was placed; the same player is to try again.
    Refused(InputError),
    /// The mark was placed and the other player is to move.
    Placed,
    /// The mark was placed and ended the game.
    Finished(GameOver),
}

/// A game in progress or at its end.
#[derive(Clone, Copy, PartialEq, Eq, Debug)]
pub struct Game {
    /// The marks placed so far.
    pub board: Board,
    /// The player whose mark the next accepted line places.
    pub player: Player,
    /// How the game ended, once it has.
    pub outcome: Option<GameOver>,
}

/// The state of a game as a plain value.
pub struct State {
    pub grid: Seq<Seq<Cell>>,
    pub turn: Player,
    pub over: Option<GameOver>,
}

impl View for Game {
    type V = State;

    open spec fn view(&self) -> State {
        State { grid: self.board@, turn: self.player, over: self.outcome }
    }
}

/// The grid that results when `player` enters `line`: the mark is placed where the
/// line says, if it names a position and that position is empty.
pub open spec fn marked(grid: Seq<Seq<Cell>>, player: Player, line: Seq<char>) -> Result<
    Seq<Seq<Cell>>,
    InputError,
> {
    match parsed(line) {
        Err(_) => Err(InputError::InvalidPosition),
        Ok(at) => if grid[at.0 as int][at.1 as int] == Cell::Empty {
            Ok(with_cell(grid, at.0 as int, at.1 as int, Cell::Taken(player)))
        } else {
            Err(InputError::Occupied)
        },
    }
}

/// The state at the start: an empty board, `X` to move.
pub open spec fn start() -> State {
    State { grid: empty_grid(), turn: Player::X, over: None }
}

/// The player who places the `k`-th mark of a game, counting from 1.
pub open spec fn mover(k: nat) -> Player {
    if k % 2 == 1 {
        Player::X
    } else {
        Player::O
    }
}

/// What holds of every state that a game can reach: the board is 3x3; the
/// turn is that of the player who places the next mark, counted from the marks
/// on the board; the player to move holds no winning line; and the outcome is
/// the standing of the player who moved last.
pub open spec fn consistent(s: State) -> bool {
    &&& is_grid(s.grid)
    &&& s.turn == mover(marks(s.grid) + 1)
    &&& !has_won(s.grid, s.turn)
    &&& s.over == standing(s.grid, s.turn.other())
}

/// The state after `line` is entered in state `s`. A finished game takes no
/// more input. A line that places no mark changes nothing. A line that places
/// one hands the turn over and settles whether the player who placed it has
/// ended the game.
pub open spec fn after_line(s: State, line: Seq<char>) -> State {
    if s.over is Some {
        s
    } else {
        match marked(s.grid, s.turn, line) {
            Err(_) => s,
            Ok(grid) => State { grid, turn: s.turn.other(), over: standing(grid, s.turn) },
        }
    }
}

/// The answer to `line` entered in state `s`, where the game is not over.
pub open spec fn reply_to(s: State, line: Seq<char>) -> Reply {
    match marked(s.grid, s.turn, line) {
        Err(e) => Reply::Refused(e),
        Ok(grid) => match standing(grid, s.turn) {
            None => Reply::Placed,
            Some(end) => Reply::Finished(end),
        },
    }
}

/// Tries to place `player`'s mark where `input` says. Fails, and leaves the
/// board as it was, if `input` names no position or names one that is taken.
pub fn input_mark(cells: &mut Board, player: &Player, input: &str) -> (done: Result<(), InputError>)
    ensures
        match marked(old(cells)@, *player, input@) {
            Ok(grid) => done is Ok && final(cells)@ == grid,
            Err(e) => done == Err::<(), InputError>(e) && *final(cells) == *old(cells),
        },
{
    match coord_parser(input) {
        Err(_) => Err(InputError::InvalidPosition),
        Ok(at) => match cells.place(at, *player) {
            Err(_) => Err(InputError::Occupied),
            Ok(()) => Ok(()),
        },
    }
}

impl Game {
    /// A new game: the board is empty and `X` moves first.
    pub fn new() -> (game: Game)
        ensures
            game@ == start(),
            consistent(game@),
    {
        let game = Game { board: Board::new(), player: Player::X, outcome: None };
        proof {
            lemma_start_is_consistent();
        }
        game
    }

    /// Takes one line of input from the player whose turn it is. If the line
    /// places a mark, the turn passes to the other player, and the game ends
    /// if the mark completed a line or filled the board.
    pub fn step(&mut self, line: &str) -> (reply: Reply)
        requires
            old(self).outcome is None,
        ensures
            final(self)@ == after_line(old(self)@, line@),
            reply == reply_to(old(self)@, line@),
            consistent(old(self)@) ==> consistent(final(self)@),
    {
        proof {
            if consistent(old(self)@) {
                lemma_step_keeps_consistent(old(self)@, line@);
            }
        }
        match input_mark(&mut self.board, &self.player, line) {
            Err(e) => Reply::Refused(e),
            Ok(()) => {
                self.player = self.player.alternate();
                self.outcome = check_game_over(&self.board, self.player.alternate());
                match self.outcome {
                    None => Reply::Placed,
                    Some(end) => Reply::Finished(end),
                }
            },
        }
    }
}

} // verus!
