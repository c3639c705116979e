//! Reading a position from a line of text.
//!
//! A position is written as the column's digit followed at once by the row's
//! letter, in either case: `1a` is the top left cell, `3C` the bottom right
//! one. The two characters must open the line. Whatever follows them, such as
//! the end of the line, is not looked at.

use vstd::prelude::*;
use vstd::string::*;
use crate::board::{on_board, Coord};

verus! {

/// The error of a line that does not open with a position.
#[derive(Clone, Copy, PartialEq, Eq, Structural, Debug)]
pub struct ParseError;

/// The column that a digit names: `1`, `2`, `3` for columns 0, 1, 2.
pub open spec fn column_of(c: char) -> Option<usize> {
    if c == '1' {
        Some(0usize)
    } else if c == '2' {
        Some(1usize)
    } else if c == '3' {
        Some(2usize)
    } else {
        None
    }
}

/// The row that a letter names: `a`, `b`, `c`, in either case, for rows 0, 1, 2.
pub open spec fn row_of(c: char) -> Option<usize> {
    if c == 'a' || c == 'A' {
        Some(0usize)
    } else if c == 'b' || c == 'B' {
        Some(1usize)
    } else if c == 'c' || c == 'C' {
        Some(2usize)
    } else {
        None
    }
}

/// The position that a line opens with, if it opens with one.
pub open spec fn parsed(input: Seq<char>) -> Result<Coord, ParseError> {
    if input.len() >= 2 && column_of(input[0]) is Some && row_of(input[1]) is Some {
        Ok((row_of(input[1]).unwrap(), column_of(input[0]).unwrap()))
    } else {
        Err(ParseError)
    }
}

/// The two characters that name a position, in lower case.
pub open spec fn notation(at: Coord) -> Seq<char> {
    let digit = if at.1 == 0 {
        '1'
    } else if at.1 == 1 {
        '2'
    } else {
        '3'
    };
    let letter = if at.0 == 0 {
        'a'
    } else if at.0 == 1 {
        'b'
    } else {
        'c'
    };
    seq![digit, letter]
}

/// The column named by `c`, if `c` is one of the digits 1 to 3.
fn column_index(c: char) -> (col: Option<usize>)
    ensures
        col == column_of(c),
{
    match c {
        '1' => Some(0),
        '2' => Some(1),
        '3' => Some(2),
        _ => None,
    }
}

/// The row named by `c`, if `c` is one of the letters a to c, in either case.
fn row_index(c: char) -> (row: Option<usize>)
    ensures
        row == row_of(c),
{
    match c {
        'a' | 'A' => Some(0),
        'b' | 'B' => Some(1),
        'c' | 'C' => Some(2),
        _ => None,
    }
}

/// Reads the position that `input` opens with: a digit from 1 to 3 for the
/// column, then a letter from a to c, in either case, for the row. Fails if
/// `input` does not open so. What follows the two characters is ignored.
pub fn coord_parser(input: &str) -> (at: Result<Coord, ParseError>)
    ensures
        at == parsed(input@),
        at is Ok ==> on_board(at.unwrap()),
{
    if input.unicode_len() < 2 {
        return Err(ParseError);
    }
    match (column_index(input.get_char(0)), row_index(input.get_char(1))) {
        (Some(col), Some(row)) => Ok((row, col)),
        _ => Err(ParseError),
    }
}

/// Every position on the board is the reading of a text of two characters,
/// a digit and a letter.
pub proof fn lemma_notation_is_parsed(at: Coord)
    requires
        on_board(at),
    ensures
        notation(at).len() == 2,
        column_of(notation(at)[0]) is Some,
        row_of(notation(at)[1]) is Some,
        parsed(notation(at)) == Ok::<Coord, ParseError>(at),
        exists|text: Seq<char>| text.len() == 2 && parsed(text) == Ok::<Coord, ParseError>(at),
{
    assert(parsed(notation(at)) == Ok::<Coord, ParseError>(at));
}

/// A line that is read as a position is read the same with anything put after
/// its first two characters.
pub proof fn lemma_only_the_first_two_count(input: Seq<char>, rest: Seq<char>)
    requires
        input.len() >= 2,
    ensures
        parsed(input + rest) == parsed(input),
        parsed(input) == parsed(input.subrange(0, 2)),
{
}

} // verus!
