//! Rules of a two-player game on a 3x3 board: marks, the board, the eight
//! winning lines, the reading of a move from a line of text, and the turn-taking
//! state machine that ties them together.

pub mod board;
pub mod detect;
pub mod game;
pub mod laws;
pub mod lines;
pub mod parse;
pub mod player;
pub mod render;
