use tictactoe::board::Board;
use tictactoe::game::{Game, Reply};
use tictactoe::player::Player;
use tictactoe::render::{board_row, display_cells, header_row};

#[test]
fn the_header_numbers_the_columns() {
    assert_eq!(header_row(), vec!["#", "1", "2", "3"]);
}

#[test]
fn a_row_has_its_letter_and_its_marks() {
    let mut board = Board::new();
    assert_eq!(board.place((0, 0), Player::X), Ok(()));
    assert_eq!(board.place((2, 1), Player::O), Ok(()));
    assert_eq!(board_row(&board, 0), vec!["A", "X", " ", " "]);
    assert_eq!(board_row(&board, 1), vec!["B", " ", " ", " "]);
    assert_eq!(board_row(&board, 2), vec!["C", " ", "O", " "]);
}

#[test]
fn an_empty_board_is_a_table_of_blanks() {
    let expected = "\
+---+---+---+---+
| # | 1 | 2 | 3 |
+===============+
| A |   |   |   |
|---+---+---+---|
| B |   |   |   |
|---+---+---+---|
| C |   |   |   |
+---+---+---+---+";
    assert_eq!(display_cells(&Board::new()), expected);
}

#[test]
fn one_a_shows_x_in_row_a_column_one() {
    let mut game = Game::new();
    assert_eq!(game.step("1a"), Reply::Placed);
    let expected = "\
+---+---+---+---+
| # | 1 | 2 | 3 |
+===============+
| A | X |   |   |
|---+---+---+---|
| B |   |   |   |
|---+---+---+---|
| C |   |   |   |
+---+---+---+---+";
    assert_eq!(display_cells(&game.board), expected);
}

#[test]
fn a_full_board_shows_every_mark() {
    let mut game = Game::new();
    for line in ["1a", "2a", "3a", "2b", "1b", "1c", "3b", "3c", "2c"] {
        game.step(line);
    }
    let expected = "\
+---+---+---+---+
| # | 1 | 2 | 3 |
+===============+
| A | X | O | X |
|---+---+---+---|
| B | X | O | X |
|---+---+---+---|
| C | O | X | O |
+---+---+---+---+";
    assert_eq!(display_cells(&game.board), expected);
}
