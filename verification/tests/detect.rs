use tictactoe::board::{Board, OccupiedCellError};
use tictactoe::detect::{check_game_over, GameOver};
use tictactoe::lines::WIN_CONDITIONS;
use tictactoe::player::{Cell, Player};

const X: Cell = Cell::Taken(Player::X);
const O: Cell = Cell::Taken(Player::O);
const E: Cell = Cell::Empty;

fn board(cells: [[Cell; 3]; 3]) -> Board {
    Board { cells }
}

#[test]
fn new_board_is_empty() {
    let b = Board::new();
    for row in 0..3 {
        for col in 0..3 {
            assert_eq!(b.get((row, col)), Cell::Empty);
        }
    }
    assert_eq!(b, board([[E; 3]; 3]));
}

#[test]
fn place_writes_the_mark_on_an_empty_cell() {
    let mut b = Board::new();
    assert_eq!(b.place((1, 2), Player::O), Ok(()));
    assert_eq!(b, board([[E, E, E], [E, E, O], [E, E, E]]));
    assert_eq!(b.get((1, 2)), O);
    assert_eq!(b.get((2, 1)), E);
}

#[test]
fn place_refuses_a_taken_cell_and_changes_nothing() {
    let mut b = board([[X, E, E], [E, O, E], [E, E, E]]);
    let before = b;
    assert_eq!(b.place((0, 0), Player::O), Err(OccupiedCellError));
    assert_eq!(b, before);
    assert_eq!(b.place((1, 1), Player::O), Err(OccupiedCellError));
    assert_eq!(b, before);
    assert_eq!(b.place((0, 0), Player::X), Err(OccupiedCellError));
    assert_eq!(b, before);
}

#[test]
fn there_are_three_rows_three_columns_and_two_diagonals() {
    assert_eq!(
        WIN_CONDITIONS,
        [
            [(0, 0), (0, 1), (0, 2)],
            [(1, 0), (1, 1), (1, 2)],
            [(2, 0), (2, 1), (2, 2)],
            [(0, 0), (1, 0), (2, 0)],
            [(0, 1), (1, 1), (2, 1)],
            [(0, 2), (1, 2), (2, 2)],
            [(0, 0), (1, 1), (2, 2)],
            [(0, 2), (1, 1), (2, 0)],
        ]
    );
}

#[test]
fn each_line_alone_is_a_victory_for_its_holder_only() {
    for line in WIN_CONDITIONS {
        for (player, opponent) in [(Player::X, Player::O), (Player::O, Player::X)] {
            let mut b = Board::new();
            for at in line {
                assert_eq!(b.place(at, player), Ok(()));
            }
            assert_eq!(check_game_over(&b, player), Some(GameOver::Victory(player)));
            assert_eq!(check_game_over(&b, opponent), None);
        }
    }
}

#[test]
fn two_of_a_line_are_no_victory() {
    for line in WIN_CONDITIONS {
        for skipped in 0..3 {
            let mut b = Board::new();
            for (k, at) in line.iter().enumerate() {
                if k != skipped {
                    assert_eq!(b.place(*at, Player::X), Ok(()));
                }
            }
            assert_eq!(check_game_over(&b, Player::X), None);
        }
    }
}

#[test]
fn a_line_of_mixed_marks_is_no_victory() {
    let b = board([[X, O, X], [E, E, E], [E, E, E]]);
    assert_eq!(check_game_over(&b, Player::X), None);
    assert_eq!(check_game_over(&b, Player::O), None);
}

#[test]
fn empty_board_continues() {
    let b = Board::new();
    assert_eq!(check_game_over(&b, Player::X), None);
    assert_eq!(check_game_over(&b, Player::O), None);
}

#[test]
fn full_board_without_a_line_is_a_tie() {
    let b = board([[X, O, X], [X, O, O], [O, X, X]]);
    assert_eq!(check_game_over(&b, Player::X), Some(GameOver::Tie));
    assert_eq!(check_game_over(&b, Player::O), Some(GameOver::Tie));
}

#[test]
fn one_empty_cell_and_no_line_continues() {
    let b = board([[X, O, X], [X, O, O], [O, X, E]]);
    assert_eq!(check_game_over(&b, Player::X), None);
    assert_eq!(check_game_over(&b, Player::O), None);
    let b = board([[E, O, X], [X, O, O], [O, X, X]]);
    assert_eq!(check_game_over(&b, Player::X), None);
}

#[test]
fn a_line_on_a_full_board_is_a_victory_not_a_tie() {
    let b = board([[X, X, X], [O, O, X], [X, O, O]]);
    assert_eq!(check_game_over(&b, Player::X), Some(GameOver::Victory(Player::X)));
}

// The player asked about is the one who has just moved. Asked about the
// other player, a full board that the mover has won reads as a tie.
#[test]
fn the_standing_is_that_of_the_player_asked_about() {
    let b = board([[X, X, X], [O, O, X], [X, O, O]]);
    assert_eq!(check_game_over(&b, Player::O), Some(GameOver::Tie));
    let b = board([[O, E, E], [E, O, E], [X, X, O]]);
    assert_eq!(check_game_over(&b, Player::O), Some(GameOver::Victory(Player::O)));
    assert_eq!(check_game_over(&b, Player::X), None);
}

#[test]
fn alternate_swaps_the_players() {
    assert_eq!(Player::X.alternate(), Player::O);
    assert_eq!(Player::O.alternate(), Player::X);
    assert_eq!(Player::X.alternate().alternate(), Player::X);
}

#[test]
fn marks_are_shown_as_x_o_and_blank() {
    assert_eq!(Player::X.to_text(), "X");
    assert_eq!(Player::O.to_text(), "O");
    assert_eq!(Cell::Taken(Player::X).to_text(), "X");
    assert_eq!(Cell::Taken(Player::O).to_text(), "O");
    assert_eq!(Cell::Empty.to_text(), " ");
}

#[test]
fn the_end_is_announced() {
    assert_eq!(GameOver::Victory(Player::X).message(), "X Wins!");
    assert_eq!(GameOver::Victory(Player::O).message(), "O Wins!");
    assert_eq!(GameOver::Tie.message(), "Tie Game!");
}

/// Whether `player` has three marks in a row, found by walking the rows, the
/// columns and the two diagonals.
fn three_in_a_row(cells: &[[Cell; 3]; 3], player: Player) -> bool {
    let mine = Cell::Taken(player);
    let row = (0..3).any(|r| (0..3).all(|c| cells[r][c] == mine));
    let column = (0..3).any(|c| (0..3).all(|r| cells[r][c] == mine));
    let diagonal = (0..3).all(|d| cells[d][d] == mine);
    let antidiagonal = (0..3).all(|d| cells[d][2 - d] == mine);
    row || column || diagonal || antidiagonal
}

#[test]
fn every_board_is_judged_by_its_rows_columns_and_diagonals() {
    let mut victories = 0;
    let mut ties = 0;
    let mut open = 0;
    for code in 0..19683 {
        let mut cells = [[E; 3]; 3];
        let mut rest = code;
        for k in 0..9 {
            cells[k / 3][k % 3] = [E, X, O][rest % 3];
            rest /= 3;
        }
        let full = cells.iter().flatten().all(|c| *c != E);
        let b = board(cells);
        for player in [Player::X, Player::O] {
            let expected = if three_in_a_row(&cells, player) {
                victories += 1;
                Some(GameOver::Victory(player))
            } else if full {
                ties += 1;
                Some(GameOver::Tie)
            } else {
                open += 1;
                None
            };
            assert_eq!(check_game_over(&b, player), expected, "board {:?}", cells);
        }
    }
    assert_eq!(victories + ties + open, 2 * 19683);
    assert!(victories > 0 && ties > 0 && open > 0);
}
