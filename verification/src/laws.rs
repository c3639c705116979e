//! What holds of every game, whatever lines are entered.

use vstd::prelude::*;
use crate::board::{is_full, is_grid, marks, marks_before, with_cell};
use crate::detect::{standing, GameOver};
use crate::game::{after_line, consistent, marked, mover, start, State};
use crate::lines::{has_won, holds_line, WIN_CONDITIONS};
use crate::parse::parsed;
use crate::player::{Cell, Player};

verus! {

/// The state after the lines of `lines` are entered one after the other in a
/// new game.
pub open spec fn run(lines: Seq<Seq<char>>) -> State
    decreases lines.len(),
{
    if lines.len() == 0 {
        start()
    } else {
        after_line(run(lines.drop_last()), lines.last())
    }
}

/// The number of lines among `lines` that placed a mark.
pub open spec fn accepted(lines: Seq<Seq<char>>) -> nat
    decreases lines.len(),
{
    if lines.len() == 0 {
        0
    } else {
        let before = run(lines.drop_last());
        accepted(lines.drop_last()) + if before.over is None && marked(
            before.grid,
            before.turn,
            lines.last(),
        ) is Ok {
            1nat
        } else {
            0nat
        }
    }
}

/// Every cell of a winning line lies on the board.
pub proof fn lemma_lines_on_board(i: int, k: int)
    requires
        0 <= i < 8,
        0 <= k < 3,
    ensures
        WIN_CONDITIONS[i][k].0 < 3,
        WIN_CONDITIONS[i][k].1 < 3,
{
}

/// Placing a mark on an empty cell adds one to the number of marks.
pub proof fn lemma_mark_adds_one(grid: Seq<Seq<Cell>>, row: int, col: int, player: Player)
    requires
        is_grid(grid),
        0 <= row < 3,
        0 <= col < 3,
        grid[row][col] == Cell::Empty,
    ensures
        is_grid(with_cell(grid, row, col, Cell::Taken(player))),
        marks(with_cell(grid, row, col, Cell::Taken(player))) == marks(grid) + 1,
{
    reveal_with_fuel(marks_before, 10);
}

/// A mark placed on an empty cell completes no line for the other player.
pub proof fn lemma_mark_wins_for_nobody_else(
    grid: Seq<Seq<Cell>>,
    row: int,
    col: int,
    player: Player,
    other: Player,
)
    requires
        is_grid(grid),
        0 <= row < 3,
        0 <= col < 3,
        grid[row][col] == Cell::Empty,
        other != player,
        has_won(with_cell(grid, row, col, Cell::Taken(player)), other),
    ensures
        has_won(grid, other),
{
    let after = with_cell(grid, row, col, Cell::Taken(player));
    let i = choose|i: int| 0 <= i < 8 && holds_line(after, #[trigger] WIN_CONDITIONS[i], other);
    let line = WIN_CONDITIONS[i];
    assert forall|k: int| 0 <= k < 3 implies grid[(#[trigger] line[k]).0 as int][line[k].1 as int]
        == Cell::Taken(other) by {
        lemma_lines_on_board(i, k);
    }
    assert(holds_line(grid, WIN_CONDITIONS[i], other));
}

/// A new game is in a consistent state.
pub proof fn lemma_start_is_consistent()
    ensures
        consistent(start()),
        start().over is None,
        marks(start().grid) == 0,
{
    reveal_with_fuel(marks_before, 10);
    let s = start();
    assert forall|p: Player| !has_won(s.grid, p) by {
        if has_won(s.grid, p) {
            let i = choose|i: int| 0 <= i < 8 && holds_line(s.grid, #[trigger] WIN_CONDITIONS[i], p);
            lemma_lines_on_board(i, 0);
            assert(s.grid[WIN_CONDITIONS[i][0].0 as int][WIN_CONDITIONS[i][0].1 as int] == Cell::Empty);
        }
    }
    assert(s.grid[0][0] == Cell::Empty);
    assert(!is_full(s.grid));
}

/// A step leads from a consistent state to a consistent state.
pub proof fn lemma_step_keeps_consistent(s: State, line: Seq<char>)
    requires
        consistent(s),
    ensures
        consistent(after_line(s, line)),
{
    if s.over is None {
        match marked(s.grid, s.turn, line) {
            Err(_) => {},
            Ok(grid) => {
                let at = parsed(line).unwrap();
                lemma_mark_adds_one(s.grid, at.0 as int, at.1 as int, s.turn);
                if has_won(grid, s.turn.other()) {
                    lemma_mark_wins_for_nobody_else(
                        s.grid,
                        at.0 as int,
                        at.1 as int,
                        s.turn,
                        s.turn.other(),
                    );
                }
            },
        }
    }
}

/// Whatever lines are entered, the game is in a consistent state.
pub proof fn lemma_run_is_consistent(lines: Seq<Seq<char>>)
    ensures
        consistent(run(lines)),
    decreases lines.len(),
{
    if lines.len() == 0 {
        lemma_start_is_consistent();
    } else {
        lemma_run_is_consistent(lines.drop_last());
        lemma_step_keeps_consistent(run(lines.drop_last()), lines.last());
    }
}

/// The outcome is settled once: a game that is over stays as it is, whatever
/// lines follow.
pub proof fn lemma_finished_game_stays(lines: Seq<Seq<char>>, more: Seq<Seq<char>>)
    requires
        run(lines).over is Some,
    ensures
        run(lines + more) == run(lines),
    decreases more.len(),
{
    if more.len() == 0 {
        assert(lines + more =~= lines);
    } else {
        lemma_finished_game_stays(lines, more.drop_last());
        assert((lines + more).drop_last() =~= lines + more.drop_last());
        assert((lines + more).last() == more.last());
    }
}

/// A step changes no cell that holds a mark.
pub proof fn lemma_step_keeps_marks(s: State, line: Seq<char>, row: int, col: int)
    requires
        is_grid(s.grid),
        0 <= row < 3,
        0 <= col < 3,
        s.grid[row][col] != Cell::Empty,
    ensures
        after_line(s, line).grid[row][col] == s.grid[row][col],
{
}

/// Every cell is empty when the game starts, and a cell that holds a mark
/// holds the same mark after any further lines.
pub proof fn lemma_marks_are_kept(lines: Seq<Seq<char>>, more: Seq<Seq<char>>, row: int, col: int)
    requires
        0 <= row < 3,
        0 <= col < 3,
    ensures
        run(Seq::empty()).grid[row][col] == Cell::Empty,
        run(lines).grid[row][col] != Cell::Empty ==> run(lines + more).grid[row][col] == run(
            lines,
        ).grid[row][col],
    decreases more.len(),
{
    if more.len() == 0 {
        assert(lines + more =~= lines);
    } else {
        lemma_marks_are_kept(lines, more.drop_last(), row, col);
        assert((lines + more).drop_last() =~= lines + more.drop_last());
        assert((lines + more).last() == more.last());
        if run(lines).grid[row][col] != Cell::Empty {
            lemma_run_is_consistent(lines + more.drop_last());
            lemma_step_keeps_marks(run(lines + more.drop_last()), more.last(), row, col);
        }
    }
}

/// The marks on the board are as many as the lines that placed one.
pub proof fn lemma_one_mark_per_accepted_line(lines: Seq<Seq<char>>)
    ensures
        marks(run(lines).grid) == accepted(lines),
    decreases lines.len(),
{
    if lines.len() == 0 {
        lemma_start_is_consistent();
    } else {
        let before = run(lines.drop_last());
        lemma_one_mark_per_accepted_line(lines.drop_last());
        lemma_run_is_consistent(lines.drop_last());
        if before.over is None && marked(before.grid, before.turn, lines.last()) is Ok {
            let at = parsed(lines.last()).unwrap();
            lemma_mark_adds_one(before.grid, at.0 as int, at.1 as int, before.turn);
        }
    }
}

/// Turns alternate: the line that places the `k`-th mark of a game places the
/// mark of `X` if `k` is odd and that of `O` if `k` is even, on a cell that was
/// empty, and changes nothing else on the board.
pub proof fn lemma_turns_alternate(lines: Seq<Seq<char>>, line: Seq<char>)
    requires
        run(lines).over is None,
        marked(run(lines).grid, run(lines).turn, line) is Ok,
    ensures
        accepted(lines.push(line)) == accepted(lines) + 1,
        parsed(line) is Ok,
        ({
            let k = accepted(lines.push(line));
            let at = parsed(line).unwrap();
            &&& run(lines).grid[at.0 as int][at.1 as int] == Cell::Empty
            &&& run(lines.push(line)).grid == with_cell(
                run(lines).grid,
                at.0 as int,
                at.1 as int,
                Cell::Taken(mover(k)),
            )
            &&& (k % 2 == 1 ==> mover(k) == Player::X)
            &&& (k % 2 == 0 ==> mover(k) == Player::O)
            &&& run(lines.push(line)).turn == mover(k + 1)
        }),
{
    assert(lines.push(line).drop_last() =~= lines);
    lemma_one_mark_per_accepted_line(lines);
    lemma_one_mark_per_accepted_line(lines.push(line));
    lemma_run_is_consistent(lines);
    lemma_run_is_consistent(lines.push(line));
}

/// The outcome of a game is right for both players: the game goes on exactly
/// while nobody holds a winning line and a cell is empty; it is a tie exactly
/// when nobody holds a winning line and no cell is empty; it is a victory of
/// exactly the player who holds a winning line; and both never hold one.
pub proof fn lemma_outcome_is_right(lines: Seq<Seq<char>>)
    ensures
        ({
            let s = run(lines);
            let won_x = has_won(s.grid, Player::X);
            let won_o = has_won(s.grid, Player::O);
            &&& !(won_x && won_o)
            &&& (s.over is None <==> !won_x && !won_o && !is_full(s.grid))
            &&& (s.over == Some(GameOver::Tie) <==> !won_x && !won_o && is_full(s.grid))
            &&& (s.over == Some(GameOver::Victory(Player::X)) <==> won_x)
            &&& (s.over == Some(GameOver::Victory(Player::O)) <==> won_o)
        }),
{
    lemma_run_is_consistent(lines);
}

/// A board has at most nine marks, and is full exactly when it has nine.
pub proof fn lemma_full_is_nine_marks(grid: Seq<Seq<Cell>>)
    requires
        is_grid(grid),
    ensures
        marks(grid) <= 9,
        is_full(grid) <==> marks(grid) == 9,
{
    reveal_with_fuel(marks_before, 10);
    if marks(grid) == 9 {
        assert forall|r: int, c: int| 0 <= r < 3 && 0 <= c < 3 implies (#[trigger] grid[r][c])
            != Cell::Empty by {
            assert(grid[r][c] == grid[(3 * r + c) / 3][(3 * r + c) % 3]);
        }
    } else {
        if is_full(grid) {
            assert(grid[0][0] != Cell::Empty && grid[0][1] != Cell::Empty && grid[0][2] != Cell::Empty);
            assert(grid[1][0] != Cell::Empty && grid[1][1] != Cell::Empty && grid[1][2] != Cell::Empty);
            assert(grid[2][0] != Cell::Empty && grid[2][1] != Cell::Empty && grid[2][2] != Cell::Empty);
        }
    }
}

/// No game takes more than nine marks: once nine lines have placed a mark,
/// the game is over.
pub proof fn lemma_game_ends(lines: Seq<Seq<char>>)
    ensures
        accepted(lines) <= 9,
        accepted(lines) == 9 ==> run(lines).over is Some,
{
    lemma_run_is_consistent(lines);
    lemma_one_mark_per_accepted_line(lines);
    lemma_full_is_nine_marks(run(lines).grid);
}

} // verus!
