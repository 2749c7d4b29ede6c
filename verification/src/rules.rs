//! Who has won: the eight lines of the grid and the verdict on a position.

use vstd::prelude::*;
use crate::board::{is_full, Cell, CELLS};
use crate::player::Player;

verus! {

/// Where a game stands.
#[derive(Clone, Copy, Debug, PartialEq, Eq, Hash, Structural)]
pub enum Outcome {
    /// Nobody has won and a cell is still empty.
    InProgress,
    /// The player holds a whole line.
    Won(Player),
    /// The grid is full and nobody holds a line.
    Drawn,
}

/// Number of lines of three: three rows, three columns, two diagonals.
pub const LINES: usize = 8;

/// The row-major places of the three cells of line `k`. Lines 0 to 2 are the
/// rows from the top, lines 3 to 5 the columns from the left, line 6 runs
/// from the top left corner to the bottom right one, line 7 from the top
/// right corner to the bottom left one.
pub open spec fn line_cells(k: int) -> (int, int, int) {
    if k < 3 {
        (3 * k, 3 * k + 1, 3 * k + 2)
    } else if k < 6 {
        (k - 3, k, k + 3)
    } else if k == 6 {
        (0, 4, 8)
    } else {
        (2, 4, 6)
    }
}

/// The player whose mark is on all three cells of line `k`, if there is one.
pub open spec fn line_owner(cells: Seq<Cell>, k: int) -> Option<Player> {
    let (a, b, c) = line_cells(k);
    match cells[a] {
        Cell::Marked(p) => if cells[b] == cells[a] && cells[c] == cells[a] {
            Some(p)
        } else {
            None
        },
        Cell::Empty => None,
    }
}

/// Whether line `k` has an owner and no line before it has one.
pub open spec fn first_owned_line(cells: Seq<Cell>, k: int) -> bool {
    &&& 0 <= k < 8
    &&& line_owner(cells, k) is Some
    &&& forall|j: int| 0 <= j < k ==> line_owner(cells, j) is None
}

/// The owner of the first line that has one. The lines are taken in the
/// order of [`line_cells`], which matters only on grids that no game
/// reaches, where both players hold a line.
pub open spec fn winner(cells: Seq<Cell>) -> Option<Player> {
    if exists|k: int| first_owned_line(cells, k) {
        line_owner(cells, choose|k: int| first_owned_line(cells, k))
    } else {
        None
    }
}

/// The verdict on a grid: a held line wins, even on a full grid; a full grid
/// without one is a draw; anything else goes on.
pub open spec fn verdict(cells: Seq<Cell>) -> Outcome {
    match winner(cells) {
        Some(p) => Outcome::Won(p),
        None => if is_full(cells) {
            Outcome::Drawn
        } else {
            Outcome::InProgress
        },
    }
}

/// The first owned line decides the winner.
pub proof fn lemma_first_owned_line_wins(cells: Seq<Cell>, k: int)
    requires
        first_owned_line(cells, k),
    ensures
        winner(cells) == line_owner(cells, k),
{
    let chosen = choose|j: int| first_owned_line(cells, j);
    assert(first_owned_line(cells, chosen));
    if chosen < k {
        assert(line_owner(cells, chosen) is None);
    } else if k < chosen {
        assert(line_owner(cells, k) is None);
    }
}

/// Without an owned line there is no winner, and the other way round.
pub proof fn lemma_no_winner_iff_no_owned_line(cells: Seq<Cell>)
    ensures
        winner(cells) is None <==> forall|k: int| 0 <= k < 8 ==> line_owner(cells, k) is None,
{
    if exists|k: int| 0 <= k < 8 && line_owner(cells, k) is Some {
        let k = choose|k: int| 0 <= k < 8 && line_owner(cells, k) is Some;
        let first = least_owned_line(cells, k);
        lemma_first_owned_line_wins(cells, first);
    }
}

/// The least owned line at or before an owned line `k`.
proof fn least_owned_line(cells: Seq<Cell>, k: int) -> (first: int)
    requires
        0 <= k < 8,
        line_owner(cells, k) is Some,
    ensures
        first_owned_line(cells, first),
        first <= k,
    decreases k,
{
    if exists|j: int| 0 <= j < k && line_owner(cells, j) is Some {
        let j = choose|j: int| 0 <= j < k && line_owner(cells, j) is Some;
        least_owned_line(cells, j)
    } else {
        k
    }
}

/// What each verdict says of the grid.
pub proof fn lemma_verdict_cases(cells: Seq<Cell>)
    ensures
        match verdict(cells) {
            Outcome::Won(p) => exists|k: int|
                first_owned_line(cells, k) && line_owner(cells, k) == Some(p),
            Outcome::Drawn => is_full(cells) && forall|k: int|
                0 <= k < 8 ==> line_owner(cells, k) is None,
            Outcome::InProgress => !is_full(cells) && forall|k: int|
                0 <= k < 8 ==> line_owner(cells, k) is None,
        },
{
    lemma_no_winner_iff_no_owned_line(cells);
    if winner(cells) is Some {
        let k = choose|k: int| first_owned_line(cells, k);
        assert(first_owned_line(cells, k) && line_owner(cells, k) == winner(cells));
    }
}

/// Returns the places of the three cells of line `k`.
fn line(k: usize) -> (r: (usize, usize, usize))
    requires
        k < 8,
    ensures
        (r.0 as int, r.1 as int, r.2 as int) == line_cells(k as int),
        r.0 < 9 && r.1 < 9 && r.2 < 9,
{
    if k < 3 {
        (3 * k, 3 * k + 1, 3 * k + 2)
    } else if k < 6 {
        (k - 3, k, k + 3)
    } else if k == 6 {
        (0, 4, 8)
    } else {
        (2, 4, 6)
    }
}

/// Returns the player who holds all of line `k`, if one does.
fn owner_of_line(board: &[Cell; 9], k: usize) -> (r: Option<Player>)
    requires
        k < 8,
    ensures
        r == line_owner(board@, k as int),
{
    let (a, b, c) = line(k);
    match board[a] {
        Cell::Marked(p) => {
            if board[b] == board[a] && board[c] == board[a] {
                Some(p)
            } else {
                None
            }
        },
        Cell::Empty => None,
    }
}

/// Returns whether every cell of `board` carries a mark.
fn board_is_full(board: &[Cell; 9]) -> (full: bool)
    ensures
        full == is_full(board@),
{
    let mut i: usize = 0;
    while i < CELLS
        invariant
            0 <= i <= 9,
            forall|j: int| 0 <= j < i ==> board@[j] != Cell::Empty,
        decreases 9 - i,
    {
        if board[i] == Cell::Empty {
            return false;
        }
        i += 1;
    }
    true
}

/// Judges a grid, given in row-major order: the owner of the first held line
/// has won; failing that a full grid is drawn; failing that the game goes on.
pub fn evaluate(board: &[Cell; 9]) -> (o: Outcome)
    ensures
        o == verdict(board@),
{
    let mut k: usize = 0;
    while k < LINES
        invariant
            0 <= k <= 8,
            forall|j: int| 0 <= j < k ==> line_owner(board@, j) is None,
        decreases 8 - k,
    {
        match owner_of_line(board, k) {
            Some(p) => {
                proof {
                    lemma_first_owned_line_wins(board@, k as int);
                }
                return Outcome::Won(p);
            },
            None => {},
        }
        k += 1;
    }
    proof {
        lemma_no_winner_iff_no_owned_line(board@);
    }
    if board_is_full(board) {
        Outcome::Drawn
    } else {
        Outcome::InProgress
    }
}

} // verus!
