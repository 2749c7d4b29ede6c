//! The grid: nine cells in row-major order, and how many marks they hold.

use vstd::prelude::*;
use vstd::seq_lib::*;
use vstd::multiset::*;
use crate::player::Player;

verus! {

/// What one position of the grid holds.
#[derive(Clone, Copy, Debug, PartialEq, Eq, Hash, Structural)]
pub enum Cell {
    Empty,
    Marked(Player),
}

/// Number of rows, and of columns.
pub const SIDE: usize = 3;

/// Number of cells in the grid.
pub const CELLS: usize = 9;

/// Whether `(row, col)` names a cell of the grid.
pub open spec fn in_grid(row: int, col: int) -> bool {
    0 <= row < 3 && 0 <= col < 3
}

/// Place of the cell `(row, col)` in row-major order.
pub open spec fn cell_index(row: int, col: int) -> int {
    3 * row + col
}

/// The grid before the first move.
pub open spec fn empty_board() -> Seq<Cell> {
    Seq::new(9, |i: int| Cell::Empty)
}

/// Whether no cell is left to mark.
pub open spec fn is_full(cells: Seq<Cell>) -> bool {
    forall|i: int| 0 <= i < cells.len() ==> cells[i] != Cell::Empty
}

/// Number of cells that carry the mark of `p`.
pub open spec fn marks_of(cells: Seq<Cell>, p: Player) -> nat {
    cells.to_multiset().count(Cell::Marked(p))
}

/// Number of cells that carry a mark.
pub open spec fn marks(cells: Seq<Cell>) -> nat {
    marks_of(cells, Player::First) + marks_of(cells, Player::Second)
}

/// The empty grid carries no mark.
pub proof fn lemma_empty_board_has_no_marks()
    ensures
        empty_board().len() == 9,
        marks_of(empty_board(), Player::First) == 0,
        marks_of(empty_board(), Player::Second) == 0,
        marks(empty_board()) == 0,
        !is_full(empty_board()),
{
    let cells = empty_board();
    to_multiset_contains(cells, Cell::Marked(Player::First));
    to_multiset_contains(cells, Cell::Marked(Player::Second));
    assert(cells[0] == Cell::Empty);
}

/// Marking an empty cell for `p` gives `p` one more mark and leaves the
/// other side's count alone.
pub proof fn lemma_mark_adds_one(cells: Seq<Cell>, i: int, p: Player)
    requires
        0 <= i < cells.len(),
        cells[i] == Cell::Empty,
    ensures
        marks_of(cells.update(i, Cell::Marked(p)), p) == marks_of(cells, p) + 1,
        marks_of(cells.update(i, Cell::Marked(p)), p.other()) == marks_of(cells, p.other()),
        marks(cells.update(i, Cell::Marked(p))) == marks(cells) + 1,
{
    broadcast use group_multiset_axioms;

    to_multiset_update(cells, i, Cell::Marked(p));
}

/// Returns the row-major place of `(row, col)`, or `None` when the pair
/// names no cell.
pub fn index_of(row: usize, col: usize) -> (r: Option<usize>)
    ensures
        r == (if in_grid(row as int, col as int) {
            Some(cell_index(row as int, col as int) as usize)
        } else {
            None
        }),
{
    if row < SIDE && col < SIDE {
        Some(SIDE * row + col)
    } else {
        None
    }
}

} // verus!
