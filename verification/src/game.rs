//! A game in play: the grid, whose turn it is, and how the game stands.

use vstd::prelude::*;
use crate::board::{
    cell_index, empty_board, in_grid, index_of, lemma_empty_board_has_no_marks,
    lemma_mark_adds_one, marks, marks_of, Cell,
};
use crate::player::Player;
use crate::rules::{
    evaluate, first_owned_line, lemma_no_winner_iff_no_owned_line, line_cells, line_owner,
    verdict, winner, Outcome,
};

verus! {

/// Why a move or a query was turned down.
#[derive(Clone, Copy, Debug, PartialEq, Eq, Hash, Structural)]
pub enum GameError {
    /// The row or the column is not 0, 1 or 2.
    OutOfBounds,
    /// The game has been won or drawn.
    GameAlreadyOver,
    /// The cell carries a mark already.
    CellOccupied,
}

/// The mathematical model of a game: the cells in row-major order, the
/// player to move and the outcome so far.
pub struct Game {
    pub cells: Seq<Cell>,
    pub current: Player,
    pub outcome: Outcome,
}

impl Game {
    /// The game before the first move: an empty grid, the first player to
    /// move, nothing decided.
    pub open spec fn initial() -> Game {
        Game { cells: empty_board(), current: Player::First, outcome: Outcome::InProgress }
    }

    /// Why the move to `(row, col)` is turned down, if it is. The grid's
    /// bounds are looked at first, then whether the game is over, then the
    /// cell itself.
    pub open spec fn rejection(self, row: int, col: int) -> Option<GameError> {
        if !in_grid(row, col) {
            Some(GameError::OutOfBounds)
        } else if self.outcome != Outcome::InProgress {
            Some(GameError::GameAlreadyOver)
        } else if self.cells[cell_index(row, col)] != Cell::Empty {
            Some(GameError::CellOccupied)
        } else {
            None
        }
    }

    /// The game after the player to move has marked `(row, col)`: the cell
    /// carries that player's mark, the outcome is the verdict on the new
    /// grid, and the turn passes on unless the game has ended.
    pub open spec fn with_mark(self, row: int, col: int) -> Game {
        let cells = self.cells.update(cell_index(row, col), Cell::Marked(self.current));
        let outcome = verdict(cells);
        Game {
            cells,
            current: if outcome == Outcome::InProgress {
                self.current.other()
            } else {
                self.current
            },
            outcome,
        }
    }

    /// The game after an attempt to move to `(row, col)`: unchanged when the
    /// move is turned down.
    pub open spec fn step(self, row: int, col: int) -> Game {
        if self.rejection(row, col) is None {
            self.with_mark(row, col)
        } else {
            self
        }
    }

    /// What an attempt to move to `(row, col)` reports: the new outcome, or
    /// the reason for turning the move down.
    pub open spec fn response(self, row: int, col: int) -> Result<Outcome, GameError> {
        match self.rejection(row, col) {
            Some(e) => Err(e),
            None => Ok(self.with_mark(row, col).outcome),
        }
    }

    /// The game after the attempts `moves`, made in order.
    pub open spec fn play(self, moves: Seq<(int, int)>) -> Game
        decreases moves.len(),
    {
        if moves.len() == 0 {
            self
        } else {
            self.play(moves.drop_last()).step(moves.last().0, moves.last().1)
        }
    }

    /// How many of the attempts `moves`, made in order, are accepted.
    pub open spec fn accepted(self, moves: Seq<(int, int)>) -> nat
        decreases moves.len(),
    {
        if moves.len() == 0 {
            0
        } else {
            let before = self.play(moves.drop_last());
            let last: nat = if before.rejection(moves.last().0, moves.last().1) is None {
                1
            } else {
                0
            };
            self.accepted(moves.drop_last()) + last
        }
    }

    /// The line shown above the grid: whose turn it is, who has won, or that
    /// the game is drawn.
    pub open spec fn banner(self) -> Seq<char> {
        match self.outcome {
            Outcome::InProgress => match self.current {
                Player::First => "Player 1's Turn (X)"@,
                Player::Second => "Player 2's Turn (O)"@,
            },
            Outcome::Won(Player::First) => "X wins!"@,
            Outcome::Won(Player::Second) => "O wins!"@,
            Outcome::Drawn => "It's a draw!"@,
        }
    }

    /// What holds of every game that play can reach.
    ///
    /// The grid has nine cells and the outcome is the verdict on it. All held
    /// lines belong to one player, and a winner is the current player. The
    /// first player has made as many marks as the second, or one more. While
    /// the game goes on, the player with fewer marks moves, the first player
    /// on a tie; once it has ended, the player who made the last mark is
    /// still the current one.
    pub open spec fn valid(self) -> bool {
        let first = marks_of(self.cells, Player::First);
        let second = marks_of(self.cells, Player::Second);
        &&& self.cells.len() == 9
        &&& self.outcome == verdict(self.cells)
        &&& (forall|j: int, k: int|
            0 <= j < 8 && 0 <= k < 8 && line_owner(self.cells, j) is Some && line_owner(
                self.cells,
                k,
            ) is Some ==> line_owner(self.cells, j) == line_owner(self.cells, k))
        &&& (self.outcome matches Outcome::Won(p) ==> p == self.current)
        &&& (first == second || first == second + 1)
        &&& (self.current == Player::First) == ((first == second) == (self.outcome
            == Outcome::InProgress))
    }
}

/// The game before the first move is valid.
pub proof fn lemma_initial_is_valid()
    ensures
        Game::initial().valid(),
{
    let cells = empty_board();
    lemma_empty_board_has_no_marks();
    assert forall|k: int| 0 <= k < 8 implies line_owner(cells, k) is None by {
        assert(cells[line_cells(k).0] == Cell::Empty);
    }
    lemma_no_winner_iff_no_owned_line(cells);
}

/// After an accepted move every held line belongs to the player who moved.
pub proof fn lemma_held_lines_belong_to_mover(g: Game, row: int, col: int, k: int)
    requires
        g.valid(),
        g.rejection(row, col) is None,
        0 <= k < 8,
        line_owner(g.with_mark(row, col).cells, k) is Some,
    ensures
        line_owner(g.with_mark(row, col).cells, k) == Some(g.current),
{
    lemma_no_winner_iff_no_owned_line(g.cells);
    assert(line_owner(g.cells, k) is None);
}

/// A move, accepted or not, leads from a valid game to a valid game.
pub proof fn lemma_step_is_valid(g: Game, row: int, col: int)
    requires
        g.valid(),
    ensures
        g.step(row, col).valid(),
{
    if g.rejection(row, col) is None {
        let next = g.with_mark(row, col);
        assert forall|j: int, k: int|
            0 <= j < 8 && 0 <= k < 8 && line_owner(next.cells, j) is Some && line_owner(
                next.cells,
                k,
            ) is Some implies line_owner(next.cells, j) == line_owner(next.cells, k) by {
            lemma_held_lines_belong_to_mover(g, row, col, j);
            lemma_held_lines_belong_to_mover(g, row, col, k);
        }
        if winner(next.cells) is Some {
            let k = choose|k: int| first_owned_line(next.cells, k);
            lemma_held_lines_belong_to_mover(g, row, col, k);
        }
        lemma_mark_adds_one(g.cells, cell_index(row, col), g.current);
    }
}

/// A game of noughts and crosses.
///
/// A game starts with [`GameState::create`] and is changed by
/// [`GameState::attempt_move`] alone, so every value of this type is a valid
/// game: see [`Game::valid`].
#[derive(Clone, Copy, Debug, PartialEq, Eq)]
pub struct GameState {
    board: [Cell; 9],
    current: Player,
    outcome: Outcome,
}

impl View for GameState {
    type V = Game;

    closed spec fn view(&self) -> Game {
        Game { cells: self.board@, current: self.current, outcome: self.outcome }
    }
}

impl GameState {
    /// Every game that exists is valid.
    #[verifier::type_invariant]
    pub open spec fn well_formed(&self) -> bool {
        self@.valid()
    }

    /// Starts a game: the grid is empty and the first player is to move.
    pub fn create() -> (g: GameState)
        ensures
            g@ == Game::initial(),
    {
        let board = [Cell::Empty; 9];
        proof {
            assert(board@ =~= empty_board());
            lemma_initial_is_valid();
        }
        GameState { board, current: Player::First, outcome: Outcome::InProgress }
    }

    /// Lets the player to move mark the cell `(row, col)`.
    ///
    /// The move is turned down, and the game left as it is, when `row` or
    /// `col` is not 0, 1 or 2 (`OutOfBounds`), else when the game is over
    /// (`GameAlreadyOver`), else when the cell carries a mark
    /// (`CellOccupied`). Otherwise the cell gets the player's mark and the
    /// new outcome is returned: the player has won with a held line, the
    /// game is drawn on a full grid without one, and in any other case the
    /// turn passes to the other player.
    pub fn attempt_move(&mut self, row: usize, col: usize) -> (r: Result<Outcome, GameError>)
        ensures
            final(self)@ == old(self)@.step(row as int, col as int),
            r == old(self)@.response(row as int, col as int),
            r is Err ==> final(self)@ == old(self)@,
            r matches Ok(o) ==> o == final(self)@.outcome,
            r is Ok ==> marks(final(self)@.cells) == marks(old(self)@.cells) + 1,
            r is Ok && final(self)@.outcome == Outcome::InProgress ==> final(self)@.current == old(
                self,
            )@.current.other(),
            old(self)@.outcome != Outcome::InProgress ==> r is Err,
            forall|i: int|
                0 <= i < 9 && old(self)@.cells[i] != Cell::Empty ==> final(self)@.cells[i] == old(
                    self,
                )@.cells[i],
    {
        proof {
            use_type_invariant(&*self);
            lemma_step_is_valid(self@, row as int, col as int);
            if self@.rejection(row as int, col as int) is None {
                lemma_mark_adds_one(
                    self@.cells,
                    cell_index(row as int, col as int),
                    self@.current,
                );
            }
        }
        let i = match index_of(row, col) {
            Some(i) => i,
            None => {
                return Err(GameError::OutOfBounds);
            },
        };
        if self.outcome != Outcome::InProgress {
            return Err(GameError::GameAlreadyOver);
        }
        if self.board[i] != Cell::Empty {
            return Err(GameError::CellOccupied);
        }
        let mut board = self.board;
        board[i] = Cell::Marked(self.current);
        let outcome = evaluate(&board);
        let current = if outcome == Outcome::InProgress {
            self.current.opponent()
        } else {
            self.current
        };
        *self = GameState { board, current, outcome };
        Ok(outcome)
    }

    /// Returns the player to move. Once the game is over this is the player
    /// who made the last mark.
    pub fn current_player(&self) -> (p: Player)
        ensures
            p == self@.current,
    {
        self.current
    }

    /// Returns what the cell `(row, col)` holds, or `OutOfBounds` when `row`
    /// or `col` is not 0, 1 or 2.
    pub fn cell_at(&self, row: usize, col: usize) -> (r: Result<Cell, GameError>)
        ensures
            r == (if in_grid(row as int, col as int) {
                Ok::<Cell, GameError>(self@.cells[cell_index(row as int, col as int)])
            } else {
                Err(GameError::OutOfBounds)
            }),
    {
        match index_of(row, col) {
            Some(i) => Ok(self.board[i]),
            None => Err(GameError::OutOfBounds),
        }
    }

    /// Returns how the game stands.
    pub fn outcome(&self) -> (o: Outcome)
        ensures
            o == self@.outcome,
    {
        self.outcome
    }

    /// Returns the line to show above the grid: "Player 1's Turn (X)" or
    /// "Player 2's Turn (O)" while the game goes on, "X wins!" or "O wins!"
    /// once it is won, "It's a draw!" once it is drawn.
    pub fn status_line(&self) -> (s: String)
        ensures
            s@ == self@.banner(),
    {
        match self.outcome {
            Outcome::InProgress => match self.current {
                Player::First => "Player 1's Turn (X)".to_owned(),
                Player::Second => "Player 2's Turn (O)".to_owned(),
            },
            Outcome::Won(Player::First) => "X wins!".to_owned(),
            Outcome::Won(Player::Second) => "O wins!".to_owned(),
            Outcome::Drawn => "It's a draw!".to_owned(),
        }
    }

    /// Returns the grid in row-major order.
    pub fn board(&self) -> (b: [Cell; 9])
        ensures
            b@ == self@.cells,
    {
        self.board
    }
}

} // verus!
