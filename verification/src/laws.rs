//! What holds of every game, however it is played.

use vstd::prelude::*;
use crate::board::{
    cell_index, in_grid, lemma_empty_board_has_no_marks, lemma_mark_adds_one, marks, Cell,
};
use crate::game::{lemma_initial_is_valid, lemma_step_is_valid, Game, GameError};
use crate::player::Player;
use crate::rules::{lemma_verdict_cases, line_owner, Outcome};

verus! {

/// However a valid game is played on, it stays valid.
pub proof fn law_play_keeps_validity(g: Game, moves: Seq<(int, int)>)
    requires
        g.valid(),
    ensures
        g.play(moves).valid(),
    decreases moves.len(),
{
    if moves.len() > 0 {
        law_play_keeps_validity(g, moves.drop_last());
        lemma_step_is_valid(g.play(moves.drop_last()), moves.last().0, moves.last().1);
    }
}

/// Every accepted move adds exactly one mark and no other attempt adds or
/// removes any: after any attempts the grid carries as many more marks as
/// attempts were accepted.
pub proof fn law_marks_count_accepted_moves(g: Game, moves: Seq<(int, int)>)
    requires
        g.valid(),
    ensures
        marks(g.play(moves).cells) == marks(g.cells) + g.accepted(moves),
    decreases moves.len(),
{
    if moves.len() > 0 {
        let before = g.play(moves.drop_last());
        let (row, col) = moves.last();
        law_marks_count_accepted_moves(g, moves.drop_last());
        law_play_keeps_validity(g, moves.drop_last());
        if before.rejection(row, col) is None {
            lemma_mark_adds_one(before.cells, cell_index(row, col), before.current);
        }
    }
}

/// From the start of a game, the marks on the grid are as many as the moves
/// that were accepted.
pub proof fn law_marks_count_moves_from_start(moves: Seq<(int, int)>)
    ensures
        marks(Game::initial().play(moves).cells) == Game::initial().accepted(moves),
{
    lemma_initial_is_valid();
    lemma_empty_board_has_no_marks();
    law_marks_count_accepted_moves(Game::initial(), moves);
}

/// A mark stays: whatever is attempted afterwards, a marked cell is never
/// emptied and never passes to the other player.
pub proof fn law_marks_are_permanent(g: Game, moves: Seq<(int, int)>, i: int)
    requires
        g.valid(),
        0 <= i < 9,
        g.cells[i] != Cell::Empty,
    ensures
        g.play(moves).cells[i] == g.cells[i],
    decreases moves.len(),
{
    if moves.len() > 0 {
        law_marks_are_permanent(g, moves.drop_last(), i);
        law_play_keeps_validity(g, moves.drop_last());
    }
}

/// The turn passes to the other player after an accepted move that does not
/// end the game, and stays where it is after a move that is turned down.
pub proof fn law_turn_alternates(g: Game, row: int, col: int)
    ensures
        g.rejection(row, col) is None && g.step(row, col).outcome == Outcome::InProgress
            ==> g.step(row, col).current == g.current.other(),
        g.rejection(row, col) is Some ==> g.step(row, col).current == g.current,
{
}

/// A move to a marked cell, or to a place outside the grid, is turned down
/// and changes nothing: not the grid, not the outcome, not the turn.
pub proof fn law_rejected_move_changes_nothing(g: Game, row: int, col: int)
    requires
        !in_grid(row, col) || g.cells[cell_index(row, col)] != Cell::Empty,
    ensures
        g.response(row, col) is Err,
        !in_grid(row, col) ==> g.response(row, col) == Err::<Outcome, GameError>(
            GameError::OutOfBounds,
        ),
        in_grid(row, col) && g.outcome == Outcome::InProgress ==> g.response(row, col) == Err::<
            Outcome,
            GameError,
        >(GameError::CellOccupied),
        g.step(row, col) == g,
{
}

/// A move that is turned down once is turned down however often it is
/// repeated, and the game stays as it was.
pub proof fn law_rejection_is_idempotent(g: Game, row: int, col: int, moves: Seq<(int, int)>)
    requires
        g.rejection(row, col) is Some,
        forall|k: int| 0 <= k < moves.len() ==> moves[k] == (row, col),
    ensures
        g.play(moves) == g,
        g.accepted(moves) == 0,
    decreases moves.len(),
{
    if moves.len() > 0 {
        law_rejection_is_idempotent(g, row, col, moves.drop_last());
        assert(moves.last() == (row, col));
    }
}

/// Once a game is won or drawn, a move to any cell of the grid is turned
/// down with `GameAlreadyOver`, and no attempt changes the game.
pub proof fn law_finished_game_rejects_moves(g: Game, row: int, col: int)
    requires
        g.outcome != Outcome::InProgress,
    ensures
        in_grid(row, col) ==> g.response(row, col) == Err::<Outcome, GameError>(
            GameError::GameAlreadyOver,
        ),
        g.response(row, col) is Err,
        g.step(row, col) == g,
{
}

/// Once a game is won or drawn it stays as it is, whatever is attempted.
pub proof fn law_finished_game_is_locked(g: Game, moves: Seq<(int, int)>)
    requires
        g.outcome != Outcome::InProgress,
    ensures
        g.play(moves) == g,
        g.accepted(moves) == 0,
    decreases moves.len(),
{
    if moves.len() > 0 {
        law_finished_game_is_locked(g, moves.drop_last());
    }
}

/// Two players never hold a line at once: in a won game every held line is
/// the winner's.
pub proof fn law_held_lines_are_the_winners(g: Game, k: int, p: Player)
    requires
        g.valid(),
        g.outcome == Outcome::Won(p),
        0 <= k < 8,
        line_owner(g.cells, k) is Some,
    ensures
        line_owner(g.cells, k) == Some(p),
{
    lemma_verdict_cases(g.cells);
}

/// Only the player who has just moved can win.
pub proof fn law_winner_is_the_mover(g: Game, row: int, col: int, p: Player)
    requires
        g.valid(),
        g.rejection(row, col) is None,
        g.step(row, col).outcome == Outcome::Won(p),
    ensures
        p == g.current,
        g.step(row, col).current == p,
{
    lemma_step_is_valid(g, row, col);
}

} // verus!
