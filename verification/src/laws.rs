//! Laws about whole move sequences: how the tail length evolves over any
//! run of the game from its start.

use vstd::prelude::*;

use crate::game::GameModel;
use crate::geometry::Direction;
use crate::moves::{game_after, lemma_move_preserves_wf, move_accepted};

verus! {

/// The game after the whole sequence of requested moves, first to last.
pub open spec fn play(m: GameModel, moves: Seq<Direction>) -> GameModel
    decreases moves.len(),
{
    if moves.len() == 0 {
        m
    } else {
        play(game_after(m, moves[0]), moves.drop_first())
    }
}

/// How many of the requested moves the game accepts along the way.
pub open spec fn accepted_count(m: GameModel, moves: Seq<Direction>) -> nat
    decreases moves.len(),
{
    if moves.len() == 0 {
        0
    } else {
        (if move_accepted(m, moves[0]) {
            1nat
        } else {
            0nat
        }) + accepted_count(game_after(m, moves[0]), moves.drop_first())
    }
}

/// One move changes the tail length to `min(len + 1, max_length - 1)` when
/// accepted and leaves it alone otherwise; the capacity bound never changes.
proof fn lemma_tail_step(m: GameModel, d: Direction)
    requires
        m.wf(),
    ensures
        game_after(m, d).snake.max_length == m.snake.max_length,
        move_accepted(m, d) ==> game_after(m, d).snake.tail.len() == vstd::math::min(
            m.snake.tail.len() + 1 as int,
            m.snake.max_length - 1,
        ),
        !move_accepted(m, d) ==> game_after(m, d).snake.tail.len() == m.snake.tail.len(),
{
}

/// Law: playing any move sequence on a well-formed game leaves it
/// well-formed and grows the tail by exactly the number of accepted moves,
/// up to the capacity bound `max_length - 1`.
pub proof fn lemma_tail_length(m: GameModel, moves: Seq<Direction>)
    requires
        m.wf(),
    ensures
        play(m, moves).wf(),
        play(m, moves).snake.max_length == m.snake.max_length,
        play(m, moves).snake.tail.len() == vstd::math::min(
            m.snake.tail.len() + accepted_count(m, moves) as int,
            m.snake.max_length - 1,
        ),
    decreases moves.len(),
{
    if moves.len() > 0 {
        let m1 = game_after(m, moves[0]);
        lemma_tail_step(m, moves[0]);
        lemma_move_preserves_wf(m, moves[0]);
        lemma_tail_length(m1, moves.drop_first());
    }
}

/// Law: from an empty tail, the tail length after any move sequence is
/// exactly `min(moves accepted, max_length - 1)`.
pub proof fn lemma_tail_length_from_start(m: GameModel, moves: Seq<Direction>)
    requires
        m.wf(),
        m.snake.tail.len() == 0,
    ensures
        play(m, moves).snake.tail.len() == vstd::math::min(
            accepted_count(m, moves) as int,
            m.snake.max_length - 1,
        ),
{
    lemma_tail_length(m, moves);
}

} // verus!
