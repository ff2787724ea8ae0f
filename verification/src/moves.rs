//! The per-move transition: validate the requested step against obstacle
//! resolution, commit or reject it, advance every tower once per accepted
//! move, and re-evaluate the terminal conditions, goals before beams.

use vstd::prelude::*;

use crate::beam::{any_beam_hits, beam_failure};
use crate::game::{Game, GameModel, Progress};
use crate::geometry::{delta_x, delta_y, Direction, Position};
use crate::snake::SnakeModel;
use crate::tower::{update_tower, Tower};

verus! {

/// Horizontal coordinate of the cell the snake is asked to move onto.
pub open spec fn target_x(m: GameModel, d: Direction) -> int {
    m.snake.head.x + delta_x(d)
}

/// Vertical coordinate of the cell the snake is asked to move onto.
pub open spec fn target_y(m: GameModel, d: Direction) -> int {
    m.snake.head.y + delta_y(d)
}

/// The cell the snake is asked to move onto. Meaningful whenever the head
/// lies strictly inside the boundaries, as well-formedness guarantees.
pub open spec fn target_pos(m: GameModel, d: Direction) -> Position {
    Position { x: target_x(m, d) as i32, y: target_y(m, d) as i32 }
}

/// Whether the game accepts a move in direction `d`: it is still running
/// and the target cell is free of every obstacle.
pub open spec fn move_accepted(m: GameModel, d: Direction) -> bool {
    m.progress is Running && m.classify_at(target_x(m, d), target_y(m, d)) is None
}

/// Every tower advanced by one state machine step.
pub open spec fn stepped_towers(ts: Seq<Tower>) -> Seq<Tower> {
    ts.map_values(|t: Tower| t.stepped())
}

/// The game after an accepted move: the snake commits the step, every tower
/// advances once, and the terminal conditions are re-evaluated — reaching a
/// goal wins before any beam of the advanced towers can fail the game.
pub open spec fn after_accepted(m: GameModel, d: Direction) -> GameModel {
    let moved = GameModel {
        snake: m.snake.advanced(target_pos(m, d), d),
        towers: stepped_towers(m.towers),
        ..m
    };
    let progress = if m.goal_at(target_x(m, d), target_y(m, d)) {
        Progress::Victory
    } else if beam_failure(moved) {
        Progress::Failure
    } else {
        Progress::Running
    };
    GameModel { progress, ..moved }
}

/// The game one transition later. A finished game ignores input; a rejected
/// move only turns the snake in place; an accepted move runs the full step.
pub open spec fn game_after(m: GameModel, d: Direction) -> GameModel {
    if !(m.progress is Running) {
        m
    } else if m.classify_at(target_x(m, d), target_y(m, d)) is Some {
        GameModel { snake: SnakeModel { direction: d, ..m.snake }, ..m }
    } else {
        after_accepted(m, d)
    }
}

/// Advance every tower of the list by one state machine step.
fn step_all_towers(towers: &Vec<Tower>) -> (r: Vec<Tower>)
    requires
        forall|i: int| 0 <= i < towers@.len() ==> (#[trigger] towers@[i]).wf(),
    ensures
        r@ == stepped_towers(towers@),
{
    let mut r: Vec<Tower> = Vec::new();
    let mut i: usize = 0;
    while i < towers.len()
        invariant
            0 <= i <= towers@.len(),
            r@.len() == i,
            forall|j: int| 0 <= j < towers@.len() ==> (#[trigger] towers@[j]).wf(),
            forall|j: int| 0 <= j < i ==> r@[j] == (#[trigger] towers@[j]).stepped(),
        decreases towers@.len() - i,
    {
        r.push(update_tower(&towers[i]));
        i = i + 1;
    }
    proof {
        assert(r@ =~= stepped_towers(towers@));
    }
    r
}

/// Every move keeps the game well-formed; in particular the tail never
/// exceeds `max_length - 1` cells, whether the move is accepted or not.
pub proof fn lemma_move_preserves_wf(m: GameModel, d: Direction)
    requires
        m.wf(),
    ensures
        game_after(m, d).wf(),
{
    if m.progress is Running && m.classify_at(target_x(m, d), target_y(m, d)) is None {
        let g = after_accepted(m, d);
        let tx = target_x(m, d);
        let ty = target_y(m, d);
        assert(m.boundaries.inside(tx, ty));
        assert(g.snake.head.at(tx, ty));
        let full = seq![m.snake.head] + m.snake.tail;
        assert forall|j: int| 0 <= j < g.snake.tail.len() implies !(#[trigger] g.snake.tail[j]).at(
            tx,
            ty,
        ) by {
            assert(g.snake.tail[j] == full[j]);
            if j > 0 {
                assert(m.snake.tail[j - 1] == full[j]);
                assert(!crate::geometry::occupies(m.snake.tail, tx, ty));
            }
        }
        assert forall|i: int| 0 <= i < g.towers.len() implies (#[trigger] g.towers[i]).wf() by {
            assert(g.towers[i] == m.towers[i].stepped());
            crate::tower::lemma_stepped_wf(m.towers[i]);
        }
        assert(!crate::game::tower_at(g.towers, tx, ty)) by {
            if crate::game::tower_at(g.towers, tx, ty) {
                let i = choose|i: int|
                    0 <= i < g.towers.len() && (#[trigger] g.towers[i]).position.at(tx, ty);
                assert(m.towers[i].position.at(tx, ty));
                assert(crate::game::tower_at(m.towers, tx, ty));
            }
        }
    }
}

/// Ask the game to move the snake one cell in `requested_direction`.
///
/// A finished game returns unchanged. A rejected move — any obstacle on the
/// target cell — leaves head, tail, towers and progress as they were and
/// only turns the snake to face the requested direction. An accepted move
/// commits the new head, pushes the old head onto the tail and trims it,
/// advances every tower by one step, and then settles the outcome: a goal
/// cell under the new head wins, else a firing tower's beam reaching the
/// snake loses, else the game keeps running.
pub fn attempt_move(game: Game, requested_direction: Direction) -> (r: Game)
    requires
        game.wf(),
    ensures
        r@ == game_after(game@, requested_direction),
        r.wf(),
        !(game@.progress is Running) ==> r@ == game@,
        game@.progress is Running && game@.classify_at(
            target_x(game@, requested_direction),
            target_y(game@, requested_direction),
        ) is Some ==> {
            &&& r@.snake.head == game@.snake.head
            &&& r@.snake.tail == game@.snake.tail
            &&& r@.snake.direction == requested_direction
            &&& r@.towers == game@.towers
            &&& r@.progress == game@.progress
        },
        move_accepted(game@, requested_direction) && game@.goal_at(
            target_x(game@, requested_direction),
            target_y(game@, requested_direction),
        ) ==> r@.progress is Victory,
{
    let ghost m = game@;
    let ghost d = requested_direction;
    match game.progress {
        Progress::Running => {},
        _ => {
            return game;
        },
    }
    let new_head = game.snake.head.step(requested_direction);
    proof {
        assert(new_head == target_pos(m, d));
    }
    match crate::game::classify(&game, &new_head) {
        Some(_) => {
            let mut g = game;
            g.snake.direction = requested_direction;
            proof {
                assert(g@ =~= game_after(m, d));
                lemma_move_preserves_wf(m, d);
            }
            g
        },
        None => {
            let new_snake = crate::snake::advance_snake(&game.snake, new_head, requested_direction);
            let new_towers = step_all_towers(&game.towers);
            let mut g = Game {
                progress: Progress::Running,
                snake: new_snake,
                towers: new_towers,
                blocks: game.blocks,
                goals: game.goals,
                boundaries: game.boundaries,
            };
            let ghost moved = GameModel {
                snake: m.snake.advanced(target_pos(m, d), d),
                towers: stepped_towers(m.towers),
                ..m
            };
            proof {
                assert(g@ =~= moved);
            }
            if crate::geometry::find_pos(&g.goals, new_head) {
                g.progress = Progress::Victory;
            } else if any_beam_hits(&g) {
                g.progress = Progress::Failure;
            }
            proof {
                assert(g@ =~= after_accepted(m, d));
                lemma_move_preserves_wf(m, d);
            }
            g
        },
    }
}

} // verus!
