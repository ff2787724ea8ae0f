//! Beam resolution: the ray of cells a firing tower threatens. The beam
//! starts one cell beyond the tower, runs along its facing direction for up
//! to `range` cells, passes through free cells, fails the game on the first
//! snake cell, and is absorbed by the first other obstruction.

use vstd::prelude::*;

use crate::game::{Game, GameModel, Obstacle};
use crate::geometry::{delta_x, delta_y, Position};
use crate::tower::Tower;

verus! {

/// Horizontal coordinate of the beam cell at ray distance `d`.
pub open spec fn beam_x(t: Tower, d: int) -> int {
    t.position.x + d * delta_x(t.direction)
}

/// Vertical coordinate of the beam cell at ray distance `d`.
pub open spec fn beam_y(t: Tower, d: int) -> int {
    t.position.y + d * delta_y(t.direction)
}

/// Whether the beam of `t`, scanned from ray distance `d` on, reaches a
/// snake cell before it is absorbed or runs out of range.
pub open spec fn beam_hits_from(m: GameModel, t: Tower, d: int) -> bool
    decreases t.range + 1 - d,
{
    if d < 1 || d > t.range {
        false
    } else {
        match m.classify_at(beam_x(t, d), beam_y(t, d)) {
            Some(Obstacle::Snake) => true,
            Some(_) => false,
            None => beam_hits_from(m, t, d + 1),
        }
    }
}

/// Whether the beam of `t` reaches a snake cell.
pub open spec fn beam_hits(m: GameModel, t: Tower) -> bool {
    beam_hits_from(m, t, 1)
}

/// How many free cells the beam crosses from ray distance `d` on, before
/// its first obstruction or the end of its range.
pub open spec fn beam_free_len_from(m: GameModel, t: Tower, d: int) -> nat
    decreases t.range + 1 - d,
{
    if d < 1 || d > t.range {
        0
    } else if m.classify_at(beam_x(t, d), beam_y(t, d)) is None {
        1 + beam_free_len_from(m, t, d + 1)
    } else {
        0
    }
}

/// The number of free cells the beam crosses before its first obstruction.
pub open spec fn beam_free_len(m: GameModel, t: Tower) -> nat {
    beam_free_len_from(m, t, 1)
}

/// Whether some firing tower's beam reaches the snake, which fails the game.
pub open spec fn beam_failure(m: GameModel) -> bool {
    exists|i: int|
        0 <= i < m.towers.len() && (#[trigger] m.towers[i]).state is Firing && beam_hits(
            m,
            m.towers[i],
        )
}

/// Coordinates outside the `i32` lattice hold no tower, no snake cell and no
/// free ground, so the beam is absorbed there like on any wall cell.
proof fn lemma_off_lattice_blocked(m: GameModel, x: int, y: int)
    requires
        x < i32::MIN || x > i32::MAX || y < i32::MIN || y > i32::MAX,
    ensures
        m.classify_at(x, y) == Some(Obstacle::Block),
{
    assert(!crate::game::tower_at(m.towers, x, y));
    assert(!m.snake.head.at(x, y));
    assert(!crate::geometry::occupies(m.snake.tail, x, y));
    assert(!m.boundaries.inside(x, y));
}

/// Whether the beam of tower `t` reaches a cell of the snake's body before
/// it is absorbed or runs out of range.
pub fn beam_hits_snake(game: &Game, t: &Tower) -> (r: bool)
    ensures
        r == beam_hits(game@, *t),
{
    let (dx, dy) = t.direction.offset();
    let mut d: u16 = 1;
    while d <= t.range as u16
        invariant
            1 <= d <= t.range + 1,
            dx == delta_x(t.direction),
            dy == delta_y(t.direction),
            beam_hits(game@, *t) == beam_hits_from(game@, *t, d as int),
        decreases t.range + 1 - d as int,
    {
        let cx: i64 = t.position.x as i64 + (d as i64) * (dx as i64);
        let cy: i64 = t.position.y as i64 + (d as i64) * (dy as i64);
        assert(cx == beam_x(*t, d as int) && cy == beam_y(*t, d as int));
        if cx < i32::MIN as i64 || cx > i32::MAX as i64 || cy < i32::MIN as i64 || cy
            > i32::MAX as i64 {
            proof {
                lemma_off_lattice_blocked(game@, cx as int, cy as int);
            }
            return false;
        }
        let cell = Position { x: cx as i32, y: cy as i32 };
        match crate::game::classify(game, &cell) {
            Some(Obstacle::Snake) => {
                return true;
            },
            Some(_) => {
                return false;
            },
            None => {},
        }
        d = d + 1;
    }
    false
}

/// The first `beam_free_len_from(m, t, d)` ray cells from `d` on are free,
/// and the cell right after them, if still in range, is obstructed.
proof fn lemma_free_prefix(m: GameModel, t: Tower, d: int)
    requires
        1 <= d,
    ensures
        forall|e: int|
            d <= e < d + beam_free_len_from(m, t, d) ==> m.classify_at(
                beam_x(t, e),
                beam_y(t, e),
            ) is None,
        d + beam_free_len_from(m, t, d) <= t.range ==> !(m.classify_at(
            beam_x(t, d + beam_free_len_from(m, t, d)),
            beam_y(t, d + beam_free_len_from(m, t, d)),
        ) is None),
    decreases t.range + 1 - d,
{
    if d <= t.range && m.classify_at(beam_x(t, d), beam_y(t, d)) is None {
        lemma_free_prefix(m, t, d + 1);
    }
}

/// Whether any firing tower's beam currently reaches the snake.
pub fn any_beam_hits(game: &Game) -> (r: bool)
    ensures
        r == beam_failure(game@),
{
    let mut i: usize = 0;
    while i < game.towers.len()
        invariant
            0 <= i <= game.towers@.len(),
            forall|j: int|
                0 <= j < i ==> !((#[trigger] game.towers@[j]).state is Firing && beam_hits(
                    game@,
                    game.towers@[j],
                )),
        decreases game.towers@.len() - i,
    {
        let t = game.towers[i];
        match t.state {
            crate::tower::TowerState::Firing => {
                if beam_hits_snake(game, &t) {
                    assert(game.towers@[i as int].state is Firing && beam_hits(
                        game@,
                        game.towers@[i as int],
                    ));
                    return true;
                }
            },
            _ => {},
        }
        i = i + 1;
    }
    false
}

/// The free cells the beam of `t` crosses, in ray order, up to its first
/// obstruction: the cells a renderer paints for a firing tower.
pub fn beam_cells(game: &Game, t: &Tower) -> (cells: Vec<Position>)
    ensures
        cells@.len() == beam_free_len(game@, *t),
        forall|i: int|
            0 <= i < cells@.len() ==> (#[trigger] cells@[i]).at(
                beam_x(*t, i + 1),
                beam_y(*t, i + 1),
            ),
        forall|e: int|
            1 <= e <= cells@.len() ==> game@.classify_at(
                #[trigger] beam_x(*t, e),
                beam_y(*t, e),
            ) is None,
        cells@.len() < t.range ==> !(game@.classify_at(
            beam_x(*t, cells@.len() + 1 as int),
            beam_y(*t, cells@.len() + 1 as int),
        ) is None),
{
    proof {
        lemma_free_prefix(game@, *t, 1);
    }
    let (dx, dy) = t.direction.offset();
    let mut cells: Vec<Position> = Vec::new();
    let mut d: u16 = 1;
    while d <= t.range as u16
        invariant
            1 <= d <= t.range + 1,
            dx == delta_x(t.direction),
            dy == delta_y(t.direction),
            cells@.len() + 1 == d,
            beam_free_len(game@, *t) == cells@.len() + beam_free_len_from(game@, *t, d as int),
            forall|i: int|
                0 <= i < cells@.len() ==> (#[trigger] cells@[i]).at(
                    beam_x(*t, i + 1),
                    beam_y(*t, i + 1),
                ),
        decreases t.range + 1 - d as int,
    {
        proof {
            lemma_free_prefix(game@, *t, 1);
            assert(dx == -1 || dx == 0 || dx == 1);
            assert(dy == -1 || dy == 0 || dy == 1);
        }
        let cx: i64 = t.position.x as i64 + (d as i64) * (dx as i64);
        let cy: i64 = t.position.y as i64 + (d as i64) * (dy as i64);
        assert(cx == beam_x(*t, d as int) && cy == beam_y(*t, d as int));
        if cx < i32::MIN as i64 || cx > i32::MAX as i64 || cy < i32::MIN as i64 || cy
            > i32::MAX as i64 {
            proof {
                lemma_off_lattice_blocked(game@, cx as int, cy as int);
            }
            return cells;
        }
        let cell = Position { x: cx as i32, y: cy as i32 };
        match crate::game::classify(game, &cell) {
            Some(_) => {
                return cells;
            },
            None => {},
        }
        cells.push(cell);
        d = d + 1;
    }
    cells
}

/// Law: when the beam meets an absorbing obstruction (a block or a tower) at
/// ray distance `k` and every earlier ray cell is free, the beam crosses
/// exactly the `k - 1` free cells before `k`, stops there, and never reaches
/// the snake.
pub proof fn lemma_beam_stopped(m: GameModel, t: Tower, k: int)
    requires
        1 <= k <= t.range,
        forall|d: int| 1 <= d < k ==> m.classify_at(beam_x(t, d), beam_y(t, d)) is None,
        m.classify_at(beam_x(t, k), beam_y(t, k)) matches Some(o) && o != Obstacle::Snake,
    ensures
        !beam_hits(m, t),
        beam_free_len(m, t) == k - 1,
{
    lemma_beam_stopped_from(m, t, k, 1);
}

/// The scan of `lemma_beam_stopped`, started at ray distance `d`.
proof fn lemma_beam_stopped_from(m: GameModel, t: Tower, k: int, d: int)
    requires
        1 <= d <= k <= t.range,
        forall|e: int| d <= e < k ==> m.classify_at(beam_x(t, e), beam_y(t, e)) is None,
        m.classify_at(beam_x(t, k), beam_y(t, k)) matches Some(o) && o != Obstacle::Snake,
    ensures
        !beam_hits_from(m, t, d),
        beam_free_len_from(m, t, d) == k - d,
    decreases k - d,
{
    if d < k {
        lemma_beam_stopped_from(m, t, k, d + 1);
    }
}

} // verus!
