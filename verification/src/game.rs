//! The game aggregate and obstacle resolution: classifying any lattice cell
//! as free, or occupied by a tower, the snake's body, or a block (where
//! "block" also covers cells outside the playable region).

use vstd::prelude::*;

use crate::geometry::{occupies, Position, Region};
use crate::snake::{Snake, SnakeModel};
use crate::tower::{Tower, TowerState};

verus! {

/// What occupies a grid cell, when it is not free.
#[derive(Clone, Copy, PartialEq, Eq, Structural, Debug)]
pub enum Obstacle {
    Tower,
    Block,
    Snake,
}

/// The terminal/non-terminal flag of a game. Once it leaves `Running`,
/// movement input is ignored until the host constructs a fresh game.
#[derive(Clone, Copy, PartialEq, Eq, Structural, Debug)]
pub enum Progress {
    Running,
    Failure,
    Victory,
}

/// The whole game state. Blocks and goals carry set semantics: only
/// membership is ever read, so duplicates and order are irrelevant.
#[derive(Debug)]
pub struct Game {
    pub progress: Progress,
    pub snake: Snake,
    pub blocks: Vec<Position>,
    pub towers: Vec<Tower>,
    pub goals: Vec<Position>,
    pub boundaries: Region,
}

/// Mathematical view of a game.
#[verifier::ext_equal]
pub struct GameModel {
    pub progress: Progress,
    pub snake: SnakeModel,
    pub blocks: Seq<Position>,
    pub towers: Seq<Tower>,
    pub goals: Seq<Position>,
    pub boundaries: Region,
}

impl View for Game {
    type V = GameModel;

    open spec fn view(&self) -> GameModel {
        GameModel {
            progress: self.progress,
            snake: self.snake@,
            blocks: self.blocks@,
            towers: self.towers@,
            goals: self.goals@,
            boundaries: self.boundaries,
        }
    }
}

/// Whether some tower of the sequence stands on the coordinates.
pub open spec fn tower_at(towers: Seq<Tower>, x: int, y: int) -> bool {
    exists|i: int| 0 <= i < towers.len() && towers[i].position.at(x, y)
}

impl GameModel {
    /// Free space: strictly inside the boundaries and not on a static block.
    /// Towers and the snake are ignored here on purpose; they are dynamic
    /// occupants, resolved by `classify_at`.
    pub open spec fn is_free_at(self, x: int, y: int) -> bool {
        self.boundaries.inside(x, y) && !occupies(self.blocks, x, y)
    }

    /// Obstacle resolution, in fixed priority order: a tower standing on the
    /// cell first, then the snake's body, then the free-space check.
    pub open spec fn classify_at(self, x: int, y: int) -> Option<Obstacle> {
        if tower_at(self.towers, x, y) {
            Some(Obstacle::Tower)
        } else if self.snake.occupies_cell(x, y) {
            Some(Obstacle::Snake)
        } else if !self.is_free_at(x, y) {
            Some(Obstacle::Block)
        } else {
            None
        }
    }

    /// Whether a goal tile lies on the coordinates.
    pub open spec fn goal_at(self, x: int, y: int) -> bool {
        occupies(self.goals, x, y)
    }

    /// Well-formed: the snake and every tower are well-formed, and the head
    /// stands on free ground, clear of the tail and of every tower. Level
    /// data must establish this once; every move preserves it.
    pub open spec fn wf(self) -> bool {
        &&& self.snake.wf()
        &&& forall|i: int| 0 <= i < self.towers.len() ==> (#[trigger] self.towers[i]).wf()
        &&& self.boundaries.inside(self.snake.head.x as int, self.snake.head.y as int)
        &&& !occupies(self.snake.tail, self.snake.head.x as int, self.snake.head.y as int)
        &&& !occupies(self.blocks, self.snake.head.x as int, self.snake.head.y as int)
        &&& !tower_at(self.towers, self.snake.head.x as int, self.snake.head.y as int)
    }
}

impl Game {
    /// Well-formed: see `GameModel::wf`.
    pub open spec fn wf(self) -> bool {
        self@.wf()
    }
}

/// Free-space check: strictly inside the boundaries and not on a block.
pub fn is_free(game: &Game, position: &Position) -> (r: bool)
    ensures
        r == game@.is_free_at(position.x as int, position.y as int),
{
    let inside_limits = game.boundaries.contains(*position);
    let blocked_by_block = crate::geometry::find_pos(&game.blocks, *position);
    inside_limits && !blocked_by_block
}

/// Obstacle resolution at a cell, in priority order: tower, snake, block.
pub fn classify(game: &Game, position: &Position) -> (r: Option<Obstacle>)
    ensures
        r == game@.classify_at(position.x as int, position.y as int),
{
    let mut i: usize = 0;
    while i < game.towers.len()
        invariant
            0 <= i <= game.towers@.len(),
            forall|j: int|
                0 <= j < i ==> !(#[trigger] game.towers@[j]).position.at(
                    position.x as int,
                    position.y as int,
                ),
        decreases game.towers@.len() - i,
    {
        if game.towers[i].position == *position {
            assert(game.towers@[i as int].position.at(position.x as int, position.y as int));
            return Some(Obstacle::Tower);
        }
        i = i + 1;
    }
    assert(!tower_at(game@.towers, position.x as int, position.y as int));

    if crate::geometry::find_pos(&game.snake.tail, *position) {
        return Some(Obstacle::Snake);
    }

    if game.snake.head == *position {
        return Some(Obstacle::Snake);
    }

    match is_free(game, position) {
        true => None,
        false => Some(Obstacle::Block),
    }
}

/// Validate level data once at construction time: a defensive check that the
/// game satisfies the well-formedness invariant the engine relies on.
pub fn validate(game: &Game) -> (r: bool)
    ensures
        r == game.wf(),
{
    if game.snake.max_length < 1 {
        return false;
    }
    if game.snake.tail.len() > game.snake.max_length - 1 {
        return false;
    }
    let mut i: usize = 0;
    while i < game.towers.len()
        invariant
            0 <= i <= game.towers@.len(),
            forall|j: int| 0 <= j < i ==> (#[trigger] game.towers@[j]).wf(),
        decreases game.towers@.len() - i,
    {
        let t = game.towers[i];
        if t.interval < 2 {
            return false;
        }
        match t.state {
            TowerState::Charging(n) => {
                if n < 1 || n > t.interval - 1 {
                    return false;
                }
            },
            TowerState::Firing => {},
        }
        i = i + 1;
    }
    if !game.boundaries.contains(game.snake.head) {
        return false;
    }
    if crate::geometry::find_pos(&game.snake.tail, game.snake.head) {
        return false;
    }
    if crate::geometry::find_pos(&game.blocks, game.snake.head) {
        return false;
    }
    match classify(game, &game.snake.head) {
        // A tower outranks everything in `classify`, so this is exactly the
        // tower-occupancy test; the head cell otherwise classifies as snake.
        Some(Obstacle::Tower) => false,
        _ => true,
    }
}

} // verus!
