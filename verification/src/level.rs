//! The built-in demo level. A level is static data: the engine only ever
//! reads it through a freshly constructed `Game`, and a reset simply
//! constructs the level again.

use vstd::prelude::*;

use crate::game::{Game, Progress};
use crate::geometry::{Direction, Position, Region};
use crate::snake::Snake;
use crate::tower::{Tower, TowerState};

verus! {

/// Build the demo level: an 8 by 8 walled yard, a three-cell snake, two
/// blocks, two charging towers and a single goal tile.
pub fn create_demo_level() -> (r: Game)
    ensures
        r.wf(),
        r@.progress is Running,
        r@.snake.head == (Position { x: 5, y: 5 }),
        r@.snake.direction == Direction::Right,
        r@.snake.max_length == 5,
        r@.snake.tail.len() == 0,
        r@.blocks == seq![(Position { x: 4, y: 4 }), (Position { x: 7, y: 7 })],
        r@.towers == seq![
            (Tower {
                direction: Direction::Down,
                position: Position { x: 4, y: 7 },
                interval: 6,
                state: TowerState::Charging(2),
                range: 50,
            }),
            (Tower {
                direction: Direction::Left,
                position: Position { x: 8, y: 8 },
                interval: 4,
                state: TowerState::Charging(3),
                range: 50,
            }),
        ],
        r@.goals == seq![(Position { x: 3, y: 9 })],
        r@.boundaries == (Region { top: 2, bottom: 10, left: 2, right: 10 }),
{
    let snake = Snake {
        head: Position { x: 5, y: 5 },
        direction: Direction::Right,
        max_length: 5,
        tail: Vec::new(),
    };

    let mut blocks: Vec<Position> = Vec::new();
    blocks.push(Position { x: 4, y: 4 });
    blocks.push(Position { x: 7, y: 7 });

    let mut towers: Vec<Tower> = Vec::new();
    towers.push(
        Tower {
            direction: Direction::Down,
            position: Position { x: 4, y: 7 },
            interval: 6,
            state: TowerState::Charging(2),
            range: 50,
        },
    );
    towers.push(
        Tower {
            direction: Direction::Left,
            position: Position { x: 8, y: 8 },
            interval: 4,
            state: TowerState::Charging(3),
            range: 50,
        },
    );

    let mut goals: Vec<Position> = Vec::new();
    goals.push(Position { x: 3, y: 9 });

    Game {
        progress: Progress::Running,
        boundaries: Region { top: 2, bottom: 10, left: 2, right: 10 },
        snake,
        blocks,
        towers,
        goals,
    }
}

} // verus!
