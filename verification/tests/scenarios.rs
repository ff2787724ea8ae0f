use sneake::game::{Game, Obstacle, Progress};
use sneake::geometry::{Direction, Position, Region};
use sneake::level::create_demo_level;
use sneake::moves::attempt_move;
use sneake::snake::Snake;
use sneake::tower::{Tower, TowerState};

fn pos(x: i32, y: i32) -> Position {
    Position { x, y }
}

fn open_yard() -> Region {
    Region { top: 2, bottom: 10, left: 2, right: 10 }
}

fn walled_game(head: Position, max_length: usize, blocks: Vec<Position>) -> Game {
    Game {
        progress: Progress::Running,
        snake: Snake { head, max_length, direction: Direction::Right, tail: Vec::new() },
        blocks,
        towers: Vec::new(),
        goals: Vec::new(),
        boundaries: open_yard(),
    }
}

#[test]
fn left_into_block_rejected() {
    // Boundaries (2,10,2,10) exclusive, head (5,5), length 3, facing right,
    // a block at (3,5). One step left succeeds, the second is rejected.
    let game = walled_game(pos(5, 5), 3, vec![pos(3, 5)]);
    assert!(sneake::game::validate(&game));

    let game = attempt_move(game, Direction::Left);
    assert_eq!(game.snake.head, pos(4, 5));
    assert_eq!(game.snake.tail, vec![pos(5, 5)]);
    assert!(matches!(game.snake.direction, Direction::Left));
    assert!(matches!(game.progress, Progress::Running));

    let game = attempt_move(game, Direction::Left);
    assert_eq!(game.snake.head, pos(4, 5));
    assert_eq!(game.snake.tail, vec![pos(5, 5)]);
    assert!(matches!(game.snake.direction, Direction::Left));
    assert!(matches!(game.progress, Progress::Running));
}

#[test]
fn demo_tower_charges_per_accepted_move() {
    // The demo tower at (4,7): interval 6, initially Charging(2). After 2
    // accepted moves Charging(1), after 3 Firing, after 4 Charging(5).
    let mut game = create_demo_level();
    assert!(sneake::game::validate(&game));

    game = attempt_move(game, Direction::Right);
    assert!(matches!(game.towers[0].state, TowerState::Charging(1)));

    game = attempt_move(game, Direction::Right);
    assert!(matches!(game.towers[0].state, TowerState::Firing));

    game = attempt_move(game, Direction::Right);
    assert!(matches!(game.towers[0].state, TowerState::Charging(5)));

    game = attempt_move(game, Direction::Right);
    assert!(matches!(game.towers[0].state, TowerState::Charging(4)));
    assert!(matches!(game.progress, Progress::Running));
}

#[test]
fn demo_level_matches_design() {
    let game = create_demo_level();
    assert!(matches!(game.progress, Progress::Running));
    assert_eq!(game.snake.head, pos(5, 5));
    assert!(matches!(game.snake.direction, Direction::Right));
    assert_eq!(game.snake.max_length, 5);
    assert!(game.snake.tail.is_empty());
    assert_eq!(game.blocks, vec![pos(4, 4), pos(7, 7)]);
    assert_eq!(game.goals, vec![pos(3, 9)]);
    assert_eq!(game.boundaries, open_yard());
    assert_eq!(game.towers.len(), 2);
    assert_eq!(game.towers[0].position, pos(4, 7));
    assert!(matches!(game.towers[0].direction, Direction::Down));
    assert_eq!(game.towers[0].interval, 6);
    assert!(matches!(game.towers[0].state, TowerState::Charging(2)));
    assert_eq!(game.towers[0].range, 50);
    assert_eq!(game.towers[1].position, pos(8, 8));
    assert!(matches!(game.towers[1].direction, Direction::Left));
    assert_eq!(game.towers[1].interval, 4);
    assert!(matches!(game.towers[1].state, TowerState::Charging(3)));
    assert_eq!(game.towers[1].range, 50);
}

#[test]
fn tail_grows_to_capacity() {
    // With max_length 3 the tail holds min(accepted moves, 2) cells.
    let mut game = walled_game(pos(3, 5), 3, Vec::new());
    assert!(sneake::game::validate(&game));

    game = attempt_move(game, Direction::Right);
    assert_eq!(game.snake.tail, vec![pos(3, 5)]);
    game = attempt_move(game, Direction::Right);
    assert_eq!(game.snake.tail, vec![pos(4, 5), pos(3, 5)]);
    game = attempt_move(game, Direction::Right);
    assert_eq!(game.snake.tail, vec![pos(5, 5), pos(4, 5)]);
    game = attempt_move(game, Direction::Right);
    assert_eq!(game.snake.head, pos(7, 5));
    assert_eq!(game.snake.tail, vec![pos(6, 5), pos(5, 5)]);
}

#[test]
fn turn_in_place_against_wall() {
    // Pressing into the wall forever is a no-op besides the facing update;
    // rejected moves advance no tower.
    let mut game = walled_game(pos(3, 5), 3, Vec::new());
    game.towers.push(Tower {
        direction: Direction::Up,
        position: pos(8, 8),
        interval: 5,
        state: TowerState::Charging(4),
        range: 10,
    });
    assert!(sneake::game::validate(&game));

    for _ in 0..3 {
        game = attempt_move(game, Direction::Left);
        assert_eq!(game.snake.head, pos(3, 5));
        assert!(game.snake.tail.is_empty());
        assert!(matches!(game.snake.direction, Direction::Left));
        assert!(matches!(game.towers[0].state, TowerState::Charging(4)));
        assert!(matches!(game.progress, Progress::Running));
    }
}

#[test]
fn reverse_with_empty_tail_allowed() {
    let game = walled_game(pos(5, 5), 3, Vec::new());
    let game = attempt_move(game, Direction::Right);
    assert_eq!(game.snake.head, pos(6, 5));
    let game = attempt_move(game, Direction::Left);
    // The tail cell (5,5) blocks the reversal; only the facing turns.
    assert_eq!(game.snake.head, pos(6, 5));
    assert!(matches!(game.snake.direction, Direction::Left));
}

#[test]
fn reverse_into_tail_is_blocked() {
    let mut game = walled_game(pos(5, 5), 3, Vec::new());
    game.snake.tail = vec![pos(4, 5)];
    game.snake.direction = Direction::Right;
    assert!(sneake::game::validate(&game));
    let game = attempt_move(game, Direction::Left);
    assert_eq!(game.snake.head, pos(5, 5));
    assert_eq!(game.snake.tail, vec![pos(4, 5)]);
    assert!(matches!(game.snake.direction, Direction::Left));
}

#[test]
fn finished_game_ignores_input() {
    let mut game = walled_game(pos(5, 5), 3, Vec::new());
    game.progress = Progress::Victory;
    let game = attempt_move(game, Direction::Left);
    assert_eq!(game.snake.head, pos(5, 5));
    // Even the facing direction stays: input is ignored outright.
    assert!(matches!(game.snake.direction, Direction::Right));
    assert!(matches!(game.progress, Progress::Victory));
}

#[test]
fn goal_reached_is_victory() {
    let mut game = walled_game(pos(5, 5), 3, Vec::new());
    game.goals = vec![pos(6, 5)];
    assert!(sneake::game::validate(&game));
    let game = attempt_move(game, Direction::Right);
    assert_eq!(game.snake.head, pos(6, 5));
    assert!(matches!(game.progress, Progress::Victory));
}

#[test]
fn capacity_one_keeps_tail_empty() {
    // max_length 1: the trim drops even the old head, the tail stays empty.
    let mut game = walled_game(pos(3, 5), 1, Vec::new());
    assert!(sneake::game::validate(&game));
    for _ in 0..3 {
        game = attempt_move(game, Direction::Right);
        assert!(game.snake.tail.is_empty());
    }
    assert_eq!(game.snake.head, pos(6, 5));
}

#[test]
fn duplicate_blocks_collapse() {
    // Blocks carry set semantics: a duplicated entry behaves as one block.
    let game = walled_game(pos(5, 5), 3, vec![pos(4, 5), pos(4, 5)]);
    assert!(sneake::game::validate(&game));
    assert!(matches!(
        sneake::game::classify(&game, &pos(4, 5)),
        Some(Obstacle::Block)
    ));
    let game = attempt_move(game, Direction::Left);
    assert_eq!(game.snake.head, pos(5, 5));
    assert!(matches!(game.snake.direction, Direction::Left));
}

#[test]
fn classify_ignores_goals() {
    // A goal tile is not an obstacle: the cell stays free to move onto.
    let mut game = walled_game(pos(5, 5), 3, Vec::new());
    game.goals = vec![pos(6, 5)];
    assert!(sneake::game::classify(&game, &pos(6, 5)).is_none());
    assert!(matches!(
        sneake::game::classify(&game, &pos(5, 5)),
        Some(Obstacle::Snake)
    ));
}
