//! The snake: a head cell, a facing direction, and a bounded history of
//! previously occupied head cells that forms the tail.

use vstd::prelude::*;

use crate::geometry::{occupies, Direction, Position};

verus! {

/// The player-controlled snake. `tail` lists past head positions,
/// most recent first; that order is the render and trim order.
#[derive(Debug)]
pub struct Snake {
    pub head: Position,
    pub max_length: usize,
    pub direction: Direction,
    pub tail: Vec<Position>,
}

/// Mathematical view of a snake.
#[verifier::ext_equal]
pub struct SnakeModel {
    pub head: Position,
    pub max_length: int,
    pub direction: Direction,
    pub tail: Seq<Position>,
}

impl View for Snake {
    type V = SnakeModel;

    open spec fn view(&self) -> SnakeModel {
        SnakeModel {
            head: self.head,
            max_length: self.max_length as int,
            direction: self.direction,
            tail: self.tail@,
        }
    }
}

impl SnakeModel {
    /// Well-formed: the capacity bound is positive and the tail respects it.
    pub open spec fn wf(self) -> bool {
        1 <= self.max_length && self.tail.len() <= self.max_length - 1
    }

    /// Whether the snake's body (head or tail) occupies the coordinates.
    pub open spec fn occupies_cell(self, x: int, y: int) -> bool {
        self.head.at(x, y) || occupies(self.tail, x, y)
    }

    /// The tail after an accepted move: the old head pushed to the front,
    /// then trimmed from the back to at most `max_length - 1` cells.
    pub open spec fn pushed_tail(self) -> Seq<Position> {
        let full = seq![self.head] + self.tail;
        if full.len() <= self.max_length - 1 {
            full
        } else {
            full.take(self.max_length - 1)
        }
    }

    /// The snake after an accepted move to `new_head` in direction `d`.
    pub open spec fn advanced(self, new_head: Position, d: Direction) -> SnakeModel {
        SnakeModel { head: new_head, direction: d, tail: self.pushed_tail(), ..self }
    }
}

/// Commit an accepted move: the head moves to `new_head`, the old head joins
/// the front of the tail, and the tail is trimmed to `max_length - 1` cells.
pub fn advance_snake(snake: &Snake, new_head: Position, d: Direction) -> (r: Snake)
    requires
        snake@.wf(),
    ensures
        r@ == snake@.advanced(new_head, d),
        r@.wf(),
{
    let cap: usize = snake.max_length - 1;
    let mut tail: Vec<Position> = Vec::new();
    if cap > 0 {
        tail.push(snake.head);
        let mut i: usize = 0;
        while tail.len() < cap && i < snake.tail.len()
            invariant
                0 <= i <= snake.tail@.len(),
                tail@.len() == i + 1,
                tail@.len() <= cap,
                tail@ == (seq![snake.head] + snake.tail@).take(i + 1),
            decreases snake.tail@.len() - i,
        {
            let segment = snake.tail[i];
            tail.push(segment);
            proof {
                assert(tail@ =~= (seq![snake.head] + snake.tail@).take(i + 2));
            }
            i = i + 1;
        }
    }
    proof {
        assert(tail@ =~= snake@.pushed_tail());
    }
    Snake { head: new_head, max_length: snake.max_length, direction: d, tail }
}

} // verus!
