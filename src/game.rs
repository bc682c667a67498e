use vstd::prelude::*;
use crate::control::{Key, after_keys, drain_keys};
use crate::food::{Food, add_food_to_map, create_food, random_new_food};
use crate::grid::{Cell, Grid, Pos, in_bounds, interior, index_of, create_map};
use crate::snake::{
    Direction, Snake, add_snake_to_map, body_in_bounds, create_snake, game_over,
    is_game_over, move_snake, moved_body, moved_cells, paint_body, step,
};

verus! {

/// The whole game state: board, snake, food and the direction of travel.
pub struct Game {
    pub map: Grid,
    pub snake: Snake,
    pub food: Food,
    pub direction: Direction,
}

/// Whether the snake eats on a move from `head` in direction `d`.
pub open spec fn eats(head: Pos, d: Direction, food: Food) -> bool {
    step(head, d) == food.position && !food.consumed
}

/// The board after the move and the redraw of the snake and the food, before
/// eaten food is replaced.
pub open spec fn redrawn_cells(g: Game, d: Direction) -> Seq<Cell> {
    let new_head = step(g.snake.head, d);
    let eaten = eats(g.snake.head, d, g.food);
    let moved = moved_cells(g.map@, g.snake.head, new_head, g.snake.body@, eaten);
    let painted = paint_body(
        moved.update(index_of(new_head), Cell::Head),
        moved_body(g.snake.head, g.snake.body@, eaten),
    );
    if g.food.consumed || eaten {
        painted
    } else {
        painted.update(index_of(g.food.position), Cell::Food)
    }
}

impl Game {
    /// The state holds together: a full board, every segment on it, and the
    /// food off the wall ring.
    pub open spec fn wf(&self) -> bool {
        &&& self.map.wf()
        &&& in_bounds(self.snake.head)
        &&& body_in_bounds(self.snake.body@)
        &&& interior(self.food.position)
    }

    /// The game is still running: the head is off the wall ring and off the body.
    pub open spec fn running(&self) -> bool {
        self.wf() && !game_over(self.snake)
    }

    /// The starting state: a fresh board, the starting snake heading right,
    /// and the starting food.
    pub fn new() -> (g: Game)
        ensures
            g.running(),
            g.direction == Direction::Right,
            forall|p: Pos| in_bounds(p) ==> #[trigger] g.map.at(p) == crate::grid::initial_cell(p),
            g.snake.head == (Pos { row: 5, col: 6 }),
            g.snake.body@ == seq![Pos { row: 5, col: 5 }, Pos { row: 5, col: 4 }],
            g.snake.speed == 200,
            g.food.position == (Pos { row: 5, col: 8 }),
            !g.food.consumed,
    {
        Game { map: create_map(), snake: create_snake(), food: create_food(), direction: Direction::Right }
    }

    /// Runs one tick: applies the keys drained since the last tick, moves the
    /// snake, redraws snake and food, replaces eaten food, and reports
    /// whether the game is over.
    pub fn tick(&mut self, keys: &Vec<Key>) -> (over: bool)
        requires
            old(self).running(),
        ensures
            final(self).wf(),
            over == game_over(final(self).snake),
            !over ==> !final(self).snake.body@.contains(final(self).snake.head),
            final(self).direction == after_keys(old(self).direction, keys@),
            final(self).snake.head == step(old(self).snake.head, final(self).direction),
            final(self).snake.speed == old(self).snake.speed,
            final(self).snake.body@ == moved_body(
                old(self).snake.head,
                old(self).snake.body@,
                eats(old(self).snake.head, final(self).direction, old(self).food),
            ),
            ({
                let redrawn = redrawn_cells(*old(self), final(self).direction);
                if old(self).food.consumed || eats(old(self).snake.head, final(self).direction, old(self).food) {
                    !final(self).food.consumed
                        && final(self).map@ == redrawn.update(index_of(final(self).food.position), Cell::Food)
                } else {
                    final(self).food == old(self).food && final(self).map@ == redrawn
                }
            }),
    {
        let d = drain_keys(self.direction, keys);
        self.direction = d;
        let ghost g0 = *self;
        move_snake(&mut self.snake, &mut self.food, &mut self.map, d);
        add_snake_to_map(&self.snake, &mut self.map);
        add_food_to_map(&self.food, &mut self.map);
        proof {
            assert(self.map@ == redrawn_cells(g0, d));
        }
        random_new_food(&mut self.food, &self.snake, &mut self.map);
        is_game_over(&self.snake)
    }
}

} // verus!
