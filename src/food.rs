use vstd::prelude::*;
use rand::Rng;
use crate::grid::{Cell, Grid, Pos, HEIGHT, WIDTH, in_bounds, interior, index_of};
use crate::snake::Snake;

verus! {

/// The one food item on the board.
pub struct Food {
    /// Where the food lies.
    pub position: Pos,
    /// Set once the snake has eaten it; cleared when a new item is placed.
    pub consumed: bool,
}

/// The food item the game starts with.
pub fn create_food() -> (f: Food)
    ensures
        f.position == (Pos { row: 5, col: 8 }),
        !f.consumed,
        interior(f.position),
{
    Food { position: Pos { row: 5, col: 8 }, consumed: false }
}

/// Relies on rand's `thread_rng().gen_range(lo..hi)`: a random value in
/// `lo..hi`, which must not be empty.
#[verifier::external_body]
fn random_in(lo: usize, hi: usize) -> (r: usize)
    requires
        lo < hi,
    ensures
        lo <= r < hi,
{
    rand::thread_rng().gen_range(lo..hi)
}

/// Draws the food onto the board unless it has been eaten.
pub fn add_food_to_map(food: &Food, map: &mut Grid)
    requires
        old(map).wf(),
        in_bounds(food.position),
    ensures
        final(map).wf(),
        final(map)@ == if food.consumed {
            old(map)@
        } else {
            old(map)@.update(index_of(food.position), Cell::Food)
        },
{
    if food.consumed {
        return;
    }
    map.set(food.position, Cell::Food);
}

/// Replaces eaten food by a new item at `pos`; does nothing while the food
/// has not been eaten.
pub fn place_food(food: &mut Food, map: &mut Grid, pos: Pos)
    requires
        old(map).wf(),
        interior(pos),
    ensures
        final(map).wf(),
        !old(food).consumed ==> *final(food) == *old(food) && final(map)@ == old(map)@,
        old(food).consumed ==> final(food).position == pos && !final(food).consumed
            && final(map)@ == old(map)@.update(index_of(pos), Cell::Food),
{
    if !food.consumed {
        return;
    }
    map.set(pos, Cell::Food);
    food.position = pos;
    food.consumed = false;
}

/// Replaces eaten food by a new item at a random position off the wall
/// ring; does nothing while the food has not been eaten. The new position
/// is not checked against the snake's body.
pub fn random_new_food(food: &mut Food, snake: &Snake, map: &mut Grid)
    requires
        old(map).wf(),
    ensures
        final(map).wf(),
        !old(food).consumed ==> *final(food) == *old(food) && final(map)@ == old(map)@,
        old(food).consumed ==> !final(food).consumed && interior(final(food).position)
            && final(map)@ == old(map)@.update(index_of(final(food).position), Cell::Food),
{
    if !food.consumed {
        return;
    }
    let row = random_in(1, HEIGHT - 1);
    let col = random_in(1, WIDTH - 1);
    place_food(food, map, Pos { row, col });
}

} // verus!
