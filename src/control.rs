use vstd::prelude::*;
use crate::snake::{Direction, opposite};

verus! {

/// A key the player may press: the four steering keys, or any other.
#[derive(Clone, Copy, Debug, PartialEq, Eq, Structural)]
pub enum Key {
    W,
    A,
    S,
    D,
    Other,
}

/// The direction a key asks for, if it is a steering key.
pub open spec fn key_dir(k: Key) -> Option<Direction> {
    match k {
        Key::W => Some(Direction::Up),
        Key::A => Some(Direction::Left),
        Key::S => Some(Direction::Down),
        Key::D => Some(Direction::Right),
        Key::Other => None,
    }
}

/// The direction after a request to turn: a request for the reverse of the
/// current direction is ignored.
pub open spec fn steered(current: Direction, requested: Direction) -> Direction {
    if requested == opposite(current) {
        current
    } else {
        requested
    }
}

/// The direction after one key: steering keys turn, other keys are ignored.
pub open spec fn after_key(current: Direction, k: Key) -> Direction {
    match key_dir(k) {
        Some(d) => steered(current, d),
        None => current,
    }
}

/// The direction after the keys, taken in arrival order, each checked
/// against the direction the keys before it left.
pub open spec fn after_keys(current: Direction, keys: Seq<Key>) -> Direction
    decreases keys.len(),
{
    if keys.len() == 0 {
        current
    } else {
        after_key(after_keys(current, keys.drop_last()), keys.last())
    }
}

/// The direction that points the other way.
pub fn opposite_of(d: Direction) -> (r: Direction)
    ensures
        r == opposite(d),
{
    match d {
        Direction::Up => Direction::Down,
        Direction::Down => Direction::Up,
        Direction::Left => Direction::Right,
        Direction::Right => Direction::Left,
    }
}

/// The direction a key asks for, if it is a steering key.
pub fn key_direction(k: Key) -> (r: Option<Direction>)
    ensures
        r == key_dir(k),
{
    match k {
        Key::W => Some(Direction::Up),
        Key::A => Some(Direction::Left),
        Key::S => Some(Direction::Down),
        Key::D => Some(Direction::Right),
        Key::Other => None,
    }
}

/// Turns to `requested` unless it is the reverse of `current`.
pub fn steer(current: Direction, requested: Direction) -> (r: Direction)
    ensures
        r == steered(current, requested),
        requested == opposite(current) ==> r == current,
        requested != opposite(current) ==> r == requested,
{
    if requested == opposite_of(current) {
        current
    } else {
        requested
    }
}

/// Applies the keys drained in one tick, in arrival order, and returns the
/// direction the snake moves in on this tick.
pub fn drain_keys(current: Direction, keys: &Vec<Key>) -> (r: Direction)
    ensures
        r == after_keys(current, keys@),
{
    let mut d = current;
    let mut i: usize = 0;
    while i < keys.len()
        invariant
            i <= keys@.len(),
            d == after_keys(current, keys@.take(i as int)),
        decreases keys@.len() - i,
    {
        match key_direction(keys[i]) {
            Some(req) => {
                d = steer(d, req);
            },
            None => {},
        }
        assert(keys@.take(i + 1).drop_last() == keys@.take(i as int));
        i = i + 1;
    }
    assert(keys@.take(i as int) == keys@);
    d
}

/// A key that asks for the reverse of the current direction leaves the
/// direction unchanged.
pub proof fn lemma_reverse_rejected(current: Direction, k: Key)
    requires
        key_dir(k) == Some(opposite(current)),
    ensures
        after_keys(current, seq![k]) == current,
{
    let ks = seq![k];
    assert(ks.drop_last() =~= Seq::<Key>::empty());
    assert(after_keys(current, ks.drop_last()) == current);
    assert(ks.last() == k);
}

/// Microseconds to wait before the next tick starts: what is left of the
/// tick period of `speed_ms` milliseconds after `elapsed_us` microseconds,
/// or nothing once the period has run out.
pub fn tick_wait_micros(speed_ms: u64, elapsed_us: u128) -> (r: u128)
    ensures
        r == if (elapsed_us as int) < speed_ms * 1000 {
            speed_ms * 1000 - elapsed_us
        } else {
            0
        },
{
    let period: u128 = speed_ms as u128 * 1000;
    if elapsed_us < period {
        period - elapsed_us
    } else {
        0
    }
}

} // verus!
