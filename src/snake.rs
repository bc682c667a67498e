use vstd::prelude::*;
use crate::grid::{Cell, Grid, Pos, HEIGHT, WIDTH, in_bounds, on_boundary, interior, index_of};
use crate::food::Food;

verus! {

/// A direction of travel on the board.
#[derive(Clone, Copy, Debug, PartialEq, Eq, Structural)]
pub enum Direction {
    Up,
    Down,
    Left,
    Right,
}

/// The direction that points the other way.
pub open spec fn opposite(d: Direction) -> Direction {
    match d {
        Direction::Up => Direction::Down,
        Direction::Down => Direction::Up,
        Direction::Left => Direction::Right,
        Direction::Right => Direction::Left,
    }
}

/// The neighbouring position one cell away from `p` in direction `d`.
pub open spec fn step(p: Pos, d: Direction) -> Pos {
    match d {
        Direction::Up => Pos { row: (p.row - 1) as usize, col: p.col },
        Direction::Down => Pos { row: (p.row + 1) as usize, col: p.col },
        Direction::Left => Pos { row: p.row, col: (p.col - 1) as usize },
        Direction::Right => Pos { row: p.row, col: (p.col + 1) as usize },
    }
}

/// The snake: its head, its body from neck to tail, and its tick period.
pub struct Snake {
    pub head: Pos,
    /// Milliseconds between two ticks.
    pub speed: u64,
    /// The segments behind the head, neck first, tail last.
    pub body: Vec<Pos>,
}

/// Every body segment lies on the board.
pub open spec fn body_in_bounds(body: Seq<Pos>) -> bool {
    forall|i: int| 0 <= i < body.len() ==> in_bounds(#[trigger] body[i])
}

/// The game is over: the head touches the wall ring or a body segment.
pub open spec fn game_over(s: Snake) -> bool {
    on_boundary(s.head) || s.body@.contains(s.head)
}

/// The body after a move from `head` over `body`: the old head becomes the
/// neck, and the tail is dropped unless the snake ate or had no body.
pub open spec fn moved_body(head: Pos, body: Seq<Pos>, eaten: bool) -> Seq<Pos> {
    if eaten || body.len() == 0 {
        seq![head] + body
    } else {
        seq![head] + body.drop_last()
    }
}

/// The board after a move: the old head is drawn as body, the new head as
/// head, and the dropped tail, if any, is cleared.
pub open spec fn moved_cells(
    cells: Seq<Cell>,
    head: Pos,
    new_head: Pos,
    body: Seq<Pos>,
    eaten: bool,
) -> Seq<Cell> {
    let drawn = cells.update(index_of(head), Cell::Body).update(index_of(new_head), Cell::Head);
    if !eaten && body.len() > 0 {
        drawn.update(index_of(body.last()), Cell::Empty)
    } else {
        drawn
    }
}

/// The board after drawing each segment of `body`, in order, as a body cell.
pub open spec fn paint_body(cells: Seq<Cell>, body: Seq<Pos>) -> Seq<Cell>
    decreases body.len(),
{
    if body.len() == 0 {
        cells
    } else {
        paint_body(cells, body.drop_last()).update(index_of(body.last()), Cell::Body)
    }
}

/// The snake the game starts with: head at (5, 6), two segments trailing to the left.
pub fn create_snake() -> (s: Snake)
    ensures
        s.head == (Pos { row: 5, col: 6 }),
        s.speed == 200,
        s.body@ == seq![Pos { row: 5, col: 5 }, Pos { row: 5, col: 4 }],
        interior(s.head),
        body_in_bounds(s.body@),
        !game_over(s),
{
    let s = Snake {
        head: Pos { row: 5, col: 6 },
        speed: 200,
        body: vec![Pos { row: 5, col: 5 }, Pos { row: 5, col: 4 }],
    };
    assert(!s.body@.contains(s.head)) by {
        assert(s.body@[0] != s.head && s.body@[1] != s.head);
    }
    s
}

/// Draws the head, then each body segment, onto the board.
pub fn add_snake_to_map(snake: &Snake, map: &mut Grid)
    requires
        old(map).wf(),
        in_bounds(snake.head),
        body_in_bounds(snake.body@),
    ensures
        final(map).wf(),
        final(map)@ == paint_body(old(map)@.update(index_of(snake.head), Cell::Head), snake.body@),
{
    map.set(snake.head, Cell::Head);
    let ghost start = map@;
    let mut i: usize = 0;
    while i < snake.body.len()
        invariant
            i <= snake.body@.len(),
            map.wf(),
            body_in_bounds(snake.body@),
            map@ == paint_body(start, snake.body@.take(i as int)),
        decreases snake.body@.len() - i,
    {
        let seg = snake.body[i];
        map.set(seg, Cell::Body);
        assert(snake.body@.take(i + 1).drop_last() == snake.body@.take(i as int));
        i = i + 1;
    }
    assert(snake.body@.take(i as int) == snake.body@);
}

/// Reports whether the game is over: the head lies on the wall ring or on
/// a body segment.
pub fn is_game_over(snake: &Snake) -> (r: bool)
    ensures
        r == game_over(*snake),
{
    let head = snake.head;
    if head.row == 0 || head.row == HEIGHT - 1 || head.col == 0 || head.col == WIDTH - 1 {
        return true;
    }
    let mut i: usize = 0;
    while i < snake.body.len()
        invariant
            i <= snake.body@.len(),
            head == snake.head,
            forall|j: int| 0 <= j < i ==> snake.body@[j] != head,
        decreases snake.body@.len() - i,
    {
        let seg = snake.body[i];
        if seg == head {
            assert(snake.body@[i as int] == head);
            return true;
        }
        i = i + 1;
    }
    false
}

/// While the game is not over, the head lies on no body segment.
pub proof fn lemma_alive_head_off_body(s: Snake)
    requires
        !game_over(s),
    ensures
        !s.body@.contains(s.head),
        forall|i: int| 0 <= i < s.body@.len() ==> s.body@[i] != s.head,
{
}

/// Moves the snake one cell in `direction`, updating the board and the food.
///
/// Returns whether the snake ate the food on this move: the new head lies on
/// the food and the food had not been eaten yet. The old head becomes the
/// neck; unless the snake ate, the tail segment (if any) is dropped and its
/// cell cleared. When the snake eats, the food is marked consumed.
pub fn move_snake(snake: &mut Snake, food: &mut Food, map: &mut Grid, direction: Direction) -> (eaten: bool)
    requires
        old(map).wf(),
        interior(old(snake).head),
        body_in_bounds(old(snake).body@),
    ensures
        final(snake).head == step(old(snake).head, direction),
        eaten == (final(snake).head == old(food).position && !old(food).consumed),
        final(snake).speed == old(snake).speed,
        final(snake).body@ == moved_body(old(snake).head, old(snake).body@, eaten),
        old(snake).body@.len() > 0 ==> final(snake).body@.len() == old(snake).body@.len() + if eaten { 1int } else { 0int },
        in_bounds(final(snake).head),
        body_in_bounds(final(snake).body@),
        final(food).position == old(food).position,
        final(food).consumed == (old(food).consumed || eaten),
        final(map).wf(),
        final(map)@ == moved_cells(old(map)@, old(snake).head, final(snake).head, old(snake).body@, eaten),
{
    let before_head = snake.head;
    let new_head = match direction {
        Direction::Up => Pos { row: before_head.row - 1, col: before_head.col },
        Direction::Down => Pos { row: before_head.row + 1, col: before_head.col },
        Direction::Left => Pos { row: before_head.row, col: before_head.col - 1 },
        Direction::Right => Pos { row: before_head.row, col: before_head.col + 1 },
    };
    snake.head = new_head;
    let eaten = new_head.row == food.position.row && new_head.col == food.position.col
        && !food.consumed;
    map.set(before_head, Cell::Body);
    map.set(new_head, Cell::Head);
    if snake.body.len() > 0 && !eaten {
        let tail = snake.body.pop().unwrap();
        map.set(tail, Cell::Empty);
    }
    if eaten {
        food.consumed = true;
    }
    snake.body.insert(0, before_head);
    proof {
        let b = snake.body@;
        assert forall|i: int| 0 <= i < b.len() implies in_bounds(#[trigger] b[i]) by {
            if i > 0 {
                assert(b[i] == old(snake).body@[i - 1]);
            }
        }
        assert(b == moved_body(before_head, old(snake).body@, eaten));
    }
    eaten
}

} // verus!
