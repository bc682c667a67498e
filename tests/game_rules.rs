use snake_game::control::{Key, drain_keys, key_direction, opposite_of, steer, tick_wait_micros};
use snake_game::food::{Food, add_food_to_map, create_food, place_food, random_new_food};
use snake_game::game::Game;
use snake_game::grid::{Cell, Grid, Pos, HEIGHT, WIDTH, create_map, render, symbol};
use snake_game::snake::{Direction, Snake, add_snake_to_map, create_snake, is_game_over, move_snake};

fn pos(row: usize, col: usize) -> Pos {
    Pos { row, col }
}

fn snake_at(head: Pos, body: Vec<Pos>) -> Snake {
    Snake { head, speed: 200, body }
}

fn food_at(position: Pos) -> Food {
    Food { position, consumed: false }
}

#[test]
fn new_map_has_wall_ring_and_empty_inside() {
    let map = create_map();
    assert_eq!(map.cells.len(), HEIGHT * WIDTH);
    for r in 0..HEIGHT {
        for c in 0..WIDTH {
            let edge = r == 0 || r == HEIGHT - 1 || c == 0 || c == WIDTH - 1;
            let expected = if edge { Cell::Wall } else { Cell::Empty };
            assert_eq!(map.get(pos(r, c)), expected);
        }
    }
}

#[test]
fn render_shows_one_symbol_per_cell() {
    let mut map = create_map();
    map.set(pos(3, 4), Cell::Head);
    map.set(pos(3, 5), Cell::Food);
    let rows = render(&map);
    assert_eq!(rows.len(), HEIGHT);
    assert!(rows.iter().all(|row| row.len() == WIDTH));
    assert_eq!(rows[0][0], '■');
    assert_eq!(rows[1][1], ' ');
    assert_eq!(rows[3][4], '●');
    assert_eq!(rows[3][5], '▣');
    assert_eq!(rows[HEIGHT - 1][WIDTH - 1], '■');
    assert_eq!(symbol(Cell::Body), '■');
    assert_eq!(symbol(Cell::Empty), ' ');
}

#[test]
fn starting_state() {
    let s = create_snake();
    assert_eq!(s.head, pos(5, 6));
    assert_eq!(s.body, vec![pos(5, 5), pos(5, 4)]);
    assert_eq!(s.speed, 200);
    let f = create_food();
    assert_eq!(f.position, pos(5, 8));
    assert!(!f.consumed);
    let g = Game::new();
    assert_eq!(g.direction, Direction::Right);
    assert!(!is_game_over(&g.snake));
}

#[test]
fn two_ticks_right_reach_and_eat_the_food() {
    let mut map = create_map();
    let mut snake = create_snake();
    let mut food = create_food();
    let eaten = move_snake(&mut snake, &mut food, &mut map, Direction::Right);
    assert!(!eaten);
    assert_eq!(snake.head, pos(5, 7));
    assert_eq!(snake.body, vec![pos(5, 6), pos(5, 5)]);
    assert!(!food.consumed);
    assert_eq!(map.get(pos(5, 4)), Cell::Empty);
    let eaten = move_snake(&mut snake, &mut food, &mut map, Direction::Right);
    assert!(eaten);
    assert_eq!(snake.head, pos(5, 8));
    assert!(food.consumed);
    assert_eq!(snake.body, vec![pos(5, 7), pos(5, 6), pos(5, 5)]);
    assert_eq!(snake.body.len(), 3);
    assert_eq!(map.get(pos(5, 8)), Cell::Head);
    assert_eq!(map.get(pos(5, 7)), Cell::Body);
    assert_eq!(map.get(pos(5, 5)), Cell::Empty);
}

#[test]
fn two_game_ticks_without_input_eat_the_food() {
    let mut g = Game::new();
    assert!(!g.tick(&vec![]));
    assert_eq!(g.snake.head, pos(5, 7));
    assert_eq!(g.snake.body.len(), 2);
    assert!(!g.tick(&vec![]));
    assert_eq!(g.snake.head, pos(5, 8));
    assert_eq!(g.snake.body.len(), 3);
    assert!(!g.food.consumed);
    let p = g.food.position;
    assert!(p.row >= 1 && p.row <= HEIGHT - 2 && p.col >= 1 && p.col <= WIDTH - 2);
    assert_eq!(g.map.get(p), Cell::Food);
}

#[test]
fn body_length_kept_on_plain_move_and_grown_on_eating() {
    let mut map = create_map();
    let mut snake = snake_at(pos(10, 10), vec![pos(10, 9), pos(10, 8), pos(10, 7)]);
    let mut food = food_at(pos(3, 3));
    assert!(!move_snake(&mut snake, &mut food, &mut map, Direction::Down));
    assert_eq!(snake.body.len(), 3);
    assert_eq!(snake.body, vec![pos(10, 10), pos(10, 9), pos(10, 8)]);
    let mut food = food_at(pos(12, 10));
    assert!(move_snake(&mut snake, &mut food, &mut map, Direction::Down));
    assert_eq!(snake.body.len(), 4);
}

#[test]
fn empty_body_gains_the_old_head() {
    let mut map = create_map();
    let mut snake = snake_at(pos(10, 10), vec![]);
    let mut food = food_at(pos(3, 3));
    assert!(!move_snake(&mut snake, &mut food, &mut map, Direction::Left));
    assert_eq!(snake.head, pos(10, 9));
    assert_eq!(snake.body, vec![pos(10, 10)]);
}

#[test]
fn eaten_food_is_not_eaten_again() {
    let mut map = create_map();
    let mut snake = snake_at(pos(10, 10), vec![pos(10, 9)]);
    let mut food = Food { position: pos(10, 11), consumed: true };
    assert!(!move_snake(&mut snake, &mut food, &mut map, Direction::Right));
    assert_eq!(snake.body.len(), 1);
    assert!(food.consumed);
}

#[test]
fn each_direction_moves_one_cell() {
    let mut food = food_at(pos(1, 1));
    let cases = [
        (Direction::Up, pos(9, 10)),
        (Direction::Down, pos(11, 10)),
        (Direction::Left, pos(10, 9)),
        (Direction::Right, pos(10, 11)),
    ];
    for (d, expected) in cases {
        let mut map = create_map();
        let mut snake = snake_at(pos(10, 10), vec![]);
        move_snake(&mut snake, &mut food, &mut map, d);
        assert_eq!(snake.head, expected);
    }
}

#[test]
fn game_over_on_each_wall() {
    let heads = [pos(0, 10), pos(HEIGHT - 1, 10), pos(10, 0), pos(10, WIDTH - 1)];
    for h in heads {
        assert!(is_game_over(&snake_at(h, vec![])));
    }
}

#[test]
fn game_over_on_self_intersection() {
    let s = snake_at(pos(5, 5), vec![pos(5, 6), pos(6, 6), pos(6, 5), pos(5, 5)]);
    assert!(is_game_over(&s));
}

#[test]
fn game_not_over_inside_and_off_body() {
    assert!(!is_game_over(&snake_at(pos(1, 1), vec![pos(1, 2)])));
    assert!(!is_game_over(&snake_at(pos(HEIGHT - 2, WIDTH - 2), vec![])));
}

#[test]
fn moving_up_from_row_one_hits_the_wall() {
    let mut g = Game::new();
    g.snake = snake_at(pos(1, 10), vec![pos(2, 10)]);
    g.direction = Direction::Up;
    assert!(g.tick(&vec![]));
    assert_eq!(g.snake.head.row, 0);
}

#[test]
fn reversal_is_rejected() {
    assert_eq!(drain_keys(Direction::Right, &vec![Key::A]), Direction::Right);
    assert_eq!(drain_keys(Direction::Left, &vec![Key::D]), Direction::Left);
    assert_eq!(drain_keys(Direction::Up, &vec![Key::S]), Direction::Up);
    assert_eq!(drain_keys(Direction::Down, &vec![Key::W]), Direction::Down);
    assert_eq!(steer(Direction::Right, Direction::Left), Direction::Right);
    assert_eq!(steer(Direction::Right, Direction::Up), Direction::Up);
}

#[test]
fn drained_keys_apply_in_arrival_order() {
    assert_eq!(drain_keys(Direction::Right, &vec![Key::A, Key::W]), Direction::Up);
    assert_eq!(drain_keys(Direction::Right, &vec![Key::W, Key::A]), Direction::Left);
    assert_eq!(drain_keys(Direction::Right, &vec![Key::W, Key::S]), Direction::Up);
    assert_eq!(drain_keys(Direction::Up, &vec![Key::Other, Key::D, Key::Other]), Direction::Right);
    assert_eq!(drain_keys(Direction::Down, &vec![]), Direction::Down);
}

#[test]
fn tick_uses_the_drained_direction() {
    let mut g = Game::new();
    assert!(!g.tick(&vec![Key::A, Key::W]));
    assert_eq!(g.direction, Direction::Up);
    assert_eq!(g.snake.head, pos(4, 6));
}

#[test]
fn keys_map_to_directions() {
    assert_eq!(key_direction(Key::W), Some(Direction::Up));
    assert_eq!(key_direction(Key::A), Some(Direction::Left));
    assert_eq!(key_direction(Key::S), Some(Direction::Down));
    assert_eq!(key_direction(Key::D), Some(Direction::Right));
    assert_eq!(key_direction(Key::Other), None);
    assert_eq!(opposite_of(Direction::Up), Direction::Down);
    assert_eq!(opposite_of(Direction::Left), Direction::Right);
}

#[test]
fn uneaten_food_is_not_respawned() {
    let mut map = create_map();
    let snake = create_snake();
    let mut food = create_food();
    random_new_food(&mut food, &snake, &mut map);
    assert_eq!(food.position, pos(5, 8));
    assert!(!food.consumed);
    assert_eq!(map.cells, create_map().cells);
}

#[test]
fn eaten_food_respawns_inside_the_walls() {
    let snake = create_snake();
    let mut seen = Vec::new();
    for _ in 0..200 {
        let mut map = create_map();
        let mut food = Food { position: pos(5, 8), consumed: true };
        random_new_food(&mut food, &snake, &mut map);
        assert!(!food.consumed);
        let p = food.position;
        assert!(p.row >= 1 && p.row <= HEIGHT - 2);
        assert!(p.col >= 1 && p.col <= WIDTH - 2);
        assert_eq!(map.get(p), Cell::Food);
        seen.push(p);
    }
    assert!(seen.iter().any(|p| *p != seen[0]));
}

#[test]
fn placed_food_may_land_on_the_body() {
    let mut map = create_map();
    let snake = create_snake();
    add_snake_to_map(&snake, &mut map);
    let mut food = Food { position: pos(5, 8), consumed: true };
    place_food(&mut food, &mut map, pos(5, 5));
    assert_eq!(food.position, pos(5, 5));
    assert!(!food.consumed);
    assert_eq!(map.get(pos(5, 5)), Cell::Food);
    let mut kept = food_at(pos(7, 7));
    place_food(&mut kept, &mut map, pos(9, 9));
    assert_eq!(kept.position, pos(7, 7));
}

#[test]
fn food_and_snake_are_drawn() {
    let mut map = create_map();
    let snake = create_snake();
    add_snake_to_map(&snake, &mut map);
    assert_eq!(map.get(pos(5, 6)), Cell::Head);
    assert_eq!(map.get(pos(5, 5)), Cell::Body);
    assert_eq!(map.get(pos(5, 4)), Cell::Body);
    add_food_to_map(&create_food(), &mut map);
    assert_eq!(map.get(pos(5, 8)), Cell::Food);
    let mut other = create_map();
    add_food_to_map(&Food { position: pos(6, 6), consumed: true }, &mut other);
    assert_eq!(other.get(pos(6, 6)), Cell::Empty);
}

#[test]
fn wait_is_what_is_left_of_the_period() {
    assert_eq!(tick_wait_micros(200, 0), 200_000);
    assert_eq!(tick_wait_micros(200, 150_500), 49_500);
    assert_eq!(tick_wait_micros(200, 200_000), 0);
    assert_eq!(tick_wait_micros(200, 350_000), 0);
}

#[test]
fn grid_set_changes_one_cell() {
    let mut map: Grid = create_map();
    map.set(pos(2, 3), Cell::Body);
    assert_eq!(map.get(pos(2, 3)), Cell::Body);
    assert_eq!(map.get(pos(2, 4)), Cell::Empty);
    assert_eq!(map.get(pos(3, 3)), Cell::Empty);
}
