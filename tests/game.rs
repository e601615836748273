use snake_core::food::FoodManager;
use snake_core::geometry::{in_bounds, Direction, Position};
use snake_core::round::{Config, Round};
use snake_core::snake::Snake;
use snake_core::timer::RepeatingTimer;

fn p(x: i32, y: i32) -> Position {
    Position { x, y }
}

fn round_with(segments: Vec<Position>, heading: Direction) -> Round {
    let mut g = Round::new(Config::standard());
    g.score = (segments.len() - 2) as u64;
    g.snake = Snake::from_segments(segments, heading);
    g
}

#[test]
fn opposite_headings() {
    assert_eq!(Direction::Left.opposite(), Direction::Right);
    assert_eq!(Direction::Right.opposite(), Direction::Left);
    assert_eq!(Direction::Up.opposite(), Direction::Down);
    assert_eq!(Direction::Down.opposite(), Direction::Up);
}

#[test]
fn steps_move_one_cell() {
    assert_eq!(p(4, 4).step(Direction::Left), p(3, 4));
    assert_eq!(p(4, 4).step(Direction::Right), p(5, 4));
    assert_eq!(p(4, 4).step(Direction::Up), p(4, 5));
    assert_eq!(p(4, 4).step(Direction::Down), p(4, 3));
}

#[test]
fn bounds_of_the_arena() {
    assert!(in_bounds(p(0, 0), 10, 10));
    assert!(in_bounds(p(9, 9), 10, 10));
    assert!(!in_bounds(p(10, 3), 10, 10));
    assert!(!in_bounds(p(3, 10), 10, 10));
    assert!(!in_bounds(p(-1, 3), 10, 10));
    assert!(!in_bounds(p(3, -1), 10, 10));
}

#[test]
fn spawned_snake_is_canonical() {
    let s = Snake::spawn();
    assert_eq!(s.segments, vec![p(3, 3), p(3, 2)]);
    assert_eq!(s.heading(), Direction::Up);
    assert_eq!(s.head(), p(3, 3));
    assert_eq!(s.len(), 2);
}

#[test]
fn still_without_step_whatever_the_input() {
    let inputs = [None, Some(Direction::Left), Some(Direction::Right), Some(Direction::Up), Some(Direction::Down)];
    for input in inputs {
        let mut g = Round::new(Config::standard());
        let r = g.advance_tick(input, 149);
        assert!(!r.moved);
        assert_eq!(g.snake_positions(), &vec![p(3, 3), p(3, 2)]);
    }
}

#[test]
fn reversal_is_refused_and_step_keeps_heading() {
    for h in [Direction::Left, Direction::Up, Direction::Right, Direction::Down] {
        let mut s = Snake::from_segments(vec![p(5, 5), p(5, 5)], h);
        assert!(!s.set_heading(h.opposite()));
        assert_eq!(s.heading(), h);
        let (head, _) = s.advance();
        assert_eq!(head, p(5, 5).step(h));
    }
}

#[test]
fn reversal_refused_in_a_tick() {
    let mut g = Round::new(Config::standard());
    let r = g.advance_tick(Some(Direction::Down), 150);
    assert!(r.reversal_refused);
    assert!(r.moved);
    assert_eq!(g.snake_positions(), &vec![p(3, 4), p(3, 3)]);
    assert_eq!(g.snake.heading(), Direction::Up);
}

#[test]
fn turn_is_taken() {
    let mut s = Snake::spawn();
    assert!(s.set_heading(Direction::Left));
    assert_eq!(s.heading(), Direction::Left);
}

#[test]
fn body_follows_the_leader() {
    let mut s = Snake::from_segments(vec![p(4, 4), p(4, 3), p(3, 3), p(2, 3), p(2, 2)], Direction::Right);
    let (head, tail) = s.advance();
    assert_eq!(head, p(5, 4));
    assert_eq!(tail, p(2, 2));
    assert_eq!(s.segments, vec![p(5, 4), p(4, 4), p(4, 3), p(3, 3), p(2, 3)]);
}

#[test]
fn contains_body_checks_every_segment() {
    let s = Snake::from_segments(vec![p(3, 3), p(3, 2), p(3, 1)], Direction::Up);
    assert!(s.contains_body(p(3, 3)));
    assert!(s.contains_body(p(3, 1)));
    assert!(!s.contains_body(p(3, 4)));
}

#[test]
fn self_collision_ends_round() {
    let mut g = round_with(vec![p(3, 3), p(3, 2), p(3, 1), p(3, 0)], Direction::Down);
    let r = g.advance_tick(None, 150);
    assert!(r.moved);
    assert!(r.game_over);
    assert_eq!(r.round_points, Some(2));
    assert_eq!(g.snake_positions(), &vec![p(3, 3), p(3, 2)]);
}

#[test]
fn left_wall_ends_round_on_every_row() {
    for y in 0..10 {
        let mut g = round_with(vec![p(0, y), p(1, y)], Direction::Left);
        let r = g.advance_tick(None, 150);
        assert!(r.game_over);
        assert_eq!(r.round_points, None);
    }
}

#[test]
fn other_walls_end_round() {
    let mut g = round_with(vec![p(9, 4), p(8, 4)], Direction::Right);
    assert!(g.advance_tick(None, 150).game_over);
    let mut g = round_with(vec![p(4, 9), p(4, 8)], Direction::Up);
    assert!(g.advance_tick(None, 150).game_over);
    let mut g = round_with(vec![p(4, 0), p(4, 1)], Direction::Down);
    assert!(g.advance_tick(None, 150).game_over);
}

#[test]
fn eating_grows_and_scores() {
    let mut g = round_with(vec![p(5, 4), p(5, 3), p(4, 3)], Direction::Up);
    g.spawn_food_at(p(5, 5));
    let r = g.advance_tick(None, 150);
    assert!(r.ate);
    assert!(!r.game_over);
    assert_eq!(g.snake_positions(), &vec![p(5, 5), p(5, 4), p(5, 3), p(4, 3)]);
    assert_eq!(g.score(), 2);
    assert!(g.food_items().is_empty());
}

#[test]
fn restart_is_fresh() {
    let mut g = round_with(vec![p(9, 4), p(8, 4), p(7, 4)], Direction::Right);
    g.spawn_food_at(p(1, 1));
    g.spawn_food_at(p(2, 2));
    let r = g.advance_tick(Some(Direction::Up), 150);
    assert!(!r.game_over);
    let r = g.advance_tick(Some(Direction::Right), 150);
    assert!(r.game_over);
    assert_eq!(r.round_points, Some(1));
    assert_eq!(g.snake_positions(), &vec![p(3, 3), p(3, 2)]);
    assert_eq!(g.snake.heading(), Direction::Up);
    assert_eq!(g.score(), 0);
    assert!(g.food_items().is_empty());
}

#[test]
fn food_cadence() {
    let mut f = FoodManager::new(1000);
    assert_eq!(f.tick(1000), 1);
    let mut f = FoodManager::new(1000);
    assert_eq!(f.tick(999), 0);
    let mut f = FoodManager::new(1000);
    assert_eq!(f.tick(2500), 2);
    assert_eq!(f.spawn_timer.elapsed_ms, 500);
    assert_eq!(f.tick(500), 1);
    assert_eq!(f.spawn_timer.elapsed_ms, 0);
}

#[test]
fn timer_keeps_remainder() {
    let mut t = RepeatingTimer::new(150);
    assert_eq!(t.tick(100), 0);
    assert_eq!(t.tick(100), 1);
    assert_eq!(t.elapsed_ms, 50);
    let total = 50u128 + u64::MAX as u128;
    assert_eq!(t.tick(u64::MAX) as u128, total / 150);
    assert_eq!(t.elapsed_ms as u128, total % 150);
}

#[test]
fn food_may_pile_up() {
    let mut f = FoodManager::new(1000);
    let a = f.spawn_at(p(2, 2));
    let b = f.spawn_at(p(2, 2));
    assert_ne!(a, b);
    assert_eq!(f.items.len(), 2);
    f.remove(a);
    assert_eq!(f.items.len(), 1);
    assert_eq!(f.items[0].id, b);
}

#[test]
fn eating_takes_all_food_on_the_cell() {
    let mut f = FoodManager::new(1000);
    f.spawn_at(p(2, 2));
    f.spawn_at(p(4, 4));
    f.spawn_at(p(2, 2));
    assert!(f.eat_at(p(2, 2)));
    assert_eq!(f.items.len(), 1);
    assert_eq!(f.items[0].position, p(4, 4));
    assert!(!f.eat_at(p(7, 7)));
}

#[test]
fn food_on_the_snake_is_cleared() {
    let mut g = Round::new(Config::standard());
    g.spawn_food_at(p(3, 2));
    g.spawn_food_at(p(6, 6));
    let r = g.advance_tick(None, 10);
    assert!(!r.moved);
    assert_eq!(g.food_items().len(), 1);
    assert_eq!(g.food_items()[0].position, p(6, 6));
}

#[test]
fn random_food_lies_in_the_arena() {
    let mut f = FoodManager::new(1000);
    for _ in 0..200 {
        f.spawn_random(3, 2);
    }
    assert_eq!(f.items.len(), 200);
    for item in &f.items {
        assert!(in_bounds(item.position, 3, 2));
    }
    let mut f = FoodManager::new(1000);
    for _ in 0..50 {
        f.spawn_random(1, 1);
        assert_eq!(f.items.last().unwrap().position, p(0, 0));
    }
}

#[test]
fn full_tick_spawns_food() {
    let mut g = Round::new(Config::standard());
    let r = g.tick(None, 2000);
    assert_eq!(r.food_due, 2);
    assert!(r.moved);
    assert_eq!(g.snake_positions(), &vec![p(3, 4), p(3, 3)]);
    assert_eq!(g.food_items().len(), 2);
    for item in g.food_items() {
        assert!(in_bounds(item.position, 10, 10));
    }
}

#[test]
fn standard_config() {
    let c = Config::standard();
    assert_eq!((c.arena_width, c.arena_height, c.move_interval_ms, c.food_interval_ms), (10, 10, 150, 1000));
}
