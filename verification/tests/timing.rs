use snake::clock::{Clock, Due, Timer, FOOD_INTERVAL, MOVEMENT_INTERVAL};
use snake::direction::{Direction, Key};
use snake::game::Game;
use snake::grid::{Grid, Position};

fn at(x: i32, y: i32) -> Position {
    Position { x, y }
}

fn path(list: &[(i32, i32)]) -> Vec<Position> {
    list.iter().map(|&(x, y)| at(x, y)).collect()
}

fn fresh() -> Game {
    Game::new(Grid { width: 10, height: 10 }).expect("the grid has a cell")
}

#[test]
fn intervals_in_microseconds() {
    assert_eq!(MOVEMENT_INTERVAL, 150_000);
    assert_eq!(FOOD_INTERVAL, 1_000_000);
}

#[test]
fn new_timer_has_accumulated_nothing() {
    assert_eq!(Timer::new(42), Timer { elapsed: 0, interval: 42 });
    let clock = Clock::new();
    assert_eq!(clock.movement, Timer { elapsed: 0, interval: 150_000 });
    assert_eq!(clock.food, Timer { elapsed: 0, interval: 1_000_000 });
}

#[test]
fn timer_fires_at_frame_after_interval_is_reached() {
    let mut t = Timer::new(100);
    assert!(!t.advance(40));
    assert_eq!(t.elapsed, 40);
    assert!(!t.advance(59));
    assert_eq!(t.elapsed, 99);
    assert!(!t.advance(1));
    assert_eq!(t.elapsed, 100);
    assert!(t.advance(70));
    assert_eq!(t.elapsed, 0);
    assert_eq!(t.interval, 100);
    assert!(!t.advance(70));
    assert_eq!(t.elapsed, 70);
}

#[test]
fn timer_drops_time_of_frame_at_which_it_fires() {
    let mut t = Timer { elapsed: 250, interval: 100 };
    assert!(t.advance(1_000));
    assert_eq!(t, Timer { elapsed: 0, interval: 100 });
}

#[test]
fn timer_with_interval_zero_fires_at_every_frame() {
    let mut t = Timer::new(0);
    for delta in [0, 5, u64::MAX] {
        assert!(t.advance(delta));
        assert_eq!(t.elapsed, 0);
    }
}

#[test]
fn timer_stops_at_largest_value() {
    let mut t = Timer { elapsed: 5, interval: u64::MAX };
    assert!(!t.advance(u64::MAX - 5));
    assert_eq!(t.elapsed, u64::MAX);
    assert!(t.advance(3));
    assert_eq!(t.elapsed, 0);

    let mut t = Timer { elapsed: 5, interval: u64::MAX };
    assert!(!t.advance(u64::MAX));
    assert_eq!(t.elapsed, u64::MAX);

    let mut t = Timer { elapsed: 7, interval: 10 };
    assert!(!t.advance(u64::MAX));
    assert_eq!(t.elapsed, u64::MAX);
    assert!(t.advance(1));
}

#[test]
fn clock_timers_run_independently() {
    let mut clock = Clock::new();
    let mut movement = 0;
    let mut food = 0;
    let mut food_frames = Vec::new();
    for frame in 0..60 {
        let due = clock.advance(50_000);
        if due.movement {
            movement += 1;
            assert_eq!(frame % 4, 3);
        } else {
            assert_ne!(frame % 4, 3);
        }
        if due.food {
            food += 1;
            food_frames.push(frame);
        }
    }
    assert_eq!(movement, 15);
    assert_eq!(food, 2);
    assert_eq!(food_frames, vec![20, 41]);
}

#[test]
fn clock_first_frames() {
    let mut clock = Clock::new();
    assert_eq!(clock.advance(150_000), Due { movement: false, food: false });
    assert_eq!(clock.movement.elapsed, 150_000);
    assert_eq!(clock.food.elapsed, 150_000);
    assert_eq!(clock.advance(850_000), Due { movement: true, food: false });
    assert_eq!(clock.movement.elapsed, 0);
    assert_eq!(clock.food.elapsed, 1_000_000);
    assert_eq!(clock.advance(10), Due { movement: false, food: true });
    assert_eq!(clock.movement.elapsed, 10);
    assert_eq!(clock.food.elapsed, 0);
}

#[test]
fn frame_without_tick_takes_key_only() {
    let mut g = fresh();
    let mut clock = Clock::new();
    let spawn = g.frame(&mut clock, Some(Key::Left), 16_000);
    assert!(!spawn);
    assert_eq!(g.direction(), Direction::Left);
    assert_eq!(g.segments(), &path(&[(5, 5), (5, 5)]));
    assert_eq!(clock.movement.elapsed, 16_000);
    assert_eq!(clock.food.elapsed, 16_000);
}

#[test]
fn frame_takes_key_before_it_moves() {
    let mut g = fresh();
    let mut clock = Clock::new();
    assert!(!g.frame(&mut clock, None, 150_000));
    assert_eq!(g.segments(), &path(&[(5, 5), (5, 5)]));
    assert!(!g.frame(&mut clock, Some(Key::Right), 1));
    assert_eq!(g.direction(), Direction::Right);
    assert_eq!(g.segments(), &path(&[(6, 5), (5, 5)]));
    assert_eq!(clock.movement.elapsed, 0);
    assert_eq!(clock.food.elapsed, 150_001);
}

#[test]
fn frame_eats_before_it_moves() {
    let mut g = fresh();
    let mut clock = Clock::new();
    assert!(!g.frame(&mut clock, None, 150_000));
    assert!(!g.frame(&mut clock, None, 150_000));
    assert_eq!(g.segments(), &path(&[(5, 4), (5, 5)]));
    assert!(g.food(at(5, 4)));
    assert!(g.food(at(5, 3)));
    assert!(!g.frame(&mut clock, None, 150_000));
    assert_eq!(g.len(), 2);
    assert!(!g.frame(&mut clock, None, 150_000));
    assert_eq!(g.len(), 3);
    assert_eq!(g.segments(), &path(&[(5, 3), (5, 4), (5, 5)]));
    assert_eq!(g.food_cells(), &path(&[(5, 3)]));
}

#[test]
fn frame_reports_food_tick() {
    let mut g = fresh();
    let mut clock = Clock::new();
    let mut spawned = Vec::new();
    for frame in 0..25 {
        if g.frame(&mut clock, Some(Key::Other), 100_000) {
            spawned.push(frame);
            assert!(g.food(at(0, 0)));
        }
    }
    assert_eq!(spawned, vec![10, 21]);
    assert_eq!(g.food_cells().len(), 1);
}

#[test]
fn frames_run_snake_into_wall() {
    let mut g = fresh();
    let mut clock = Clock::new();
    let mut heads = Vec::new();
    for _ in 0..14 {
        g.frame(&mut clock, None, 150_000);
        heads.push(g.head());
    }
    let expected = path(&[
        (5, 5),
        (5, 4),
        (5, 4),
        (5, 3),
        (5, 3),
        (5, 2),
        (5, 2),
        (5, 1),
        (5, 1),
        (5, 0),
        (5, 0),
        (5, 5),
        (5, 5),
        (5, 4),
    ]);
    assert_eq!(heads, expected);
    assert_eq!(g.len(), 2);
}
