use snake::{do_game_move, Direction, Game, Location, BASELINE_CAPACITY, TICK_THRESHOLD_MS};
use std::collections::VecDeque;

fn game_with(trail_cells: Vec<Location>, heading: Direction, apple: Location) -> Game {
    Game {
        trail: VecDeque::from(trail_cells),
        trail_len: BASELINE_CAPACITY,
        grid_size: 20,
        player_direction: heading,
        apple,
        waiting_time: 0,
    }
}

#[test]
fn new_game_starts_within_bounds() {
    let game = Game::new();
    assert_eq!(game.grid_size, 20);
    assert_eq!(game.trail.len(), 1);
    let head = &game.trail[0];
    assert!(1 <= head.x && head.x < 20);
    assert!(1 <= head.y && head.y < 20);
    assert!(1 <= game.apple.x && game.apple.x < 20);
    assert!(1 <= game.apple.y && game.apple.y < 20);
    assert_eq!(game.trail_len, BASELINE_CAPACITY);
    assert_eq!(game.player_direction, Direction::Right);
    assert_eq!(game.waiting_time, 0);
}

#[test]
fn default_game_matches_new() {
    let game = Game::default();
    assert_eq!(game.grid_size, 20);
    assert_eq!(game.trail.len(), 1);
    assert_eq!(game.trail_len, BASELINE_CAPACITY);
    assert_eq!(game.player_direction, Direction::Right);
}

#[test]
fn change_dir_rejects_exact_opposite() {
    let mut game = game_with(vec![Location::new(10, 10)], Direction::Right, Location::new(1, 1));
    game.change_dir(Direction::Left);
    assert_eq!(game.player_direction, Direction::Right);

    game.player_direction = Direction::Up;
    game.change_dir(Direction::Down);
    assert_eq!(game.player_direction, Direction::Up);
}

#[test]
fn change_dir_accepts_everything_else() {
    let mut game = game_with(vec![Location::new(10, 10)], Direction::Right, Location::new(1, 1));
    game.change_dir(Direction::Up);
    assert_eq!(game.player_direction, Direction::Up);
    game.change_dir(Direction::Up);
    assert_eq!(game.player_direction, Direction::Up);
    game.change_dir(Direction::Right);
    assert_eq!(game.player_direction, Direction::Right);
    game.change_dir(Direction::Down);
    assert_eq!(game.player_direction, Direction::Down);
}

#[test]
fn step_below_threshold_only_accumulates() {
    let mut game = game_with(
        vec![Location::new(10, 10)],
        Direction::Right,
        Location::new(11, 10),
    );
    do_game_move(&mut game, 50);
    assert_eq!(game.waiting_time, 50);
    assert_eq!(game.trail, VecDeque::from(vec![Location::new(10, 10)]));
    assert_eq!(game.apple, Location::new(11, 10));
    assert_eq!(game.trail_len, BASELINE_CAPACITY);
    do_game_move(&mut game, 49);
    assert_eq!(game.waiting_time, 99);
    assert_eq!(game.trail, VecDeque::from(vec![Location::new(10, 10)]));
}

#[test]
fn accumulated_time_reaching_threshold_fires_one_movement() {
    let mut game = game_with(vec![Location::new(10, 10)], Direction::Right, Location::new(1, 1));
    do_game_move(&mut game, 60);
    assert_eq!(game.trail.len(), 1);
    do_game_move(&mut game, 40);
    assert_eq!(game.waiting_time, 0);
    assert_eq!(
        game.trail,
        VecDeque::from(vec![Location::new(11, 10), Location::new(10, 10)])
    );
}

#[test]
fn step_onto_target_grows_and_relocates() {
    let mut game = game_with(
        vec![Location::new(10, 10)],
        Direction::Right,
        Location::new(11, 10),
    );
    do_game_move(&mut game, TICK_THRESHOLD_MS);
    assert_eq!(
        game.trail,
        VecDeque::from(vec![Location::new(11, 10), Location::new(10, 10)])
    );
    assert_eq!(game.trail_len, 6);
    assert!(1 <= game.apple.x && game.apple.x < 20);
    assert!(1 <= game.apple.y && game.apple.y < 20);
    assert_eq!(game.waiting_time, 0);
}

#[test]
fn step_into_trail_resets_capacity_without_growth() {
    let mut game = game_with(
        vec![Location::new(4, 5), Location::new(5, 5), Location::new(4, 4)],
        Direction::Right,
        Location::new(1, 1),
    );
    game.trail_len = 9;
    do_game_move(&mut game, TICK_THRESHOLD_MS);
    assert_eq!(game.trail_len, BASELINE_CAPACITY);
    assert!(game.trail.len() <= game.trail_len);
    assert_eq!(
        game.trail,
        VecDeque::from(vec![Location::new(4, 5), Location::new(5, 5), Location::new(4, 4)])
    );
    assert_eq!(game.apple, Location::new(1, 1));
}

#[test]
fn collision_truncates_a_long_trail_to_baseline() {
    let cells: Vec<Location> = vec![
        Location::new(4, 5),
        Location::new(5, 5),
        Location::new(5, 6),
        Location::new(4, 6),
        Location::new(3, 6),
        Location::new(2, 6),
        Location::new(2, 5),
    ];
    let mut game = game_with(cells, Direction::Right, Location::new(1, 1));
    game.trail_len = 8;
    do_game_move(&mut game, TICK_THRESHOLD_MS);
    assert_eq!(game.trail_len, BASELINE_CAPACITY);
    assert_eq!(game.trail.len(), BASELINE_CAPACITY);
    assert_eq!(
        game.trail,
        VecDeque::from(vec![
            Location::new(4, 5),
            Location::new(5, 5),
            Location::new(5, 6),
            Location::new(4, 6),
            Location::new(3, 6),
        ])
    );
}

#[test]
fn trail_never_outgrows_capacity() {
    let mut game = game_with(vec![Location::new(1, 10)], Direction::Right, Location::new(1, 1));
    for _ in 0..8 {
        do_game_move(&mut game, TICK_THRESHOLD_MS);
        assert!(game.trail.len() <= game.trail_len);
    }
    assert_eq!(game.trail.len(), BASELINE_CAPACITY);
    assert_eq!(game.trail[0], Location::new(9, 10));
}

#[test]
fn movement_wraps_at_the_grid_edge() {
    let mut game = game_with(vec![Location::new(19, 10)], Direction::Right, Location::new(1, 1));
    do_game_move(&mut game, TICK_THRESHOLD_MS);
    assert_eq!(game.trail[0], Location::new(0, 10));
}

#[test]
fn occupies_reports_exactly_the_trail() {
    let game = game_with(
        vec![Location::new(4, 5), Location::new(5, 5)],
        Direction::Right,
        Location::new(1, 1),
    );
    assert!(game.occupies(&Location::new(4, 5)));
    assert!(game.occupies(&Location::new(5, 5)));
    assert!(!game.occupies(&Location::new(5, 4)));
    assert!(!game.occupies(&Location::new(1, 1)));
}

#[test]
fn is_target_reports_exactly_the_apple() {
    let game = game_with(vec![Location::new(4, 5)], Direction::Right, Location::new(2, 3));
    assert!(game.is_target(&Location::new(2, 3)));
    assert!(!game.is_target(&Location::new(3, 2)));
    assert!(!game.is_target(&Location::new(4, 5)));
}
