use brick_breaker::entities::{new_bricks, Brick, Direction, Projectile, Racket};
use brick_breaker::game::{
    ball_stride, elapsed_since, find_first_hit, shifted, Game, Input, State,
};
use brick_breaker::geometry::Rectangle;
use brick_breaker::units::{
    BRICK_HEIGHT, BRICK_WIDTH, PROJ_RADIUS, RACKET_MAX_X, RACKET_POS_Y, RACKET_WIDTH,
    UNITS_PER_PIXEL, WINDOW_HEIGHT, WINDOW_WIDTH,
};

const PX: i64 = UNITS_PER_PIXEL;

const NONE: Input = Input { left: false, right: false, pause: false, confirm: false };
const LEFT: Input = Input { left: true, right: false, pause: false, confirm: false };
const RIGHT: Input = Input { left: false, right: true, pause: false, confirm: false };
const PAUSE: Input = Input { left: false, right: false, pause: true, confirm: false };
const CONFIRM: Input = Input { left: false, right: false, pause: false, confirm: true };

fn running(bricks: Vec<Brick>) -> Game {
    let mut game = Game::new(0);
    game.state = State::Running;
    game.bricks = bricks;
    game
}

fn far_brick() -> Brick {
    Brick { x: 1000 * PX, y: 100 * PX, live: 1 }
}

#[test]
fn new_game_starts_in_the_grace_period() {
    let game = Game::new(42);
    assert_eq!(game.state, State::InitialBreak(42));
    assert_eq!(game.lives, 3);
    assert_eq!(game.last_frame_instant, 42);
    assert_eq!(game.ball, Projectile::new());
    assert_eq!(game.racket, Racket::new());
    assert_eq!(game.bricks, new_bricks());
}

#[test]
fn fresh_ball_rests_above_the_racket() {
    let ball = Projectile::new();
    assert_eq!(ball.x, 640 * PX);
    assert_eq!(ball.y, 623 * PX);
    assert_eq!(ball.speed, 500);
    assert_eq!(ball.direction, Direction { x: 1, y: -1 });
    assert!(!ball.already_in_collision);
    assert_eq!(
        ball.bounding_box(),
        Rectangle { x: 640 * PX, y: 623 * PX, width: 16 * PX, height: 16 * PX }
    );
}

#[test]
fn fresh_racket_is_centred() {
    let racket = Racket::new();
    assert_eq!(racket.x, 576 * PX);
    assert_eq!(racket.direction, 0);
    assert_eq!(racket.x + RACKET_WIDTH / 2, WINDOW_WIDTH / 2);
    assert_eq!(
        racket.bounding_box(),
        Rectangle { x: 576 * PX, y: RACKET_POS_Y, width: 128 * PX, height: 16 * PX }
    );
}

#[test]
fn grid_has_five_rows_of_ten_bricks() {
    let bricks = new_bricks();
    assert_eq!(bricks.len(), 50);
    assert_eq!(bricks[0], Brick { x: 5 * PX, y: 100 * PX, live: 1 });
    assert_eq!(bricks[1], Brick { x: 132_500_000, y: 100 * PX, live: 1 });
    assert_eq!(bricks[9], Brick { x: 1_152_500_000, y: 100 * PX, live: 1 });
    assert_eq!(bricks[10], Brick { x: 5 * PX, y: 137 * PX, live: 1 });
    assert_eq!(bricks[49], Brick { x: 1_152_500_000, y: 248 * PX, live: 1 });
    assert!(bricks.iter().all(|b| b.live == 1));
    assert_eq!(
        bricks[0].bounding_box(),
        Rectangle { x: 5 * PX, y: 100 * PX, width: BRICK_WIDTH, height: BRICK_HEIGHT }
    );
}

#[test]
fn direction_flips_one_axis_at_a_time() {
    let mut d = Direction { x: 1, y: -1 };
    d.flip_x();
    assert_eq!(d, Direction { x: -1, y: -1 });
    d.flip_y();
    assert_eq!(d, Direction { x: -1, y: 1 });
}

#[test]
fn top_wall_turns_the_ball_down() {
    let mut game = running(vec![far_brick()]);
    game.ball.x = 100 * PX;
    game.ball.y = 0;
    game.ball.direction = Direction { x: 1, y: -1 };
    game.ball.speed = 731;
    game.resolve_collisions();
    assert_eq!(game.ball.direction, Direction { x: 1, y: 1 });
    assert_eq!(game.ball.speed, 733);
    assert_eq!(game.ball.x, 100 * PX);
    assert_eq!(game.ball.y, 0);
    assert_eq!(game.state, State::Running);
}

#[test]
fn left_wall_turns_the_ball_right() {
    let mut game = running(vec![far_brick()]);
    game.ball.x = PROJ_RADIUS;
    game.ball.y = 400 * PX;
    game.ball.direction = Direction { x: -1, y: 1 };
    game.resolve_collisions();
    assert_eq!(game.ball.direction, Direction { x: 1, y: 1 });
    assert_eq!(game.ball.speed, 502);
}

#[test]
fn right_wall_turns_the_ball_left() {
    let mut game = running(vec![far_brick()]);
    game.ball.x = WINDOW_WIDTH - PROJ_RADIUS;
    game.ball.y = 400 * PX;
    game.ball.direction = Direction { x: 1, y: 1 };
    game.resolve_collisions();
    assert_eq!(game.ball.direction, Direction { x: -1, y: 1 });
    assert_eq!(game.ball.speed, 502);
}

#[test]
fn ball_clear_of_everything_is_left_alone() {
    let mut game = running(vec![far_brick()]);
    game.ball.x = 300 * PX;
    game.ball.y = 400 * PX;
    let before = game.clone();
    game.resolve_collisions();
    assert_eq!(game, before);
}

#[test]
fn corner_of_the_field_counts_two_walls() {
    let mut game = running(vec![far_brick()]);
    game.ball.x = 0;
    game.ball.y = -PX;
    game.ball.direction = Direction { x: -1, y: -1 };
    game.resolve_collisions();
    assert_eq!(game.ball.direction, Direction { x: 1, y: 1 });
    assert_eq!(game.ball.speed, 504);
}

#[test]
fn wide_overlap_with_a_brick_flips_the_vertical_direction() {
    let mut game = running(vec![Brick { x: 500 * PX, y: 300 * PX, live: 2 }]);
    game.ball.x = 494 * PX;
    game.ball.y = 328 * PX;
    game.ball.direction = Direction { x: 1, y: -1 };
    game.resolve_collisions();
    assert_eq!(game.ball.direction, Direction { x: 1, y: 1 });
    assert_eq!(game.ball.speed, 504);
    assert_eq!(game.bricks, vec![Brick { x: 500 * PX, y: 300 * PX, live: 1 }]);
    assert_eq!(game.state, State::Running);
}

#[test]
fn tall_overlap_with_a_brick_flips_the_horizontal_direction() {
    let mut game = running(vec![Brick { x: 500 * PX, y: 300 * PX, live: 2 }]);
    game.ball.x = 488 * PX;
    game.ball.y = 310 * PX;
    game.ball.direction = Direction { x: 1, y: -1 };
    game.resolve_collisions();
    assert_eq!(game.ball.direction, Direction { x: -1, y: -1 });
    assert_eq!(game.ball.speed, 504);
    assert_eq!(game.bricks[0].live, 1);
}

#[test]
fn square_overlap_with_a_brick_flips_both_directions() {
    let mut game = running(vec![Brick { x: 500 * PX, y: 300 * PX, live: 3 }]);
    game.ball.x = 490 * PX;
    game.ball.y = 326 * PX;
    game.ball.direction = Direction { x: 1, y: -1 };
    game.resolve_collisions();
    assert_eq!(game.ball.direction, Direction { x: -1, y: 1 });
    assert_eq!(game.ball.speed, 504);
    assert_eq!(game.bricks[0].live, 2);
}

#[test]
fn only_the_first_overlapping_brick_is_hit() {
    let first = Brick { x: 500 * PX, y: 300 * PX, live: 2 };
    let second = Brick { x: 500 * PX, y: 300 * PX, live: 2 };
    let mut game = running(vec![far_brick(), first, second]);
    game.ball.x = 494 * PX;
    game.ball.y = 328 * PX;
    assert_eq!(find_first_hit(&game.bricks, game.ball.bounding_box()), 1);
    game.resolve_collisions();
    assert_eq!(game.bricks, vec![far_brick(), Brick { live: 1, ..first }, second]);
    assert_eq!(game.ball.speed, 504);
}

#[test]
fn first_hit_is_the_length_where_nothing_is_hit() {
    let bricks = vec![far_brick(), far_brick()];
    let ball = Rectangle { x: 0, y: 0, width: PROJ_RADIUS, height: PROJ_RADIUS };
    assert_eq!(find_first_hit(&bricks, ball), 2);
    assert_eq!(find_first_hit(&Vec::new(), ball), 0);
}

#[test]
fn dead_brick_leaves_and_the_others_keep_their_order() {
    let a = Brick { x: 100 * PX, y: 300 * PX, live: 1 };
    let b = Brick { x: 500 * PX, y: 300 * PX, live: 1 };
    let c = Brick { x: 900 * PX, y: 300 * PX, live: 4 };
    let mut game = running(vec![a, b, c]);
    game.ball.x = 494 * PX;
    game.ball.y = 328 * PX;
    game.resolve_collisions();
    assert_eq!(game.bricks, vec![a, c]);
    assert!(game.bricks.iter().all(|brick| brick.live >= 1 && brick.live <= 5));
    assert_eq!(game.state, State::Running);
}

#[test]
fn clearing_the_last_brick_wins_in_the_same_update() {
    let mut game = running(vec![Brick { x: 500 * PX, y: 300 * PX, live: 1 }]);
    game.ball.x = 494 * PX;
    game.ball.y = 328 * PX;
    game.calculate_physics(16_667, 1_000_000);
    assert!(game.bricks.is_empty());
    assert_eq!(game.state, State::Winning);
}

#[test]
fn racket_bounce_happens_once_per_overlap() {
    let mut game = running(vec![far_brick()]);
    game.ball.x = 600 * PX;
    game.ball.y = 635 * PX;
    game.ball.direction = Direction { x: 1, y: 1 };
    game.ball.already_in_collision = false;
    game.resolve_collisions();
    assert_eq!(game.ball.direction, Direction { x: 1, y: -1 });
    assert_eq!(game.ball.speed, 502);
    assert!(game.ball.already_in_collision);
    game.resolve_collisions();
    assert_eq!(game.ball.direction, Direction { x: 1, y: -1 });
    assert_eq!(game.ball.speed, 502);
    assert!(game.ball.already_in_collision);
}

#[test]
fn racket_latch_clears_when_the_ball_leaves() {
    let mut game = running(vec![far_brick()]);
    game.ball.x = 600 * PX;
    game.ball.y = 400 * PX;
    game.ball.already_in_collision = true;
    game.resolve_collisions();
    assert!(!game.ball.already_in_collision);
    assert_eq!(game.ball.speed, 500);
    game.ball.y = 635 * PX;
    game.resolve_collisions();
    assert_eq!(game.ball.speed, 502);
    assert_eq!(game.ball.direction, Direction { x: 1, y: 1 });
}

#[test]
fn ball_that_touches_the_racket_edge_does_not_bounce() {
    let mut game = running(vec![far_brick()]);
    game.ball.x = 600 * PX;
    game.ball.y = RACKET_POS_Y - PROJ_RADIUS;
    game.resolve_collisions();
    assert!(!game.ball.already_in_collision);
    assert_eq!(game.ball.speed, 500);
}

#[test]
fn speed_stops_at_the_largest_value() {
    let mut game = running(vec![far_brick()]);
    game.ball.x = 100 * PX;
    game.ball.y = 0;
    game.ball.speed = u32::MAX - 1;
    game.resolve_collisions();
    assert_eq!(game.ball.speed, u32::MAX);
    game.resolve_collisions();
    assert_eq!(game.ball.speed, u32::MAX);
}

#[test]
fn early_input_steers_the_racket_but_does_not_launch() {
    let mut game = Game::new(1_000);
    let ball = game.ball;
    game.handle_input(LEFT, 1_000 + 499_999);
    assert_eq!(game.racket.direction, -1);
    assert_eq!(game.state, State::InitialBreak(1_000));
    assert_eq!(game.ball, ball);
}

#[test]
fn grace_period_must_be_exceeded() {
    let mut game = Game::new(1_000);
    game.handle_input(RIGHT, 501_000);
    assert_eq!(game.state, State::InitialBreak(1_000));
    game.handle_input(RIGHT, 501_001);
    assert_eq!(game.state, State::Running);
}

#[test]
fn launch_takes_the_direction_of_the_key() {
    let mut game = Game::new(0);
    game.handle_input(LEFT, 600_000);
    assert_eq!(game.state, State::Running);
    assert_eq!(game.ball.direction, Direction { x: -1, y: -1 });
    assert_eq!(game.racket.direction, -1);

    let mut other = Game::new(0);
    other.ball.direction = Direction { x: -1, y: -1 };
    other.handle_input(RIGHT, 600_000);
    assert_eq!(other.state, State::Running);
    assert_eq!(other.ball.direction, Direction { x: 1, y: -1 });
    assert_eq!(other.racket.direction, 1);
}

#[test]
fn no_direction_or_both_directions_rest_the_racket() {
    let mut game = Game::new(0);
    game.racket.direction = 1;
    game.handle_input(NONE, 600_000);
    assert_eq!(game.racket.direction, 0);
    assert_eq!(game.state, State::InitialBreak(0));
    let both = Input { left: true, right: true, pause: false, confirm: false };
    game.racket.direction = -1;
    game.handle_input(both, 700_000);
    assert_eq!(game.racket.direction, 0);
    assert_eq!(game.state, State::InitialBreak(0));
}

#[test]
fn clock_that_runs_backwards_counts_as_no_time() {
    assert_eq!(elapsed_since(10, 3), 0);
    assert_eq!(elapsed_since(3, 10), 7);
    let mut game = Game::new(5_000_000);
    game.handle_input(LEFT, 0);
    assert_eq!(game.state, State::InitialBreak(5_000_000));
}

#[test]
fn pause_key_swaps_running_and_paused() {
    let mut game = running(vec![far_brick()]);
    game.handle_input(PAUSE, 0);
    assert_eq!(game.state, State::Paused);
    game.handle_input(PAUSE, 0);
    assert_eq!(game.state, State::Running);
}

#[test]
fn pause_key_does_nothing_in_other_phases() {
    for state in [State::InitialBreak(7), State::Winning, State::GameOver] {
        let mut game = Game::new(7);
        game.state = state;
        game.handle_input(PAUSE, 8);
        assert_eq!(game.state, state);
    }
}

#[test]
fn launch_and_pause_in_one_frame_end_paused() {
    let mut game = Game::new(0);
    let input = Input { left: true, right: false, pause: true, confirm: false };
    game.handle_input(input, 600_000);
    assert_eq!(game.state, State::Paused);
    assert_eq!(game.ball.direction.x, -1);
}

#[test]
fn confirm_begins_a_new_game_after_the_end() {
    for state in [State::Winning, State::GameOver] {
        let mut game = running(vec![]);
        game.state = state;
        game.lives = 0;
        game.ball.speed = 900;
        game.handle_input(CONFIRM, 77);
        assert_eq!(game, Game::new(77));
    }
}

#[test]
fn confirm_does_nothing_while_the_game_goes_on() {
    for state in [State::Running, State::Paused, State::InitialBreak(3)] {
        let mut game = running(vec![far_brick()]);
        game.state = state;
        game.lives = 1;
        let before = game.clone();
        game.handle_input(CONFIRM, 77);
        assert_eq!(game, before);
    }
}

#[test]
fn lost_ball_costs_a_life_and_is_served_again() {
    let mut game = running(vec![far_brick()]);
    game.ball.y = WINDOW_HEIGHT + PROJ_RADIUS;
    game.ball.speed = 800;
    game.racket.x = 0;
    game.lives = 2;
    game.calculate_physics(16_667, 9_000);
    assert_eq!(game.lives, 1);
    assert_eq!(game.state, State::InitialBreak(9_000));
    assert_eq!(game.ball, Projectile::new());
    assert_eq!(game.racket, Racket::new());
    assert_eq!(game.bricks, vec![far_brick()]);
}

#[test]
fn lost_ball_without_lives_ends_the_game() {
    let mut game = running(vec![far_brick()]);
    game.ball.y = WINDOW_HEIGHT + PROJ_RADIUS + 1;
    game.lives = 0;
    let ball = game.ball;
    game.calculate_physics(16_667, 9_000);
    assert_eq!(game.state, State::GameOver);
    assert_eq!(game.lives, 0);
    assert_eq!(game.ball, ball);
}

#[test]
fn ball_just_above_the_bottom_is_still_in_play() {
    let mut game = running(vec![far_brick()]);
    game.ball.y = WINDOW_HEIGHT + PROJ_RADIUS - 1;
    game.check_bottom_exit(5);
    assert_eq!(game.state, State::Running);
    assert_eq!(game.lives, 3);
}

#[test]
fn bottom_exit_is_tested_in_every_phase() {
    let mut game = running(vec![far_brick()]);
    game.state = State::Paused;
    game.ball.y = WINDOW_HEIGHT + PROJ_RADIUS;
    game.calculate_physics(16_667, 5);
    assert_eq!(game.state, State::InitialBreak(5));
    assert_eq!(game.lives, 2);
}

#[test]
fn physics_rests_while_paused() {
    let mut game = running(vec![far_brick()]);
    game.state = State::Paused;
    game.racket.direction = 1;
    game.ball.y = 0;
    let before = game.clone();
    game.calculate_physics(1_000_000, 5);
    assert_eq!(game, before);
}

#[test]
fn racket_moves_at_its_speed() {
    let mut game = running(vec![far_brick()]);
    game.racket.direction = 1;
    game.move_racket(16_667);
    assert_eq!(game.racket.x, 576 * PX + 11_666_900);
    game.racket.direction = -1;
    game.move_racket(100_000);
    assert_eq!(game.racket.x, 576 * PX + 11_666_900 - 70_000_000);
    game.racket.direction = 0;
    game.move_racket(100_000);
    assert_eq!(game.racket.x, 576 * PX + 11_666_900 - 70_000_000);
}

#[test]
fn racket_stays_inside_the_window() {
    let mut game = running(vec![far_brick()]);
    game.racket.direction = -1;
    game.move_racket(10_000_000);
    assert_eq!(game.racket.x, 0);
    game.racket.direction = 1;
    game.move_racket(u64::MAX);
    assert_eq!(game.racket.x, RACKET_MAX_X);
    assert_eq!(RACKET_MAX_X, WINDOW_WIDTH - RACKET_WIDTH);
    game.racket.direction = -1;
    game.move_racket(u64::MAX);
    assert_eq!(game.racket.x, 0);
}

#[test]
fn ball_travels_along_the_diagonal() {
    assert_eq!(ball_stride(500, 1_000_000), 353_553_500);
    assert_eq!(ball_stride(500, 16_667), 5_892_676);
    assert_eq!(ball_stride(0, 16_667), 0);
    let mut game = running(vec![far_brick()]);
    game.advance_ball(1_000_000);
    assert_eq!(game.ball.x, 640 * PX + 353_553_500);
    assert_eq!(game.ball.y, 623 * PX - 353_553_500);
    assert_eq!(game.ball.speed, 500);
    assert_eq!(game.ball.direction, Direction { x: 1, y: -1 });
}

#[test]
fn coordinates_stop_at_the_ends_of_their_range() {
    assert_eq!(shifted(10, 1, 5), 15);
    assert_eq!(shifted(10, -1, 25), -15);
    assert_eq!(shifted(i64::MAX - 1, 1, 5), i64::MAX);
    assert_eq!(shifted(i64::MIN + 1, -1, 5), i64::MIN);
    let mut game = running(vec![far_brick()]);
    game.ball.speed = u32::MAX;
    game.advance_ball(u64::MAX);
    assert_eq!(game.ball.x, i64::MAX);
    assert_eq!(game.ball.y, i64::MIN);
}

#[test]
fn one_update_moves_racket_then_collides_then_moves_ball() {
    let mut game = running(vec![far_brick()]);
    game.racket.direction = -1;
    game.ball.x = 100 * PX;
    game.ball.y = 0;
    game.ball.direction = Direction { x: 1, y: -1 };
    game.calculate_physics(1_000_000, 0);
    assert_eq!(game.racket.x, 0);
    assert_eq!(game.ball.direction, Direction { x: 1, y: 1 });
    assert_eq!(game.ball.speed, 502);
    assert_eq!(game.ball.x, 100 * PX + 354_967_714);
    assert_eq!(game.ball.y, 354_967_714);
}

#[test]
fn frame_is_due_after_more_than_a_sixtieth_of_a_second() {
    let game = Game::new(1_000);
    assert_eq!(game.frame_due(1_000), None);
    assert_eq!(game.frame_due(1_000 + 16_666), None);
    assert_eq!(game.frame_due(1_000 + 16_667), Some(16_667));
    assert_eq!(game.frame_due(0), None);
}

#[test]
fn update_waits_for_the_frame() {
    let mut game = Game::new(0);
    game.state = State::Running;
    let before = game.clone();
    assert!(!game.update(LEFT, 10_000));
    assert_eq!(game, before);
    assert!(game.update(LEFT, 100_000));
    assert_eq!(game.racket.direction, -1);
    assert_eq!(game.racket.x, 576 * PX - 70_000_000);
    assert_eq!(game.last_frame_instant, 0);
    game.frame_shown(100_500);
    assert_eq!(game.last_frame_instant, 100_500);
    assert!(!game.update(LEFT, 100_600));
}

#[test]
fn long_play_keeps_the_game_valid() {
    let mut game = Game::new(0);
    let mut now: u64 = 0;
    for step in 0u64..20_000 {
        now += 16_667;
        let input = Input {
            left: step % 7 < 3,
            right: step % 5 < 2,
            pause: step % 997 == 0,
            confirm: step % 1013 == 0,
        };
        if game.update(input, now) {
            game.frame_shown(now);
        }
        assert!(game.ball.direction.x == 1 || game.ball.direction.x == -1);
        assert!(game.ball.direction.y == 1 || game.ball.direction.y == -1);
        assert!(0 <= game.racket.x && game.racket.x <= RACKET_MAX_X);
        assert!(game.bricks.iter().all(|brick| brick.live >= 1 && brick.live <= 5));
        assert!(game.lives <= 3);
        assert!(game.is_valid());
    }
}

#[test]
fn validity_is_tested_part_by_part() {
    let mut game = Game::new(0);
    assert!(game.is_valid());
    game.ball.direction.x = 0;
    assert!(!game.is_valid());
    game.ball.direction.x = -1;
    assert!(game.is_valid());
    game.ball.direction.y = 2;
    assert!(!game.is_valid());
    game.ball.direction.y = 1;
    game.racket.x = RACKET_MAX_X + 1;
    assert!(!game.is_valid());
    game.racket.x = RACKET_MAX_X;
    assert!(game.is_valid());
    game.racket.direction = 2;
    assert!(!game.is_valid());
    game.racket.direction = 1;
    game.lives = 4;
    assert!(!game.is_valid());
    game.lives = 0;
    game.bricks[49].live = 0;
    assert!(!game.is_valid());
    game.bricks[49].live = 6;
    assert!(!game.is_valid());
    game.bricks[49].live = 5;
    assert!(game.is_valid());
    game.bricks.clear();
    assert!(game.is_valid());
}
