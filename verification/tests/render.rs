use brick_breaker::entities::Brick;
use brick_breaker::game::{Game, State};
use brick_breaker::render::{
    draw_center_string, hi_color_of, lo_color_of, opaque_color, shape_of_brick, to_pixel, Banner,
    Circle, Color, GradientRectangle, TextPlacement,
};

const WHITE: Color = Color { r: 255, g: 255, b: 255, a: 255 };

#[test]
fn coordinates_round_towards_zero() {
    assert_eq!(to_pixel(0), 0);
    assert_eq!(to_pixel(999_999), 0);
    assert_eq!(to_pixel(1_000_000), 1);
    assert_eq!(to_pixel(122_500_000), 122);
    assert_eq!(to_pixel(-999_999), 0);
    assert_eq!(to_pixel(-1_500_000), -1);
    assert_eq!(to_pixel(i64::MAX), i32::MAX);
    assert_eq!(to_pixel(i64::MIN), i32::MIN);
}

#[test]
fn palette_has_six_tiers() {
    let hi = [
        (0xFF, 0, 0),
        (0xFF, 0xFF, 0),
        (0, 0xFF, 0),
        (0, 0xFF, 0xFF),
        (0, 0, 0xFF),
        (0xFF, 0, 0xFF),
    ];
    let lo = [
        (0x3F, 0, 0),
        (0x3F, 0x2F, 0),
        (0, 0x3F, 0),
        (0, 0x3F, 0x3F),
        (0, 0, 0x3F),
        (0x3F, 0, 0x3F),
    ];
    for live in 0..6usize {
        let (r, g, b) = hi[live];
        assert_eq!(hi_color_of(live), Color { r, g, b, a: 0xFF });
        let (r, g, b) = lo[live];
        assert_eq!(lo_color_of(live), Color { r, g, b, a: 0xFF });
    }
    assert_eq!(opaque_color(1, 2, 3), Color { r: 1, g: 2, b: 3, a: 255 });
}

#[test]
fn brick_is_drawn_in_the_colours_of_its_health() {
    let shape = shape_of_brick(&Brick { x: 132_500_000, y: 137_000_000, live: 3 });
    assert_eq!(
        shape,
        GradientRectangle {
            x: 132,
            y: 137,
            width: 122,
            height: 32,
            top: Color { r: 0, g: 0xFF, b: 0xFF, a: 0xFF },
            bottom: Color { r: 0, g: 0x3F, b: 0x3F, a: 0xFF },
        }
    );
}

#[test]
fn banner_is_centred_on_its_width() {
    let yellow = Color { r: 253, g: 249, b: 0, a: 255 };
    assert_eq!(draw_center_string(100), TextPlacement { x: 590, y: 335, size: 50, color: yellow });
    assert_eq!(draw_center_string(101).x, 590);
    assert_eq!(draw_center_string(0).x, 640);
    assert_eq!(draw_center_string(-3).x, 641);
    assert_eq!(draw_center_string(i32::MIN).x, 640 + 1_073_741_824);
}

#[test]
fn banners_carry_their_words() {
    assert_eq!(Banner::Paused.text(), "PAUSED");
    assert_eq!(Banner::YouWon.text(), "YOU WON");
    assert_eq!(Banner::GameOver.text(), "GAME OVER");
}

#[test]
fn fresh_game_is_drawn_whole() {
    let game = Game::new(0);
    let frame = game.render();
    assert_eq!(frame.background, Color { r: 0, g: 0, b: 0, a: 255 });
    assert_eq!(frame.ball, Circle { x: 640, y: 623, radius: 16, color: WHITE });
    assert_eq!(
        frame.racket,
        GradientRectangle {
            x: 576,
            y: 640,
            width: 128,
            height: 16,
            top: Color { r: 230, g: 41, b: 55, a: 255 },
            bottom: Color { r: 80, g: 0, b: 0, a: 255 },
        }
    );
    assert_eq!(frame.bricks.len(), 50);
    assert_eq!(frame.bricks[0], shape_of_brick(&game.bricks[0]));
    assert_eq!(frame.bricks[0].x, 5);
    assert_eq!(frame.bricks[0].y, 100);
    assert_eq!(frame.bricks[11].x, 132);
    assert_eq!(frame.bricks[11].y, 137);
    assert_eq!(frame.bricks[49], shape_of_brick(&game.bricks[49]));
    assert_eq!(
        frame.lives,
        vec![
            Circle { x: 21, y: 21, radius: 16, color: WHITE },
            Circle { x: 58, y: 21, radius: 16, color: WHITE },
            Circle { x: 95, y: 21, radius: 16, color: WHITE },
        ]
    );
    assert_eq!(frame.banner, None);
}

#[test]
fn banner_follows_the_phase() {
    let mut game = Game::new(0);
    game.state = State::Running;
    assert_eq!(game.render().banner, None);
    game.state = State::Paused;
    assert_eq!(game.render().banner, Some(Banner::Paused));
    game.state = State::Winning;
    assert_eq!(game.render().banner, Some(Banner::YouWon));
    game.state = State::GameOver;
    assert_eq!(game.render().banner, Some(Banner::GameOver));
}

#[test]
fn lost_lives_are_not_drawn() {
    let mut game = Game::new(0);
    game.lives = 1;
    game.bricks.truncate(2);
    let frame = game.render();
    assert_eq!(frame.lives.len(), 1);
    assert_eq!(frame.bricks.len(), 2);
    game.lives = 0;
    assert!(game.render().lives.is_empty());
}
