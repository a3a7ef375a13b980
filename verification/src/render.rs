//! What a frame shows: the game's entities as shapes on whole pixels.

use vstd::prelude::*;
use crate::entities::Brick;
use crate::game::{clamped, Game, State};
use crate::units::{
    BANNER_SIZE, BRICK_HEIGHT, BRICK_WIDTH, LIFE_MARGIN, PALETTE_SIZE, PROJ_RADIUS, RACKET_HEIGHT,
    RACKET_POS_Y, RACKET_WIDTH, UNITS_PER_PIXEL, WINDOW_HEIGHT, WINDOW_WIDTH,
};

verus! {

/// A colour of four channels: red, green, blue and opacity.
#[derive(Clone, Copy, Debug, PartialEq, Eq, Structural)]
pub struct Color {
    pub r: u8,
    pub g: u8,
    pub b: u8,
    pub a: u8,
}

/// A filled circle, given by its centre.
#[derive(Clone, Copy, Debug, PartialEq, Eq, Structural)]
pub struct Circle {
    pub x: i32,
    pub y: i32,
    pub radius: i32,
    pub color: Color,
}

/// A rectangle filled with a gradient from its top edge to its bottom edge.
#[derive(Clone, Copy, Debug, PartialEq, Eq, Structural)]
pub struct GradientRectangle {
    pub x: i32,
    pub y: i32,
    pub width: i32,
    pub height: i32,
    pub top: Color,
    pub bottom: Color,
}

/// The message that is shown over the field while the game does not run.
#[derive(Clone, Copy, Debug, PartialEq, Eq, Structural)]
pub enum Banner {
    Paused,
    YouWon,
    GameOver,
}

/// A line of text, given by its top-left corner.
#[derive(Clone, Copy, Debug, PartialEq, Eq, Structural)]
pub struct TextPlacement {
    pub x: i32,
    pub y: i32,
    pub size: i32,
    pub color: Color,
}

/// All that one frame shows, in the order in which it is drawn.
#[derive(Clone, Debug, PartialEq, Eq)]
pub struct Frame {
    pub background: Color,
    pub ball: Circle,
    pub racket: GradientRectangle,
    pub bricks: Vec<GradientRectangle>,
    pub lives: Vec<Circle>,
    pub banner: Option<Banner>,
}

/// An opaque colour.
pub open spec fn opaque(r: u8, g: u8, b: u8) -> Color {
    Color { r, g, b, a: 255 }
}

/// The colour at the top of a brick of the given health.
pub open spec fn hi_color(live: usize) -> Color {
    if live == 0 {
        opaque(0xFF, 0, 0)
    } else if live == 1 {
        opaque(0xFF, 0xFF, 0)
    } else if live == 2 {
        opaque(0, 0xFF, 0)
    } else if live == 3 {
        opaque(0, 0xFF, 0xFF)
    } else if live == 4 {
        opaque(0, 0, 0xFF)
    } else {
        opaque(0xFF, 0, 0xFF)
    }
}

/// The colour at the bottom of a brick of the given health.
pub open spec fn lo_color(live: usize) -> Color {
    if live == 0 {
        opaque(0x3F, 0, 0)
    } else if live == 1 {
        opaque(0x3F, 0x2F, 0)
    } else if live == 2 {
        opaque(0, 0x3F, 0)
    } else if live == 3 {
        opaque(0, 0x3F, 0x3F)
    } else if live == 4 {
        opaque(0, 0, 0x3F)
    } else {
        opaque(0x3F, 0, 0x3F)
    }
}

/// A length in whole pixels, rounded towards zero.
pub open spec fn whole_pixels(v: int) -> int {
    if v >= 0 { v / (UNITS_PER_PIXEL as int) } else { -((-v) / (UNITS_PER_PIXEL as int)) }
}

/// The pixel on which a coordinate falls, held inside the range of pixels.
pub open spec fn pixel(v: i64) -> i32 {
    clamped(whole_pixels(v as int), i32::MIN as int, i32::MAX as int) as i32
}

/// Half of a width in pixels, rounded towards zero.
pub open spec fn half(width: i32) -> int {
    if width >= 0 { width / 2 } else { -((-width) / 2) }
}

/// White.
pub open spec fn white() -> Color {
    opaque(255, 255, 255)
}

/// The shape that stands for a brick.
pub open spec fn brick_shape(brick: Brick) -> GradientRectangle {
    GradientRectangle {
        x: pixel(brick.x),
        y: pixel(brick.y),
        width: pixel(BRICK_WIDTH),
        height: pixel(BRICK_HEIGHT),
        top: hi_color(brick.live),
        bottom: lo_color(brick.live),
    }
}

/// The centre of the marker of the life with the given index, along the
/// horizontal axis.
pub open spec fn life_marker_x(i: int) -> int {
    LIFE_MARGIN + PROJ_RADIUS + i * (2 * PROJ_RADIUS + LIFE_MARGIN)
}

/// The marker of the life with the given index, counted from the left.
pub open spec fn life_marker(i: int) -> Circle {
    Circle {
        x: pixel(life_marker_x(i) as i64),
        y: pixel((LIFE_MARGIN + PROJ_RADIUS) as i64),
        radius: pixel(PROJ_RADIUS),
        color: white(),
    }
}

/// The shape that stands for the ball.
pub open spec fn ball_shape(x: i64, y: i64) -> Circle {
    Circle { x: pixel(x), y: pixel(y), radius: pixel(PROJ_RADIUS), color: white() }
}

/// The shape that stands for the racket.
pub open spec fn racket_shape(x: i64) -> GradientRectangle {
    GradientRectangle {
        x: pixel(x),
        y: pixel(RACKET_POS_Y),
        width: pixel(RACKET_WIDTH),
        height: pixel(RACKET_HEIGHT),
        top: opaque(230, 41, 55),
        bottom: opaque(80, 0, 0),
    }
}

/// The banner that belongs to a phase.
pub open spec fn banner_of(state: State) -> Option<Banner> {
    match state {
        State::Paused => Some(Banner::Paused),
        State::Winning => Some(Banner::YouWon),
        State::GameOver => Some(Banner::GameOver),
        _ => None,
    }
}

/// Where a banner of the given width in pixels is drawn, so that it stands
/// in the middle of the window.
pub open spec fn centered(width: i32) -> TextPlacement {
    TextPlacement {
        x: (pixel((WINDOW_WIDTH / 2) as i64) - half(width)) as i32,
        y: (pixel((WINDOW_HEIGHT / 2) as i64) - BANNER_SIZE / 2) as i32,
        size: BANNER_SIZE,
        color: opaque(253, 249, 0),
    }
}

/// Makes an opaque colour.
pub fn opaque_color(r: u8, g: u8, b: u8) -> (c: Color)
    ensures
        c == opaque(r, g, b),
{
    Color { r, g, b, a: 255 }
}

/// Picks the colour at the top of a brick of the given health.
pub fn hi_color_of(live: usize) -> (c: Color)
    requires
        live < PALETTE_SIZE,
    ensures
        c == hi_color(live),
{
    let palette: [Color; 6] = [
        opaque_color(0xFF, 0, 0),
        opaque_color(0xFF, 0xFF, 0),
        opaque_color(0, 0xFF, 0),
        opaque_color(0, 0xFF, 0xFF),
        opaque_color(0, 0, 0xFF),
        opaque_color(0xFF, 0, 0xFF),
    ];
    palette[live]
}

/// Picks the colour at the bottom of a brick of the given health.
pub fn lo_color_of(live: usize) -> (c: Color)
    requires
        live < PALETTE_SIZE,
    ensures
        c == lo_color(live),
{
    let palette: [Color; 6] = [
        opaque_color(0x3F, 0, 0),
        opaque_color(0x3F, 0x2F, 0),
        opaque_color(0, 0x3F, 0),
        opaque_color(0, 0x3F, 0x3F),
        opaque_color(0, 0, 0x3F),
        opaque_color(0x3F, 0, 0x3F),
    ];
    palette[live]
}

/// Finds the pixel on which a coordinate falls.
pub fn to_pixel(v: i64) -> (r: i32)
    ensures
        r == pixel(v),
{
    let units: i128 = UNITS_PER_PIXEL as i128;
    let whole: i128 = if v >= 0 { (v as i128) / units } else { -((-(v as i128)) / units) };
    if whole <= i32::MIN as i128 {
        i32::MIN
    } else if whole >= i32::MAX as i128 {
        i32::MAX
    } else {
        whole as i32
    }
}

/// Makes the shape that stands for a brick.
pub fn shape_of_brick(brick: &Brick) -> (r: GradientRectangle)
    requires
        brick.live < PALETTE_SIZE,
    ensures
        r == brick_shape(*brick),
{
    GradientRectangle {
        x: to_pixel(brick.x),
        y: to_pixel(brick.y),
        width: to_pixel(BRICK_WIDTH),
        height: to_pixel(BRICK_HEIGHT),
        top: hi_color_of(brick.live),
        bottom: lo_color_of(brick.live),
    }
}

/// Places a banner of the given width in pixels in the middle of the window.
pub fn draw_center_string(width: i32) -> (r: TextPlacement)
    ensures
        r == centered(width),
{
    let wide: i64 = width as i64;
    let half_width: i64 = if wide >= 0 { wide / 2 } else { -((-wide) / 2) };
    let middle_x: i64 = to_pixel(WINDOW_WIDTH / 2) as i64;
    let middle_y: i32 = to_pixel(WINDOW_HEIGHT / 2);
    TextPlacement {
        x: (middle_x - half_width) as i32,
        y: middle_y - BANNER_SIZE / 2,
        size: BANNER_SIZE,
        color: opaque_color(253, 249, 0),
    }
}

impl Banner {
    /// The words of the banner.
    pub open spec fn caption(self) -> Seq<char> {
        match self {
            Banner::Paused => "PAUSED"@,
            Banner::YouWon => "YOU WON"@,
            Banner::GameOver => "GAME OVER"@,
        }
    }

    /// Gives the words of the banner.
    pub fn text(&self) -> (r: &'static str)
        ensures
            r@ == self.caption(),
    {
        match self {
            Banner::Paused => "PAUSED",
            Banner::YouWon => "YOU WON",
            Banner::GameOver => "GAME OVER",
        }
    }
}

impl Game {
    /// Describes the frame that shows the game: the ball, the racket, one
    /// shape for each brick in the order of the grid, one marker for each
    /// life in reserve, and the banner of the phase.
    pub fn render(&self) -> (frame: Frame)
        requires
            self.well_formed(),
        ensures
            frame.background == opaque(0, 0, 0),
            frame.ball == ball_shape(self.ball.x, self.ball.y),
            frame.racket == racket_shape(self.racket.x),
            frame.bricks@.len() == self.bricks@.len(),
            forall|i: int|
                0 <= i < self.bricks@.len() ==> frame.bricks@[i] == brick_shape(
                    #[trigger] self.bricks@[i],
                ),
            frame.lives@.len() == self.lives,
            forall|i: int| 0 <= i < self.lives ==> #[trigger] frame.lives@[i] == life_marker(i),
            frame.banner == banner_of(self.state),
    {
        let mut bricks: Vec<GradientRectangle> = Vec::new();
        let mut k: usize = 0;
        while k < self.bricks.len()
            invariant
                self.well_formed(),
                k <= self.bricks@.len(),
                bricks@.len() == k,
                forall|i: int| 0 <= i < k ==> bricks@[i] == brick_shape(#[trigger] self.bricks@[i]),
            decreases self.bricks@.len() - k,
        {
            assert(self.bricks@[k as int].well_formed());
            bricks.push(shape_of_brick(&self.bricks[k]));
            k = k + 1;
        }
        let mut lives: Vec<Circle> = Vec::new();
        let mut j: usize = 0;
        while j < self.lives
            invariant
                self.lives <= 3,
                j <= self.lives,
                lives@.len() == j,
                forall|i: int| 0 <= i < j ==> #[trigger] lives@[i] == life_marker(i),
            decreases self.lives - j,
        {
            let pitch: i64 = 2 * PROJ_RADIUS + LIFE_MARGIN;
            assert(0 <= j * pitch <= 3 * pitch) by (nonlinear_arith)
                requires
                    0 <= j <= 3,
                    pitch > 0,
            ;
            let x: i64 = LIFE_MARGIN + PROJ_RADIUS + (j as i64) * pitch;
            lives.push(
                Circle {
                    x: to_pixel(x),
                    y: to_pixel(LIFE_MARGIN + PROJ_RADIUS),
                    radius: to_pixel(PROJ_RADIUS),
                    color: opaque_color(255, 255, 255),
                },
            );
            j = j + 1;
        }
        let banner: Option<Banner> = match self.state {
            State::Paused => Some(Banner::Paused),
            State::Winning => Some(Banner::YouWon),
            State::GameOver => Some(Banner::GameOver),
            _ => None,
        };
        Frame {
            background: opaque_color(0, 0, 0),
            ball: Circle {
                x: to_pixel(self.ball.x),
                y: to_pixel(self.ball.y),
                radius: to_pixel(PROJ_RADIUS),
                color: opaque_color(255, 255, 255),
            },
            racket: GradientRectangle {
                x: to_pixel(self.racket.x),
                y: to_pixel(RACKET_POS_Y),
                width: to_pixel(RACKET_WIDTH),
                height: to_pixel(RACKET_HEIGHT),
                top: opaque_color(230, 41, 55),
                bottom: opaque_color(80, 0, 0),
            },
            bricks,
            lives,
            banner,
        }
    }
}

} // verus!
