//! The ball, the racket and the bricks.

use vstd::prelude::*;
use crate::geometry::Rectangle;
use crate::units::{
    BRICK_COLUMNS, BRICK_GAP, BRICK_HEIGHT, BRICK_PITCH_X, BRICK_PITCH_Y, BRICK_ROWS, BRICK_TOP, BRICK_WIDTH, PALETTE_SIZE, PROJ_RADIUS, PROJ_SPEED,
    RACKET_HEIGHT, RACKET_MAX_X, RACKET_POS_Y, RACKET_WIDTH,
};

verus! {

/// The diagonal along which the ball travels: each component is one step
/// forward or one step back, never zero.
#[derive(Clone, Copy, Debug, PartialEq, Eq, Structural)]
pub struct Direction {
    pub x: i8,
    pub y: i8,
}

impl Direction {
    /// Both components are `1` or `-1`.
    pub open spec fn well_formed(self) -> bool {
        &&& (self.x == 1 || self.x == -1)
        &&& (self.y == 1 || self.y == -1)
    }

    /// The squared length of the direction vector.
    pub open spec fn norm_squared(self) -> int {
        self.x * self.x + self.y * self.y
    }

    /// The same direction with its horizontal component reversed.
    pub open spec fn flipped_x(self) -> Direction {
        Direction { x: (-self.x) as i8, y: self.y }
    }

    /// The same direction with its vertical component reversed.
    pub open spec fn flipped_y(self) -> Direction {
        Direction { x: self.x, y: (-self.y) as i8 }
    }

    /// Reverses the horizontal component.
    pub fn flip_x(&mut self)
        requires
            old(self).well_formed(),
        ensures
            *final(self) == old(self).flipped_x(),
            final(self).well_formed(),
    {
        self.x = -self.x;
    }

    /// Reverses the vertical component.
    pub fn flip_y(&mut self)
        requires
            old(self).well_formed(),
        ensures
            *final(self) == old(self).flipped_y(),
            final(self).well_formed(),
    {
        self.y = -self.y;
    }
}

/// A direction whose components are unit steps has the squared length two,
/// so one divisor, the square root of two, scales every direction to unit
/// length.
pub proof fn lemma_direction_norm(d: Direction)
    requires
        d.well_formed(),
    ensures
        d.norm_squared() == 2,
{
}

/// The ball.
#[derive(Clone, Copy, Debug, PartialEq, Eq, Structural)]
pub struct Projectile {
    pub x: i64,
    pub y: i64,
    /// Pixels per second along the diagonal.
    pub speed: u32,
    pub direction: Direction,
    /// Whether the ball overlapped the racket when this was last tested.
    pub already_in_collision: bool,
}

impl Projectile {
    /// A ball is valid when its direction is.
    pub open spec fn well_formed(self) -> bool {
        self.direction.well_formed()
    }

    /// The ball as it is served: centred, just above the racket, heading up
    /// and to the right at the base speed.
    pub open spec fn initial() -> Projectile {
        Projectile {
            x: 640_000_000,
            y: 623_000_000,
            speed: PROJ_SPEED,
            direction: Direction { x: 1, y: -1i8 },
            already_in_collision: false,
        }
    }

    /// The box that stands for the ball in every collision test.
    pub open spec fn bounds(self) -> Rectangle {
        Rectangle { x: self.x, y: self.y, width: PROJ_RADIUS, height: PROJ_RADIUS }
    }

    /// Serves a fresh ball.
    pub fn new() -> (r: Projectile)
        ensures
            r == Projectile::initial(),
            r.well_formed(),
            r.x == crate::units::WINDOW_WIDTH / 2,
            r.y == RACKET_POS_Y - PROJ_RADIUS - crate::units::UNITS_PER_PIXEL,
    {
        Projectile {
            x: crate::units::WINDOW_WIDTH / 2,
            y: RACKET_POS_Y - PROJ_RADIUS - crate::units::UNITS_PER_PIXEL,
            speed: PROJ_SPEED,
            direction: Direction { x: 1, y: -1 },
            already_in_collision: false,
        }
    }

    /// Computes the ball's bounding box.
    pub fn bounding_box(&self) -> (r: Rectangle)
        ensures
            r == self.bounds(),
    {
        Rectangle { x: self.x, y: self.y, width: PROJ_RADIUS, height: PROJ_RADIUS }
    }
}

/// The player's racket.
#[derive(Clone, Copy, Debug, PartialEq, Eq, Structural)]
pub struct Racket {
    pub x: i64,
    /// `-1` while moving left, `1` while moving right, `0` at rest.
    pub direction: i8,
}

impl Racket {
    /// The racket lies inside the window and its direction is a unit step or zero.
    pub open spec fn well_formed(self) -> bool {
        &&& 0 <= self.x <= RACKET_MAX_X
        &&& -1 <= self.direction <= 1
    }

    /// The racket at the start of a life: centred and at rest.
    pub open spec fn initial() -> Racket {
        Racket { x: 576_000_000, direction: 0 }
    }

    /// The box that stands for the racket in the collision test.
    pub open spec fn bounds(self) -> Rectangle {
        Rectangle { x: self.x, y: RACKET_POS_Y, width: RACKET_WIDTH, height: RACKET_HEIGHT }
    }

    /// Places a fresh racket.
    pub fn new() -> (r: Racket)
        ensures
            r == Racket::initial(),
            r.well_formed(),
            r.x + RACKET_WIDTH / 2 == crate::units::WINDOW_WIDTH / 2,
    {
        Racket { x: crate::units::WINDOW_WIDTH / 2 - RACKET_WIDTH / 2, direction: 0 }
    }

    /// Computes the racket's bounding box.
    pub fn bounding_box(&self) -> (r: Rectangle)
        ensures
            r == self.bounds(),
    {
        Rectangle { x: self.x, y: RACKET_POS_Y, width: RACKET_WIDTH, height: RACKET_HEIGHT }
    }
}

/// A brick of the grid.
#[derive(Clone, Copy, Debug, PartialEq, Eq, Structural)]
pub struct Brick {
    pub x: i64,
    pub y: i64,
    /// Hits that the brick still takes; it also selects the brick's colours.
    pub live: usize,
}

impl Brick {
    /// A brick that is part of a game has health left, and no more than the
    /// palette has colours for.
    pub open spec fn well_formed(self) -> bool {
        1 <= self.live < PALETTE_SIZE
    }

    /// The box that stands for the brick in the collision test.
    pub open spec fn bounds(self) -> Rectangle {
        Rectangle { x: self.x, y: self.y, width: BRICK_WIDTH, height: BRICK_HEIGHT }
    }

    /// The brick after one hit.
    pub open spec fn damaged(self) -> Brick {
        Brick { x: self.x, y: self.y, live: (self.live - 1) as usize }
    }

    /// The brick that stands at a place of the grid, counted row by row.
    pub open spec fn at_grid(k: int) -> Brick {
        Brick {
            x: (BRICK_GAP + (k % (BRICK_COLUMNS as int)) * BRICK_PITCH_X) as i64,
            y: (BRICK_TOP + (k / (BRICK_COLUMNS as int)) * BRICK_PITCH_Y) as i64,
            live: crate::units::BRICK_HEALTH,
        }
    }

    /// Computes the brick's bounding box.
    pub fn bounding_box(&self) -> (r: Rectangle)
        ensures
            r == self.bounds(),
    {
        Rectangle { x: self.x, y: self.y, width: BRICK_WIDTH, height: BRICK_HEIGHT }
    }
}

/// The full grid of bricks, row by row from the top left.
pub open spec fn brick_grid() -> Seq<Brick> {
    Seq::new((BRICK_ROWS * BRICK_COLUMNS) as nat, |k: int| Brick::at_grid(k))
}

/// Every brick of the sequence is valid.
pub open spec fn bricks_well_formed(bricks: Seq<Brick>) -> bool {
    forall|i: int| 0 <= i < bricks.len() ==> (#[trigger] bricks[i]).well_formed()
}

/// Lays out the grid of bricks.
pub fn new_bricks() -> (r: Vec<Brick>)
    ensures
        r@ == brick_grid(),
        bricks_well_formed(r@),
{
    let mut bricks: Vec<Brick> = Vec::new();
    let mut j: usize = 0;
    while j < BRICK_ROWS
        invariant
            j <= BRICK_ROWS,
            bricks@.len() == j * BRICK_COLUMNS,
            forall|k: int| 0 <= k < bricks@.len() ==> bricks@[k] == Brick::at_grid(k),
        decreases BRICK_ROWS - j,
    {
        let mut i: usize = 0;
        while i < BRICK_COLUMNS
            invariant
                j < BRICK_ROWS,
                i <= BRICK_COLUMNS,
                bricks@.len() == j * BRICK_COLUMNS + i,
                forall|k: int| 0 <= k < bricks@.len() ==> bricks@[k] == Brick::at_grid(k),
            decreases BRICK_COLUMNS - i,
        {
            let ghost k: int = j * BRICK_COLUMNS + i;
            assert(k % (BRICK_COLUMNS as int) == i && k / (BRICK_COLUMNS as int) == j);
            assert(0 <= i * BRICK_PITCH_X <= 9 * BRICK_PITCH_X) by (nonlinear_arith)
                requires
                    0 <= i <= 9,
            ;
            assert(0 <= j * BRICK_PITCH_Y <= 4 * BRICK_PITCH_Y) by (nonlinear_arith)
                requires
                    0 <= j <= 4,
            ;
            let x: i64 = BRICK_GAP + (i as i64) * BRICK_PITCH_X;
            let y: i64 = BRICK_TOP + (j as i64) * BRICK_PITCH_Y;
            bricks.push(Brick { x, y, live: crate::units::BRICK_HEALTH });
            i = i + 1;
        }
        j = j + 1;
    }
    assert(bricks@ =~= brick_grid());
    bricks
}

} // verus!
