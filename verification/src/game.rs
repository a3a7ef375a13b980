//! The game: its phases, its reaction to input, and the physics of one frame.

use vstd::prelude::*;
use crate::entities::{
    brick_grid, bricks_well_formed, new_bricks, Brick, Direction, Projectile, Racket,
};
use crate::geometry::{
    check_collision_recs, get_collision_recs, intersection, overlaps, Rectangle,
};
use crate::units::{
    BOUNCE_GAIN, BRICK_GAIN, DIAGONAL_DEN, DIAGONAL_NUM, FRAME_DURATION, GRACE_PERIOD,
    INITIAL_LIVES, PALETTE_SIZE, PROJ_RADIUS, RACKET_MAX_X, RACKET_SPEED, WINDOW_HEIGHT, WINDOW_WIDTH,
};

verus! {

/// The phase of a game. Exactly one holds at any time.
#[derive(Clone, Copy, Debug, PartialEq, Eq, Structural)]
pub enum State {
    /// The physics runs.
    Running,
    /// The ball rests above the racket since the given instant.
    InitialBreak(u64),
    /// The physics is frozen.
    Paused,
    /// Every brick is gone.
    Winning,
    /// The last life is lost.
    GameOver,
}

/// What the player does during one frame.
#[derive(Clone, Copy, Debug, PartialEq, Eq, Structural)]
pub struct Input {
    /// The key for moving left is held down.
    pub left: bool,
    /// The key for moving right is held down.
    pub right: bool,
    /// The key that toggles the pause went down in this frame.
    pub pause: bool,
    /// The key that confirms a new game went down in this frame.
    pub confirm: bool,
}

/// A game of brick breaking. Instants are microseconds on a clock that does
/// not run backwards.
#[derive(Clone, Debug, PartialEq, Eq)]
pub struct Game {
    /// The bricks that are left, in the order of the grid.
    pub bricks: Vec<Brick>,
    pub ball: Projectile,
    pub racket: Racket,
    /// Balls in reserve.
    pub lives: usize,
    pub state: State,
    /// The instant at which the last frame was shown.
    pub last_frame_instant: u64,
}

/// The mathematical value of a game.
pub struct GameModel {
    pub bricks: Seq<Brick>,
    pub ball: Projectile,
    pub racket: Racket,
    pub lives: usize,
    pub state: State,
    pub last_frame_instant: u64,
}

impl View for Game {
    type V = GameModel;

    open spec fn view(&self) -> GameModel {
        GameModel {
            bricks: self.bricks@,
            ball: self.ball,
            racket: self.racket,
            lives: self.lives,
            state: self.state,
            last_frame_instant: self.last_frame_instant,
        }
    }
}

/// The time from `since` to `now`, zero where `now` is the earlier.
pub open spec fn elapsed(since: u64, now: u64) -> int {
    if now >= since { now - since } else { 0 }
}

/// The direction that the input asks of the racket: left or right where
/// exactly one of the two keys is down, rest otherwise.
pub open spec fn steer(input: Input) -> i8 {
    if input.left && !input.right {
        -1i8
    } else if input.right && !input.left {
        1i8
    } else {
        0i8
    }
}

/// Whether the input launches the resting ball: a direction is asked for and
/// the grace period is over.
pub open spec fn launches(state: State, input: Input, now: u64) -> bool {
    match state {
        State::InitialBreak(since) => steer(input) != 0 && elapsed(since, now) > GRACE_PERIOD,
        _ => false,
    }
}

/// The phase after the pause key: it swaps running and paused and leaves
/// every other phase alone.
pub open spec fn toggled(state: State, pause: bool) -> State {
    if pause {
        match state {
            State::Paused => State::Running,
            State::Running => State::Paused,
            other => other,
        }
    } else {
        state
    }
}

/// A speed raised by a gain, held at the largest speed that can be stored.
pub open spec fn faster(speed: u32, gain: u32) -> u32 {
    if speed + gain > u32::MAX { u32::MAX } else { (speed + gain) as u32 }
}

/// The ball after the test against the top wall.
pub open spec fn after_top_wall(b: Projectile) -> Projectile {
    if b.y <= 0 {
        Projectile {
            x: b.x,
            y: b.y,
            speed: faster(b.speed, BOUNCE_GAIN),
            direction: Direction { x: b.direction.x, y: 1 },
            already_in_collision: b.already_in_collision,
        }
    } else {
        b
    }
}

/// The ball after the test against the left wall.
pub open spec fn after_left_wall(b: Projectile) -> Projectile {
    if b.x <= PROJ_RADIUS {
        Projectile {
            x: b.x,
            y: b.y,
            speed: faster(b.speed, BOUNCE_GAIN),
            direction: Direction { x: 1, y: b.direction.y },
            already_in_collision: b.already_in_collision,
        }
    } else {
        b
    }
}

/// The ball after the test against the right wall.
pub open spec fn after_right_wall(b: Projectile) -> Projectile {
    if b.x >= WINDOW_WIDTH - PROJ_RADIUS {
        Projectile {
            x: b.x,
            y: b.y,
            speed: faster(b.speed, BOUNCE_GAIN),
            direction: Direction { x: -1i8, y: b.direction.y },
            already_in_collision: b.already_in_collision,
        }
    } else {
        b
    }
}

/// The ball after the three wall tests: top, then left, then right.
pub open spec fn after_walls(b: Projectile) -> Projectile {
    after_right_wall(after_left_wall(after_top_wall(b)))
}

/// The ball after the test against the racket. The ball bounces only when
/// the overlap begins; in any case it remembers whether it overlaps.
pub open spec fn after_racket(b: Projectile, r: Racket) -> Projectile {
    let hit = overlaps(b.bounds(), r.bounds());
    if hit && !b.already_in_collision {
        Projectile {
            x: b.x,
            y: b.y,
            speed: faster(b.speed, BOUNCE_GAIN),
            direction: b.direction.flipped_y(),
            already_in_collision: true,
        }
    } else {
        Projectile {
            x: b.x,
            y: b.y,
            speed: b.speed,
            direction: b.direction,
            already_in_collision: hit,
        }
    }
}

/// Whether the ball's box and a brick have a region of positive area in common.
pub open spec fn hits(ball: Rectangle, brick: Brick) -> bool {
    intersection(ball, brick.bounds()).area() > 0
}

/// The index of the first brick at or after `from` that the ball hits, or
/// the number of bricks where there is none.
pub open spec fn first_hit(bricks: Seq<Brick>, ball: Rectangle, from: int) -> int
    decreases bricks.len() - from,
{
    if from < 0 || from >= bricks.len() {
        bricks.len() as int
    } else if hits(ball, bricks[from]) {
        from
    } else {
        first_hit(bricks, ball, from + 1)
    }
}

/// The direction after a bounce off a brick: a wide overlap turns the ball
/// vertically, a tall one horizontally, a square one both ways.
pub open spec fn deflected(d: Direction, overlap: Rectangle) -> Direction {
    if overlap.width > overlap.height {
        d.flipped_y()
    } else if overlap.width < overlap.height {
        d.flipped_x()
    } else {
        d.flipped_y().flipped_x()
    }
}

/// The ball after it has hit the given brick.
pub open spec fn after_brick(b: Projectile, brick: Brick) -> Projectile {
    Projectile {
        x: b.x,
        y: b.y,
        speed: faster(b.speed, BRICK_GAIN),
        direction: deflected(b.direction, intersection(b.bounds(), brick.bounds())),
        already_in_collision: b.already_in_collision,
    }
}

/// The bricks after the one at `i` has been hit: it loses one point of
/// health, and leaves the sequence where that was its last.
pub open spec fn bricks_after_hit(bricks: Seq<Brick>, i: int) -> Seq<Brick> {
    if bricks[i].live <= 1 {
        bricks.remove(i)
    } else {
        bricks.update(i, bricks[i].damaged())
    }
}

/// A value held between two bounds.
pub open spec fn clamped(v: int, low: int, high: int) -> int {
    if v <= low { low } else if v >= high { high } else { v }
}

/// The racket after it has moved for `dt` microseconds, held inside the window.
pub open spec fn moved_racket(r: Racket, dt: u64) -> Racket {
    Racket {
        x: clamped(r.x + r.direction * RACKET_SPEED * dt, 0, RACKET_MAX_X as int) as i64,
        direction: r.direction,
    }
}

/// The distance that a ball of the given speed covers along each axis in
/// `dt` microseconds.
pub open spec fn stride(speed: u32, dt: u64) -> int {
    (speed * dt * DIAGONAL_NUM) / (DIAGONAL_DEN as int)
}

/// A coordinate held inside the range that can be stored.
pub open spec fn stored(v: int) -> i64 {
    clamped(v, i64::MIN as int, i64::MAX as int) as i64
}

/// The ball after it has travelled for `dt` microseconds.
pub open spec fn advanced(b: Projectile, dt: u64) -> Projectile {
    Projectile {
        x: stored(b.x + b.direction.x * stride(b.speed, dt)),
        y: stored(b.y + b.direction.y * stride(b.speed, dt)),
        speed: b.speed,
        direction: b.direction,
        already_in_collision: b.already_in_collision,
    }
}

impl GameModel {
    /// The game as it begins at the instant `now`.
    pub open spec fn fresh(now: u64) -> GameModel {
        GameModel {
            bricks: brick_grid(),
            ball: Projectile::initial(),
            racket: Racket::initial(),
            lives: INITIAL_LIVES,
            state: State::InitialBreak(now),
            last_frame_instant: now,
        }
    }

    /// What holds of every game: the ball travels along a diagonal, the
    /// racket lies inside the window, every brick has health left within the
    /// palette, and no more lives are in reserve than a game starts with.
    pub open spec fn well_formed(self) -> bool {
        &&& self.ball.well_formed()
        &&& self.racket.well_formed()
        &&& bricks_well_formed(self.bricks)
        &&& self.lives <= INITIAL_LIVES
    }

    /// The game after the racket has been steered, the ball launched where
    /// the input launches it, and the pause key obeyed.
    pub open spec fn steered(self, input: Input, now: u64) -> GameModel {
        let launch = launches(self.state, input, now);
        GameModel {
            bricks: self.bricks,
            ball: if launch {
                Projectile {
                    x: self.ball.x,
                    y: self.ball.y,
                    speed: self.ball.speed,
                    direction: Direction { x: steer(input), y: self.ball.direction.y },
                    already_in_collision: self.ball.already_in_collision,
                }
            } else {
                self.ball
            },
            racket: Racket { x: self.racket.x, direction: steer(input) },
            lives: self.lives,
            state: toggled(if launch { State::Running } else { self.state }, input.pause),
            last_frame_instant: self.last_frame_instant,
        }
    }

    /// The game after the input of one frame: steered, and replaced by a
    /// fresh game where it has ended and the player confirms.
    pub open spec fn after_input(self, input: Input, now: u64) -> GameModel {
        let g = self.steered(input, now);
        if input.confirm && (g.state == State::Winning || g.state == State::GameOver) {
            GameModel::fresh(now)
        } else {
            g
        }
    }

    /// The game after the test for a ball that has left through the bottom:
    /// a life is spent and ball and racket are served again, or the game is
    /// over where no life is left.
    pub open spec fn after_bottom_exit(self, now: u64) -> GameModel {
        if self.ball.y >= WINDOW_HEIGHT + PROJ_RADIUS {
            if self.lives == 0 {
                GameModel {
                    bricks: self.bricks,
                    ball: self.ball,
                    racket: self.racket,
                    lives: self.lives,
                    state: State::GameOver,
                    last_frame_instant: self.last_frame_instant,
                }
            } else {
                GameModel {
                    bricks: self.bricks,
                    ball: Projectile::initial(),
                    racket: Racket::initial(),
                    lives: (self.lives - 1) as usize,
                    state: State::InitialBreak(now),
                    last_frame_instant: self.last_frame_instant,
                }
            }
        } else {
            self
        }
    }

    /// The game after the racket has moved for `dt` microseconds.
    pub open spec fn with_racket_moved(self, dt: u64) -> GameModel {
        GameModel {
            bricks: self.bricks,
            ball: self.ball,
            racket: moved_racket(self.racket, dt),
            lives: self.lives,
            state: self.state,
            last_frame_instant: self.last_frame_instant,
        }
    }

    /// The ball after the walls and the racket, before the bricks.
    pub open spec fn ball_before_bricks(self) -> Projectile {
        after_racket(after_walls(self.ball), self.racket)
    }

    /// The index of the brick that is hit in this frame, or the number of
    /// bricks where none is.
    pub open spec fn hit_index(self) -> int {
        first_hit(self.bricks, self.ball.bounds(), 0)
    }

    /// The game after all collisions of one frame: walls, racket, then the
    /// first brick that the ball hits. The game is won once no brick is left.
    pub open spec fn resolved(self) -> GameModel {
        let ball = self.ball_before_bricks();
        let i = self.hit_index();
        let struck = i < self.bricks.len();
        let bricks = if struck { bricks_after_hit(self.bricks, i) } else { self.bricks };
        GameModel {
            bricks: bricks,
            ball: if struck { after_brick(ball, self.bricks[i]) } else { ball },
            racket: self.racket,
            lives: self.lives,
            state: if bricks.len() == 0 { State::Winning } else { self.state },
            last_frame_instant: self.last_frame_instant,
        }
    }

    /// The game after the ball has travelled for `dt` microseconds.
    pub open spec fn with_ball_advanced(self, dt: u64) -> GameModel {
        GameModel {
            bricks: self.bricks,
            ball: advanced(self.ball, dt),
            racket: self.racket,
            lives: self.lives,
            state: self.state,
            last_frame_instant: self.last_frame_instant,
        }
    }

    /// The length of the frame that is due at the instant `now`, or nothing
    /// where no frame is due yet.
    pub open spec fn due(self, now: u64) -> Option<u64> {
        if elapsed(self.last_frame_instant, now) > FRAME_DURATION {
            Some(elapsed(self.last_frame_instant, now) as u64)
        } else {
            None
        }
    }

    /// The game after the frame at the instant `now`, if one is due: the
    /// input is applied, then the physics runs for the time since the last
    /// frame was shown.
    pub open spec fn after_frame(self, input: Input, now: u64) -> GameModel {
        match self.due(now) {
            Some(duration) => self.after_input(input, now).after_physics(duration, now),
            None => self,
        }
    }

    /// The game with the instant of its last frame set to `now`.
    pub open spec fn shown_at(self, now: u64) -> GameModel {
        GameModel {
            bricks: self.bricks,
            ball: self.ball,
            racket: self.racket,
            lives: self.lives,
            state: self.state,
            last_frame_instant: now,
        }
    }

    /// The game after the physics of one frame that lasted `dt` microseconds:
    /// the test for the bottom exit, and then, only while the game runs, the
    /// racket's move, the collisions and the ball's move.
    pub open spec fn after_physics(self, dt: u64, now: u64) -> GameModel {
        let g = self.after_bottom_exit(now);
        if g.state == State::Running {
            g.with_racket_moved(dt).resolved().with_ball_advanced(dt)
        } else {
            g
        }
    }
}

/// Computes the time from `since` to `now`, zero where `now` is the earlier.
pub fn elapsed_since(since: u64, now: u64) -> (r: u64)
    ensures
        r == elapsed(since, now),
{
    if now >= since { now - since } else { 0 }
}

/// Finds the first brick that the ball's box hits.
pub fn find_first_hit(bricks: &Vec<Brick>, ball: Rectangle) -> (r: usize)
    ensures
        r == first_hit(bricks@, ball, 0),
        r <= bricks@.len(),
{
    let n: usize = bricks.len();
    let mut i: usize = 0;
    while i < n
        invariant
            i <= n,
            n == bricks@.len(),
            first_hit(bricks@, ball, 0) == first_hit(bricks@, ball, i as int),
        decreases n - i,
    {
        let overlap = get_collision_recs(ball, bricks[i].bounding_box());
        if overlap.has_area() {
            return i;
        }
        i = i + 1;
    }
    n
}

impl Game {
    /// Whether the game is valid.
    pub open spec fn well_formed(&self) -> bool {
        self@.well_formed()
    }

    /// Tests whether the game is valid.
    pub fn is_valid(&self) -> (ok: bool)
        ensures
            ok == self.well_formed(),
    {
        let direction = self.ball.direction;
        if !((direction.x == 1 || direction.x == -1) && (direction.y == 1 || direction.y == -1)) {
            return false;
        }
        if self.racket.x < 0 || self.racket.x > RACKET_MAX_X {
            return false;
        }
        if self.racket.direction < -1 || self.racket.direction > 1 {
            return false;
        }
        if self.lives > INITIAL_LIVES {
            return false;
        }
        let mut i: usize = 0;
        while i < self.bricks.len()
            invariant
                i <= self.bricks@.len(),
                forall|j: int| 0 <= j < i ==> (#[trigger] self.bricks@[j]).well_formed(),
            decreases self.bricks@.len() - i,
        {
            if self.bricks[i].live < 1 || self.bricks[i].live >= PALETTE_SIZE {
                assert(!self.bricks@[i as int].well_formed());
                return false;
            }
            i = i + 1;
        }
        true
    }

    /// Begins a game at the instant `now`.
    pub fn new(now: u64) -> (r: Game)
        ensures
            r@ == GameModel::fresh(now),
            r.well_formed(),
    {
        Game {
            ball: Projectile::new(),
            bricks: new_bricks(),
            last_frame_instant: now,
            lives: INITIAL_LIVES,
            racket: Racket::new(),
            state: State::InitialBreak(now),
        }
    }

    /// Applies the input of one frame: steers the racket, launches the
    /// resting ball, toggles the pause, and begins a new game where the game
    /// has ended and the player confirms.
    pub fn handle_input(&mut self, input: Input, now: u64)
        requires
            old(self).well_formed(),
        ensures
            final(self)@ == old(self)@.after_input(input, now),
            final(self).well_formed(),
    {
        self.racket.direction = 0;
        if input.left && !input.right {
            if let State::InitialBreak(grace) = self.state {
                if elapsed_since(grace, now) > GRACE_PERIOD {
                    self.ball.direction.x = -1;
                    self.state = State::Running;
                }
            }
            self.racket.direction = -1;
        } else if input.right && !input.left {
            if let State::InitialBreak(grace) = self.state {
                if elapsed_since(grace, now) > GRACE_PERIOD {
                    self.ball.direction.x = 1;
                    self.state = State::Running;
                }
            }
            self.racket.direction = 1;
        }
        if input.pause {
            match self.state {
                State::Paused => {
                    self.state = State::Running;
                },
                State::Running => {
                    self.state = State::Paused;
                },
                _ => {},
            }
        }
        let ended: bool = match self.state {
            State::Winning => true,
            State::GameOver => true,
            _ => false,
        };
        if ended && input.confirm {
            *self = Game::new(now);
        }
    }

    /// Tests whether the ball has left through the bottom, and if so spends
    /// a life and serves again, or ends the game where no life is left.
    pub fn check_bottom_exit(&mut self, now: u64)
        requires
            old(self).well_formed(),
        ensures
            final(self)@ == old(self)@.after_bottom_exit(now),
            final(self).well_formed(),
    {
        if self.ball.y >= WINDOW_HEIGHT + PROJ_RADIUS {
            if self.lives == 0 {
                self.state = State::GameOver;
            } else {
                self.state = State::InitialBreak(now);
                self.lives = self.lives - 1;
                self.ball = Projectile::new();
                self.racket = Racket::new();
            }
        }
    }

    /// Moves the racket for `dt` microseconds and holds it inside the window.
    pub fn move_racket(&mut self, dt: u64)
        requires
            old(self).well_formed(),
        ensures
            final(self)@ == old(self)@.with_racket_moved(dt),
            final(self).well_formed(),
    {
        let direction: i128 = self.racket.direction as i128;
        assert(-700 * dt <= direction * RACKET_SPEED * dt <= 700 * dt) by (nonlinear_arith)
            requires
                -1 <= direction <= 1,
                RACKET_SPEED == 700,
        ;
        let target: i128 = self.racket.x as i128 + direction * (RACKET_SPEED as i128) * (dt as i128);
        if target <= 0 {
            self.racket.x = 0;
        } else if target >= RACKET_MAX_X as i128 {
            self.racket.x = RACKET_MAX_X;
        } else {
            self.racket.x = target as i64;
        }
    }

    /// Resolves the collisions of one frame: the three walls, the racket,
    /// and the first brick in the order of the grid that the ball hits. A
    /// brick without health leaves the game, and the game is won when none
    /// is left.
    pub fn resolve_collisions(&mut self)
        requires
            old(self).well_formed(),
        ensures
            final(self)@ == old(self)@.resolved(),
            final(self).well_formed(),
            final(self).ball.speed >= old(self).ball.speed,
            final(self).bricks@.len() <= old(self).bricks@.len(),
    {
        if self.ball.y <= 0 {
            self.ball.speed = self.ball.speed.saturating_add(BOUNCE_GAIN);
            self.ball.direction.y = 1;
        }
        if self.ball.x <= PROJ_RADIUS {
            self.ball.speed = self.ball.speed.saturating_add(BOUNCE_GAIN);
            self.ball.direction.x = 1;
        }
        if self.ball.x >= WINDOW_WIDTH - PROJ_RADIUS {
            self.ball.speed = self.ball.speed.saturating_add(BOUNCE_GAIN);
            self.ball.direction.x = -1;
        }
        let ball_box = self.ball.bounding_box();
        let collision_result = check_collision_recs(ball_box, self.racket.bounding_box());
        if collision_result && !self.ball.already_in_collision {
            self.ball.speed = self.ball.speed.saturating_add(BOUNCE_GAIN);
            self.ball.direction.y = -self.ball.direction.y;
        }
        self.ball.already_in_collision = collision_result;
        let i: usize = find_first_hit(&self.bricks, ball_box);
        if i < self.bricks.len() {
            let brick: Brick = self.bricks[i];
            let overlap = get_collision_recs(ball_box, brick.bounding_box());
            self.ball.speed = self.ball.speed.saturating_add(BRICK_GAIN);
            if overlap.width > overlap.height {
                self.ball.direction.y = -self.ball.direction.y;
            } else if overlap.width < overlap.height {
                self.ball.direction.x = -self.ball.direction.x;
            } else {
                self.ball.direction.y = -self.ball.direction.y;
                self.ball.direction.x = -self.ball.direction.x;
            }
            if brick.live <= 1 {
                self.bricks.remove(i);
            } else {
                self.bricks.set(i, Brick { x: brick.x, y: brick.y, live: brick.live - 1 });
            }
        }
        if self.bricks.len() == 0 {
            self.state = State::Winning;
        }
    }

    /// Moves the ball along its diagonal for `dt` microseconds.
    pub fn advance_ball(&mut self, dt: u64)
        requires
            old(self).well_formed(),
        ensures
            final(self)@ == old(self)@.with_ball_advanced(dt),
            final(self).well_formed(),
    {
        let step: i128 = ball_stride(self.ball.speed, dt);
        self.ball.x = shifted(self.ball.x, self.ball.direction.x, step);
        self.ball.y = shifted(self.ball.y, self.ball.direction.y, step);
    }

    /// Tells whether the next frame is due at the instant `now`, and if so
    /// how long the frame has lasted: a frame is due once more than the frame
    /// duration has passed since the last one was shown.
    pub fn frame_due(&self, now: u64) -> (r: Option<u64>)
        ensures
            r == self@.due(now),
    {
        let duration: u64 = elapsed_since(self.last_frame_instant, now);
        if duration > FRAME_DURATION {
            Some(duration)
        } else {
            None
        }
    }

    /// Runs one frame where one is due at the instant `now`, the input first
    /// and the physics after it, and tells whether it did; a frame that is
    /// not yet due leaves the game as it is.
    pub fn update(&mut self, input: Input, now: u64) -> (ran: bool)
        requires
            old(self).well_formed(),
        ensures
            ran == old(self)@.due(now).is_some(),
            final(self)@ == old(self)@.after_frame(input, now),
            final(self).well_formed(),
    {
        match self.frame_due(now) {
            Some(duration) => {
                self.handle_input(input, now);
                self.calculate_physics(duration, now);
                true
            },
            None => false,
        }
    }

    /// Records that a frame was shown at the instant `now`.
    pub fn frame_shown(&mut self, now: u64)
        ensures
            final(self)@ == old(self)@.shown_at(now),
    {
        self.last_frame_instant = now;
    }

    /// Runs the physics of one frame that lasted `duration` microseconds and
    /// ends at the instant `now`.
    pub fn calculate_physics(&mut self, duration: u64, now: u64)
        requires
            old(self).well_formed(),
        ensures
            final(self)@ == old(self)@.after_physics(duration, now),
            final(self).well_formed(),
    {
        self.check_bottom_exit(now);
        if let State::Running = self.state {
            self.move_racket(duration);
            self.resolve_collisions();
            self.advance_ball(duration);
        }
    }
}

/// Computes the distance that a ball of the given speed covers along each
/// axis in `dt` microseconds.
pub fn ball_stride(speed: u32, dt: u64) -> (r: i128)
    ensures
        r == stride(speed, dt),
        0 <= r <= 0x1_0000_0000_0000_0000_0000_0000,
{
    assert(0 <= speed * dt * 707_107 <= 0xffff_ffff * 0xffff_ffff_ffff_ffff * 707_107)
        by (nonlinear_arith)
        requires
            0 <= speed <= 0xffff_ffff,
            0 <= dt <= 0xffff_ffff_ffff_ffff,
    ;
    let product: u128 = (speed as u128) * (dt as u128) * DIAGONAL_NUM;
    (product / DIAGONAL_DEN) as i128
}

/// Shifts a coordinate by `step` in the given direction and holds the result
/// inside the range that can be stored.
pub fn shifted(from: i64, direction: i8, step: i128) -> (r: i64)
    requires
        direction == 1 || direction == -1,
        0 <= step <= 0x1_0000_0000_0000_0000_0000_0000,
    ensures
        r == stored(from + direction * step),
{
    assert(direction * step == if direction == 1 { step as int } else { -step }) by (nonlinear_arith)
        requires
            direction == 1 || direction == -1,
    ;
    let target: i128 = if direction == 1 { from as i128 + step } else { from as i128 - step };
    if target <= i64::MIN as i128 {
        i64::MIN
    } else if target >= i64::MAX as i128 {
        i64::MAX
    } else {
        target as i64
    }
}

} // verus!
