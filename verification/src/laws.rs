//! What holds of every game, proved over the mathematical model.

use vstd::prelude::*;
use crate::entities::{bricks_well_formed, lemma_direction_norm, Brick, Projectile, Racket};
use crate::game::{
    after_racket, bricks_after_hit, first_hit, hits, moved_racket, toggled, GameModel, Input,
    State,
};
use crate::geometry::{overlaps, Rectangle};
use crate::units::{PALETTE_SIZE, PROJ_RADIUS, RACKET_MAX_X, WINDOW_HEIGHT};

verus! {

/// The first hit lies between `from` and the number of bricks; where it is
/// an index, the ball hits the brick there, and it hits none of the bricks
/// from `from` up to it.
pub proof fn lemma_first_hit_is_least(bricks: Seq<Brick>, ball: Rectangle, from: int)
    requires
        0 <= from <= bricks.len(),
    ensures
        from <= first_hit(bricks, ball, from) <= bricks.len(),
        first_hit(bricks, ball, from) < bricks.len() ==> hits(
            ball,
            bricks[first_hit(bricks, ball, from)],
        ),
        forall|j: int| from <= j < first_hit(bricks, ball, from) ==> !hits(ball, #[trigger] bricks[j]),
    decreases bricks.len() - from,
{
    if from < bricks.len() && !hits(ball, bricks[from]) {
        lemma_first_hit_is_least(bricks, ball, from + 1);
    }
}

/// A filter keeps a sequence whole when every element passes it.
pub proof fn lemma_filter_keeps_all(bricks: Seq<Brick>, pred: spec_fn(Brick) -> bool)
    requires
        forall|i: int| 0 <= i < bricks.len() ==> pred(#[trigger] bricks[i]),
    ensures
        bricks.filter(pred) == bricks,
    decreases bricks.len(),
{
    reveal(Seq::filter);
    if bricks.len() > 0 {
        lemma_filter_keeps_all(bricks.drop_last(), pred);
        assert(bricks.drop_last().push(bricks.last()) =~= bricks);
    }
}

/// To hit the brick at `i` is to take one point of its health and then to
/// drop every brick without health, the others keeping their order.
pub proof fn lemma_hit_removes_the_dead(bricks: Seq<Brick>, i: int)
    requires
        bricks_well_formed(bricks),
        0 <= i < bricks.len(),
    ensures
        bricks_after_hit(bricks, i) == bricks.update(i, bricks[i].damaged()).filter(
            |b: Brick| b.live > 0,
        ),
{
    let pred = |b: Brick| b.live > 0;
    let hit = bricks[i].damaged();
    let all = bricks.update(i, hit);
    let before = all.take(i);
    let after = all.skip(i + 1);
    assert(all =~= before.push(hit) + after);
    assert forall|j: int| 0 <= j < before.len() implies pred(#[trigger] before[j]) by {
        assert(bricks[j].well_formed());
    }
    assert forall|j: int| 0 <= j < after.len() implies pred(#[trigger] after[j]) by {
        assert(bricks[i + 1 + j].well_formed());
    }
    lemma_filter_keeps_all(before, pred);
    lemma_filter_keeps_all(after, pred);
    before.lemma_filter_push(hit, pred);
    Seq::filter_distributes_over_add(before.push(hit), after, pred);
    assert(bricks[i].well_formed());
    if bricks[i].live <= 1 {
        assert(bricks.remove(i) =~= before + after);
    } else {
        assert(all =~= before.push(hit) + after);
    }
}

/// A game begins valid.
pub proof fn lemma_fresh_is_well_formed(now: u64)
    ensures
        GameModel::fresh(now).well_formed(),
{
}

/// Input keeps a valid game valid.
pub proof fn lemma_input_keeps_well_formed(g: GameModel, input: Input, now: u64)
    requires
        g.well_formed(),
    ensures
        g.after_input(input, now).well_formed(),
{
}

/// The collisions of a frame keep a valid game valid.
pub proof fn lemma_resolved_keeps_well_formed(g: GameModel)
    requires
        g.well_formed(),
    ensures
        g.resolved().well_formed(),
{
    let i = g.hit_index();
    lemma_first_hit_is_least(g.bricks, g.ball.bounds(), 0);
    if i < g.bricks.len() {
        let after = bricks_after_hit(g.bricks, i);
        assert(g.bricks[i].well_formed());
        assert forall|j: int| 0 <= j < after.len() implies (#[trigger] after[j]).well_formed() by {
            if g.bricks[i].live <= 1 {
                if j < i {
                    assert(g.bricks[j].well_formed());
                } else {
                    assert(g.bricks[j + 1].well_formed());
                }
            } else {
                if j != i {
                    assert(g.bricks[j].well_formed());
                }
            }
        }
    }
}

/// The physics of a frame keeps a valid game valid.
pub proof fn lemma_physics_keeps_well_formed(g: GameModel, dt: u64, now: u64)
    requires
        g.well_formed(),
    ensures
        g.after_physics(dt, now).well_formed(),
{
    let served = g.after_bottom_exit(now);
    if served.state == State::Running {
        lemma_resolved_keeps_well_formed(served.with_racket_moved(dt));
    }
}

/// In every state that a valid game reaches by a frame, each component of
/// the ball's direction is one step forward or one step back, and the
/// squared length of the direction is two.
pub proof fn lemma_direction_stays_diagonal(g: GameModel, input: Input, now: u64)
    requires
        g.well_formed(),
    ensures
        g.after_frame(input, now).ball.direction.well_formed(),
        g.after_frame(input, now).ball.direction.norm_squared() == 2,
{
    lemma_frame_keeps_well_formed(g, input, now);
    lemma_direction_norm(g.after_frame(input, now).ball.direction);
}

/// After a frame the racket lies inside the window.
pub proof fn lemma_racket_stays_inside(g: GameModel, input: Input, now: u64)
    requires
        g.well_formed(),
    ensures
        0 <= g.after_frame(input, now).racket.x <= RACKET_MAX_X,
{
    lemma_frame_keeps_well_formed(g, input, now);
}

/// The racket lies inside the window after any move, wherever it was before.
pub proof fn lemma_moved_racket_inside(r: Racket, dt: u64)
    ensures
        0 <= moved_racket(r, dt).x <= RACKET_MAX_X,
{
}

/// After a frame every brick that is left has health, and no more of it
/// than the palette has colours for.
pub proof fn lemma_bricks_stay_alive(g: GameModel, input: Input, now: u64, i: int)
    requires
        g.well_formed(),
        0 <= i < g.after_frame(input, now).bricks.len(),
    ensures
        1 <= g.after_frame(input, now).bricks[i].live < PALETTE_SIZE,
{
    lemma_frame_keeps_well_formed(g, input, now);
    assert(g.after_frame(input, now).bricks[i].well_formed());
}

/// A frame keeps a valid game valid.
pub proof fn lemma_frame_keeps_well_formed(g: GameModel, input: Input, now: u64)
    requires
        g.well_formed(),
    ensures
        g.after_frame(input, now).well_formed(),
{
    match g.due(now) {
        Some(duration) => {
            lemma_input_keeps_well_formed(g, input, now);
            lemma_physics_keeps_well_formed(g.after_input(input, now), duration, now);
        },
        None => {},
    }
}

/// A frame takes at most one brick out of the game, and takes health from
/// at most one.
pub proof fn lemma_one_brick_per_frame(g: GameModel)
    requires
        g.well_formed(),
    ensures
        g.bricks.len() - 1 <= g.resolved().bricks.len() <= g.bricks.len(),
        g.hit_index() == g.bricks.len() ==> g.resolved().bricks == g.bricks,
{
    lemma_first_hit_is_least(g.bricks, g.ball.bounds(), 0);
}

/// The ball never slows down while it is in play: neither the collisions
/// nor the move change its speed but upwards.
pub proof fn lemma_speed_never_falls(g: GameModel, dt: u64)
    ensures
        g.resolved().ball.speed >= g.ball.speed,
        g.resolved().with_ball_advanced(dt).ball.speed == g.resolved().ball.speed,
{
}

/// The bounce off the racket answers the beginning of an overlap only: a
/// ball that has just been tested against the racket keeps its direction
/// and its speed when it is tested again in the same place.
pub proof fn lemma_racket_bounce_is_debounced(b: Projectile, r: Racket)
    ensures
        after_racket(after_racket(b, r), r) == after_racket(b, r),
        after_racket(b, r).already_in_collision == overlaps(b.bounds(), r.bounds()),
{
}

/// While the game does not run and the ball is above the bottom, the
/// physics changes nothing.
pub proof fn lemma_physics_rests_unless_running(g: GameModel, dt: u64, now: u64)
    requires
        g.state != State::Running,
        g.ball.y < WINDOW_HEIGHT + PROJ_RADIUS,
    ensures
        g.after_physics(dt, now) == g,
{
}

/// The pause key pressed twice gives back the phase.
pub proof fn lemma_pause_twice(state: State)
    ensures
        toggled(toggled(state, true), true) == state,
{
}

/// A life is never taken below zero: the ball that leaves through the
/// bottom with no life in reserve ends the game and leaves the count alone.
pub proof fn lemma_last_life(g: GameModel, now: u64)
    requires
        g.lives == 0,
        g.ball.y >= WINDOW_HEIGHT + PROJ_RADIUS,
    ensures
        g.after_bottom_exit(now).state == State::GameOver,
        g.after_bottom_exit(now).lives == 0,
{
}

/// The game is won in the very frame in which the last brick goes.
pub proof fn lemma_won_when_cleared(g: GameModel)
    ensures
        g.resolved().bricks.len() == 0 ==> g.resolved().state == State::Winning,
        g.resolved().bricks.len() > 0 ==> g.resolved().state == g.state,
{
}

} // verus!
