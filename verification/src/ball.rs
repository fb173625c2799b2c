//! The ball: how it travels, what it collides with, and who scores.
//!
//! A ball that hits a paddle leaves it at an angle that depends only on where
//! it struck. This module computes that angle exactly and keeps it in the
//! ball as its `deflection`; the velocity that belongs to the angle, the
//! ball's speed times its cosine and sine, is worked out by the caller and
//! handed in through [`Ball::deflect`]. Until then the ball takes no update.
//!
//! A serve needs a random direction. The caller hands in a candidate; the
//! ball goes along it or against it, as a coin decides.

use vstd::prelude::*;
use crate::court::{SCREEN_HEIGHT, SCREEN_WIDTH, SLIDER_HEIGHT, SLIDER_WIDTH, X_MARGIN, Side};
use crate::geometry::{Area, Point, Rect};
use crate::player::{Player, PlayerView};
use crate::units::{lemma_quotient_bound, quotient, DEGREE};
use crate::velocity::{Vector, Velocity};

verus! {

/// Side of the square ball: 20 pixels.
pub const BALL_SIZE: i64 = 20_000_000_000;

/// The largest magnitude of a coordinate that a ball can hold.
pub const REACH: i64 = 9_000_000_000_000_000_000;

/// How long the ball rests before the first serve: 5 seconds.
pub const SERVE_DELAY: u64 = 5_000_000;

/// How long the ball rests after a point: 2 seconds.
pub const SCORE_PAUSE: u64 = 2_000_000;

/// Angle at which the ball leaves the top edge of the left paddle: -45 degrees.
pub const LEFT_TOP_ANGLE: i64 = -45_000_000;

/// Angle at which the ball leaves the bottom edge of the left paddle: 45 degrees.
pub const LEFT_BOTTOM_ANGLE: i64 = 45_000_000;

/// Angle at which the ball leaves the top edge of the right paddle: 225 degrees.
pub const RIGHT_TOP_ANGLE: i64 = 225_000_000;

/// Angle at which the ball leaves the bottom edge of the right paddle: 135 degrees.
pub const RIGHT_BOTTOM_ANGLE: i64 = 135_000_000;

/// What one update of the ball ran into.
#[derive(Clone, Copy, Debug, PartialEq, Eq, Structural)]
pub enum CollisionResult {
    /// A player scored; the ball is back at the centre and rests.
    PlayerScores,
    /// The ball hit the paddle that stands on the given side.
    CollideSlider(Side),
    /// The ball bounced off the top or the bottom of the screen.
    CollideTopBottom,
    /// Nothing happened.
    NoEvent,
}

/// The value `s` carried linearly from the range `from` to the range `to`:
/// `from.0` goes to `to.0` and `from.1` to `to.1`. Values outside `from` are
/// carried on along the same line. The quotient is rounded toward zero.
pub open spec fn map_range_spec(from: (int, int), to: (int, int), s: int) -> int {
    to.0 + quotient((s - from.0) * (to.1 - to.0), from.1 - from.0)
}

/// The angle at which the ball leaves a paddle of the given side that it
/// struck `diff` below the paddle's top edge. Angles are measured from the
/// rightward direction, positive toward the bottom of the screen.
pub open spec fn return_angle_spec(side: Side, diff: int) -> int {
    match side {
        Side::Left => map_range_spec(
            (0, SLIDER_HEIGHT as int),
            (LEFT_TOP_ANGLE as int, LEFT_BOTTOM_ANGLE as int),
            diff,
        ),
        Side::Right => map_range_spec(
            (0, SLIDER_HEIGHT as int),
            (RIGHT_TOP_ANGLE as int, RIGHT_BOTTOM_ANGLE as int),
            diff,
        ),
    }
}

/// The ball as the rules see it.
pub struct BallView {
    /// Left edge.
    pub x: int,
    /// Top edge.
    pub y: int,
    /// Velocity.
    pub vel: Vector,
    /// The time before which the ball does not move.
    pub paused_until: int,
    /// The angle at which the ball is to leave the paddle it has just hit,
    /// while its new velocity has not been supplied.
    pub deflection: Option<int>,
}

/// The outcome of one update: the ball, the two paddles, and what happened.
pub struct Step {
    pub ball: BallView,
    pub left: PlayerView,
    pub right: PlayerView,
    pub result: CollisionResult,
}

impl BallView {
    /// The ball rests at time `now`.
    pub open spec fn is_paused(self, now: int) -> bool {
        self.paused_until > now
    }

    /// Both coordinates are within `REACH` of the origin.
    pub open spec fn in_reach(self) -> bool {
        &&& -REACH <= self.x <= REACH
        &&& -REACH <= self.y <= REACH
    }

    /// The bounding square, derived from the position and the fixed size.
    pub open spec fn bounds(self) -> Area {
        Area { x: self.x, y: self.y, w: BALL_SIZE as int, h: BALL_SIZE as int }
    }

    /// The ball after travelling for the time `dt`: its position has grown by
    /// velocity times elapsed time.
    pub open spec fn advanced(self, dt: int) -> BallView {
        BallView { x: self.x + self.vel.x * dt, y: self.y + self.vel.y * dt, ..self }
    }

    /// The ball in the middle of the screen with the velocity `serve`.
    pub open spec fn recentred(self, serve: Vector) -> BallView {
        BallView {
            x: (SCREEN_WIDTH - BALL_SIZE) / 2,
            y: (SCREEN_HEIGHT - BALL_SIZE) / 2,
            vel: serve,
            ..self
        }
    }

    /// The ball reaches past the top or the bottom of the screen.
    pub open spec fn off_wall(self) -> bool {
        self.y > SCREEN_HEIGHT - BALL_SIZE || self.y < 0
    }

    /// The side whose player gets a point for the ball being where it is: the
    /// left player once the ball has passed the right paddle's line, the right
    /// player once it has left the screen on the left. A ball that touches a
    /// wall or a paddle gives no point.
    pub open spec fn scorer(self, left: PlayerView, right: PlayerView) -> Option<Side> {
        if self.off_wall() || left.bounds().overlaps(self.bounds()) || right.bounds().overlaps(
            self.bounds(),
        ) {
            None
        } else if self.x > SCREEN_WIDTH - SLIDER_WIDTH {
            Some(Side::Left)
        } else if self.x < 0 {
            Some(Side::Right)
        } else {
            None
        }
    }

    /// The ball after a point made at time `now`: back in the middle, with the
    /// velocity `serve`, resting for `SCORE_PAUSE`.
    pub open spec fn rearmed(self, now: int, serve: Vector) -> BallView {
        BallView { paused_until: now + SCORE_PAUSE, ..self.recentred(serve) }
    }

    /// What the ball's position leads to, in this order: a wall turns the
    /// vertical velocity round; the first paddle, then the second, stops the
    /// ball flush with its face and asks for the angle of return; a ball past
    /// a paddle's line gives the other player a point.
    pub open spec fn collided(
        self,
        left: PlayerView,
        right: PlayerView,
        now: int,
        serve: Vector,
    ) -> Step {
        if self.off_wall() {
            Step {
                ball: BallView { vel: self.vel.bounced(), ..self },
                left,
                right,
                result: CollisionResult::CollideTopBottom,
            }
        } else if left.bounds().overlaps(self.bounds()) {
            Step {
                ball: BallView {
                    x: SLIDER_WIDTH + X_MARGIN,
                    deflection: Some(return_angle_spec(left.side, self.y - left.y)),
                    ..self
                },
                left,
                right,
                result: CollisionResult::CollideSlider(Side::Left),
            }
        } else if right.bounds().overlaps(self.bounds()) {
            Step {
                ball: BallView {
                    x: SCREEN_WIDTH - SLIDER_WIDTH - BALL_SIZE - X_MARGIN,
                    deflection: Some(return_angle_spec(right.side, self.y - right.y)),
                    ..self
                },
                left,
                right,
                result: CollisionResult::CollideSlider(Side::Right),
            }
        } else if self.x > SCREEN_WIDTH - SLIDER_WIDTH {
            Step {
                ball: self.rearmed(now, serve),
                left: left.scored(),
                right,
                result: CollisionResult::PlayerScores,
            }
        } else if self.x < 0 {
            Step {
                ball: self.rearmed(now, serve),
                left,
                right: right.scored(),
                result: CollisionResult::PlayerScores,
            }
        } else {
            Step { ball: self, left, right, result: CollisionResult::NoEvent }
        }
    }

    /// One update at time `now`, after `dt` has elapsed: a resting ball stays
    /// as it is; any other travels for `dt` and then collides.
    pub open spec fn updated(
        self,
        left: PlayerView,
        right: PlayerView,
        now: int,
        dt: int,
        serve: Vector,
    ) -> Step {
        if self.is_paused(now) {
            Step { ball: self, left, right, result: CollisionResult::NoEvent }
        } else {
            self.advanced(dt).collided(left, right, now, serve)
        }
    }

    /// The ball leaving the paddle with the velocity `dir`, if it was waiting
    /// for one.
    pub open spec fn deflected(self, dir: Vector) -> BallView {
        if self.deflection is Some {
            BallView { vel: dir, deflection: None, ..self }
        } else {
            self
        }
    }

    /// A collision can be carried out on machine integers: no angle of return
    /// is outstanding, and a point, if one is due, leaves the score and the
    /// time of the next serve within their types.
    pub open spec fn can_collide(self, left: PlayerView, right: PlayerView, now: int) -> bool {
        &&& self.deflection is None
        &&& self.scorer(left, right) is Some ==> now + SCORE_PAUSE <= u64::MAX
        &&& self.scorer(left, right) == Some(Side::Left) ==> left.score < i32::MAX
        &&& self.scorer(left, right) == Some(Side::Right) ==> right.score < i32::MAX
    }

    /// An update can be carried out on machine integers: no angle of return is
    /// outstanding and, unless the ball rests, it stays in reach and can collide.
    pub open spec fn can_update(
        self,
        left: PlayerView,
        right: PlayerView,
        now: int,
        dt: int,
    ) -> bool {
        &&& self.deflection is None
        &&& !self.is_paused(now) ==> self.advanced(dt).in_reach() && self.advanced(
            dt,
        ).can_collide(left, right, now)
    }
}

impl BallView {
    /// A ball that reaches past the top or the bottom of the screen bounces:
    /// the vertical component of its velocity changes sign and nothing else
    /// changes, neither the horizontal component nor the position, the
    /// paddles or the scores.
    pub proof fn lemma_wall_turns_vertical_only(
        self,
        left: PlayerView,
        right: PlayerView,
        now: int,
        serve: Vector,
    )
        requires
            self.y < 0 || self.y + BALL_SIZE > SCREEN_HEIGHT,
        ensures
            self.collided(left, right, now, serve).result == CollisionResult::CollideTopBottom,
            self.collided(left, right, now, serve).ball.vel.y == -self.vel.y,
            self.collided(left, right, now, serve).ball.vel.x == self.vel.x,
            self.collided(left, right, now, serve).ball == (BallView {
                vel: self.collided(left, right, now, serve).ball.vel,
                ..self
            }),
            self.collided(left, right, now, serve).left == left,
            self.collided(left, right, now, serve).right == right,
    {
    }

    /// Where both paddles overlap the ball, the first one counts.
    pub proof fn lemma_first_paddle_wins(
        self,
        left: PlayerView,
        right: PlayerView,
        now: int,
        serve: Vector,
    )
        requires
            !self.off_wall(),
            left.bounds().overlaps(self.bounds()),
        ensures
            self.collided(left, right, now, serve).result == CollisionResult::CollideSlider(
                Side::Left,
            ),
    {
    }

    /// A ball stopped by a paddle stands flush with the paddle's face, at the
    /// height at which it struck, and no longer overlaps the paddle.
    pub proof fn lemma_paddle_stops_ball_flush(
        self,
        left: PlayerView,
        right: PlayerView,
        now: int,
        serve: Vector,
    )
        requires
            left.side == Side::Left,
            right.side == Side::Right,
            self.collided(left, right, now, serve).result is CollideSlider,
        ensures
            self.collided(left, right, now, serve).ball.y == self.y,
            self.collided(left, right, now, serve).result == CollisionResult::CollideSlider(
                Side::Left,
            ) ==> self.collided(left, right, now, serve).ball.bounds().left()
                == left.bounds().right(),
            self.collided(left, right, now, serve).result == CollisionResult::CollideSlider(
                Side::Right,
            ) ==> self.collided(left, right, now, serve).ball.bounds().right()
                == right.bounds().left(),
            !left.bounds().overlaps(self.collided(left, right, now, serve).ball.bounds()),
            !right.bounds().overlaps(self.collided(left, right, now, serve).ball.bounds()),
    {
    }

    /// A ball that has left the screen on the left, between top and bottom,
    /// touches no paddle and gives the right player exactly one point; one
    /// that has passed the right paddle's line gives the left player one. The
    /// other score stays, no paddle moves, the ball is back in the middle, and
    /// the update reports the point.
    pub proof fn lemma_ball_out_scores(
        self,
        left: PlayerView,
        right: PlayerView,
        now: int,
        serve: Vector,
    )
        requires
            !self.off_wall(),
            self.x < 0 || self.x > SCREEN_WIDTH - SLIDER_WIDTH,
        ensures
            self.collided(left, right, now, serve).result == CollisionResult::PlayerScores,
            self.collided(left, right, now, serve).ball == self.rearmed(now, serve),
            self.x < 0 ==> self.collided(left, right, now, serve).right == right.scored()
                && self.collided(left, right, now, serve).left == left,
            self.x > SCREEN_WIDTH - SLIDER_WIDTH ==> self.collided(left, right, now, serve).left
                == left.scored() && self.collided(left, right, now, serve).right == right,
    {
    }

    /// After a point made at time `now` the ball is exactly in the middle of
    /// the screen and rests for `SCORE_PAUSE`: an update at any time before
    /// `now + SCORE_PAUSE` leaves the ball and the paddles as they are,
    /// whatever time it is told has elapsed, and reports nothing.
    pub proof fn lemma_point_rests_the_ball(
        self,
        left: PlayerView,
        right: PlayerView,
        now: int,
        dt: int,
        serve: Vector,
        later: int,
        later_left: PlayerView,
        later_right: PlayerView,
        later_dt: int,
        later_serve: Vector,
    )
        requires
            self.updated(left, right, now, dt, serve).result == CollisionResult::PlayerScores,
            later < now + SCORE_PAUSE,
        ensures
            self.updated(left, right, now, dt, serve).ball.x == (SCREEN_WIDTH - BALL_SIZE) / 2,
            self.updated(left, right, now, dt, serve).ball.y == (SCREEN_HEIGHT - BALL_SIZE) / 2,
            self.updated(left, right, now, dt, serve).ball.paused_until == now + SCORE_PAUSE,
            self.updated(left, right, now, dt, serve).ball.updated(
                later_left,
                later_right,
                later,
                later_dt,
                later_serve,
            ) == (Step {
                ball: self.updated(left, right, now, dt, serve).ball,
                left: later_left,
                right: later_right,
                result: CollisionResult::NoEvent,
            }),
    {
    }

    /// The ball keeps its speed: if its velocity and the velocity of the next
    /// serve have the ball's speed, so has its velocity after an update, and
    /// after it has been given a velocity of that speed to leave a paddle with.
    pub proof fn lemma_speed_is_kept(
        self,
        left: PlayerView,
        right: PlayerView,
        now: int,
        dt: int,
        serve: Vector,
        dir: Vector,
    )
        requires
            self.vel.is_speed(),
            serve.is_speed(),
            dir.is_speed(),
        ensures
            self.updated(left, right, now, dt, serve).ball.vel.is_speed(),
            self.deflected(dir).vel.is_speed(),
            self.deflection is Some ==> self.deflected(dir).vel == dir,
    {
        self.vel.lemma_norm_of_negations();
    }
}

/// A range carried to another takes its ends to the other's ends, and, where
/// both ranges have a whole midpoint, its midpoint to the other's midpoint.
pub proof fn lemma_map_range_ends(from: (int, int), to: (int, int), s: int)
    requires
        from.0 != from.1,
    ensures
        map_range_spec(from, to, from.0) == to.0,
        map_range_spec(from, to, from.1) == to.1,
        2 * (s - from.0) == from.1 - from.0 && (to.1 - to.0) % 2 == 0 ==> map_range_spec(
            from,
            to,
            s,
        ) == to.0 + (to.1 - to.0) / 2,
{
    let width = from.1 - from.0;
    let rise = to.1 - to.0;
    assert(quotient(0 * rise, width) == 0) by (nonlinear_arith)
        requires
            width != 0,
    ;
    lemma_quotient_of_multiple(rise, width);
    assert(width * rise == rise * width) by (nonlinear_arith);
    if 2 * (s - from.0) == width && rise % 2 == 0 {
        let half = rise / 2;
        assert((s - from.0) * rise == half * width) by (nonlinear_arith)
            requires
                2 * (s - from.0) == width,
                rise == 2 * half,
        ;
        lemma_quotient_of_multiple(half, width);
    }
}

/// Dividing a multiple of the divisor gives the multiplier back.
pub proof fn lemma_quotient_of_multiple(k: int, d: int)
    requires
        d != 0,
    ensures
        quotient(k * d, d) == k,
{
    assert((k * d) / d == k) by (nonlinear_arith)
        requires
            d != 0,
    ;
    assert(((-k) * d) / d == -k) by (nonlinear_arith)
        requires
            d != 0,
    ;
    assert(-(k * d) == (-k) * d) by (nonlinear_arith);
}

/// The angles of return. The left paddle sends the ball to the right: level
/// from its middle, 45 degrees upward from its top edge and 45 degrees
/// downward from its bottom edge. The right paddle sends it to the left as
/// in a mirror: for every `diff` its angle is 180 degrees minus the left
/// paddle's.
pub proof fn lemma_return_angles(diff: int)
    ensures
        return_angle_spec(Side::Left, 0) == -45 * DEGREE,
        return_angle_spec(Side::Left, SLIDER_HEIGHT as int) == 45 * DEGREE,
        2 * diff == SLIDER_HEIGHT ==> return_angle_spec(Side::Left, diff) == 0,
        return_angle_spec(Side::Right, 0) == 225 * DEGREE,
        return_angle_spec(Side::Right, SLIDER_HEIGHT as int) == 135 * DEGREE,
        2 * diff == SLIDER_HEIGHT ==> return_angle_spec(Side::Right, diff) == 180 * DEGREE,
        return_angle_spec(Side::Right, diff) == 180 * DEGREE - return_angle_spec(Side::Left, diff),
{
    let from = (0int, SLIDER_HEIGHT as int);
    let left = (LEFT_TOP_ANGLE as int, LEFT_BOTTOM_ANGLE as int);
    let right = (RIGHT_TOP_ANGLE as int, RIGHT_BOTTOM_ANGLE as int);
    lemma_map_range_ends(from, left, diff);
    lemma_map_range_ends(from, right, diff);
    assert((diff - 0) * (LEFT_BOTTOM_ANGLE - LEFT_TOP_ANGLE) == diff * 90_000_000);
    assert((diff - 0) * (RIGHT_BOTTOM_ANGLE - RIGHT_TOP_ANGLE) == -(diff * 90_000_000));
}

/// Calls `rand::random::<bool>()`, which draws one value from the thread's
/// random number generator. Nothing is claimed of the result: two calls may
/// differ.
#[verifier::external_body]
fn coin_flip() -> (heads: bool) {
    rand::random::<bool>()
}

/// The position at which a ball is centred on the screen.
pub fn center_pos() -> (r: Point)
    ensures
        r.x == (SCREEN_WIDTH - BALL_SIZE) / 2,
        r.y == (SCREEN_HEIGHT - BALL_SIZE) / 2,
{
    Point { x: (SCREEN_WIDTH - BALL_SIZE) / 2, y: (SCREEN_HEIGHT - BALL_SIZE) / 2 }
}

/// Carries `s` linearly from `from_range` to `to_range` (see [`map_range_spec`]).
///
/// The range carried from must not be empty, and the product and the result
/// must fit the integers they are computed in.
pub fn map_range(from_range: (i64, i64), to_range: (i64, i64), s: i64) -> (r: i64)
    requires
        from_range.0 != from_range.1,
        -i128::MAX <= (s - from_range.0) * (to_range.1 - to_range.0) <= i128::MAX,
        i64::MIN <= map_range_spec(
            (from_range.0 as int, from_range.1 as int),
            (to_range.0 as int, to_range.1 as int),
            s as int,
        ) <= i64::MAX,
    ensures
        r == map_range_spec(
            (from_range.0 as int, from_range.1 as int),
            (to_range.0 as int, to_range.1 as int),
            s as int,
        ),
{
    let run: i128 = s as i128 - from_range.0 as i128;
    let rise: i128 = to_range.1 as i128 - to_range.0 as i128;
    let width: i128 = from_range.1 as i128 - from_range.0 as i128;
    proof {
        lemma_quotient_bound(run * rise, width as int);
    }
    let carried: i128 = run * rise / width;
    (to_range.0 as i128 + carried) as i64
}

/// Computes [`return_angle_spec`] for a ball that struck a paddle `diff`
/// below its top edge.
pub fn return_angle(side: Side, diff: i64) -> (r: i64)
    ensures
        r == return_angle_spec(side, diff as int),
{
    proof {
        lemma_return_angle_bound(side, diff as int);
    }
    match side {
        Side::Left => map_range((0, SLIDER_HEIGHT), (LEFT_TOP_ANGLE, LEFT_BOTTOM_ANGLE), diff),
        Side::Right => map_range((0, SLIDER_HEIGHT), (RIGHT_TOP_ANGLE, RIGHT_BOTTOM_ANGLE), diff),
    }
}

/// The ball. Its coordinates are always within `REACH` of the origin.
#[derive(Clone, Copy, Debug)]
pub struct Ball {
    pos: Point,
    vel: Velocity,
    paused_until: u64,
    deflection: Option<i64>,
}

impl View for Ball {
    type V = BallView;

    closed spec fn view(&self) -> BallView {
        BallView {
            x: self.pos.x as int,
            y: self.pos.y as int,
            vel: self.vel@,
            paused_until: self.paused_until as int,
            deflection: match self.deflection {
                Some(angle) => Some(angle as int),
                None => None,
            },
        }
    }
}

impl Ball {
    #[verifier::type_invariant]
    spec fn within_reach(self) -> bool {
        self@.in_reach()
    }

    /// A ball in the middle of the screen that moves with `vel` once the
    /// serve delay after `now` is over.
    pub fn with_velocity(now: u64, vel: Velocity) -> (r: Ball)
        requires
            now + SERVE_DELAY <= u64::MAX,
        ensures
            r@ == (BallView {
                x: (SCREEN_WIDTH - BALL_SIZE) / 2,
                y: (SCREEN_HEIGHT - BALL_SIZE) / 2,
                vel: vel@,
                paused_until: now + SERVE_DELAY,
                deflection: None,
            }),
    {
        Ball { pos: center_pos(), vel, paused_until: now + SERVE_DELAY, deflection: None }
    }

    /// A ball in the middle of the screen that is served, once the serve
    /// delay after `now` is over, along `candidate` or against it, as a coin
    /// decides.
    pub fn new(now: u64, candidate: Velocity) -> (r: Ball)
        requires
            now + SERVE_DELAY <= u64::MAX,
        ensures
            r@.x == (SCREEN_WIDTH - BALL_SIZE) / 2,
            r@.y == (SCREEN_HEIGHT - BALL_SIZE) / 2,
            r@.vel == candidate@ || r@.vel == candidate@.reversed(),
            r@.paused_until == now + SERVE_DELAY,
            r@.deflection is None,
    {
        Ball::with_velocity(now, Ball::random_vel(candidate))
    }

    /// The velocity of a serve: `candidate` or its opposite, as a coin decides.
    pub fn random_vel(candidate: Velocity) -> (r: Velocity)
        ensures
            r@ == candidate@ || r@ == candidate@.reversed(),
    {
        candidate.oriented(coin_flip())
    }

    /// The top-left corner.
    pub fn pos(&self) -> (r: Point)
        ensures
            r.x == self@.x,
            r.y == self@.y,
            self@.in_reach(),
    {
        proof {
            use_type_invariant(self);
        }
        self.pos
    }

    /// The velocity.
    pub fn vel(&self) -> (r: Velocity)
        ensures
            r@ == self@.vel,
    {
        self.vel
    }

    /// The bounding square.
    pub fn bounds(&self) -> (r: Rect)
        ensures
            r@ == self@.bounds(),
            self@.in_reach(),
    {
        proof {
            use_type_invariant(self);
        }
        Rect { x: self.pos.x, y: self.pos.y, w: BALL_SIZE, h: BALL_SIZE }
    }

    /// The time before which the ball does not move.
    pub fn paused_until(&self) -> (r: u64)
        ensures
            r == self@.paused_until,
    {
        self.paused_until
    }

    /// The angle at which the ball is to leave the paddle it has just hit, as
    /// long as [`Ball::deflect`] has not supplied the velocity for it.
    pub fn deflection(&self) -> (r: Option<i64>)
        ensures
            r is Some <==> self@.deflection is Some,
            r matches Some(angle) ==> self@.deflection == Some(angle as int),
    {
        self.deflection
    }

    /// Whether the ball rests at time `now`.
    pub fn is_paused(&self, now: u64) -> (r: bool)
        ensures
            r == self@.is_paused(now as int),
    {
        self.paused_until > now
    }

    /// Lets the ball rest until `duration` after `now`.
    pub fn pause(&mut self, now: u64, duration: u64)
        requires
            now + duration <= u64::MAX,
        ensures
            final(self)@ == (BallView { paused_until: now + duration, ..old(self)@ }),
    {
        proof {
            use_type_invariant(&*self);
        }
        self.paused_until = now + duration;
    }

    /// Puts the ball's top-left corner at `p`.
    pub fn set_position(&mut self, p: Point)
        requires
            -REACH <= p.x <= REACH,
            -REACH <= p.y <= REACH,
        ensures
            final(self)@ == (BallView { x: p.x as int, y: p.y as int, ..old(self)@ }),
    {
        self.pos = p;
    }

    /// Lets the ball travel for the time `dt`.
    pub fn update_pos(&mut self, dt: u64)
        requires
            old(self)@.advanced(dt as int).in_reach(),
        ensures
            final(self)@ == old(self)@.advanced(dt as int),
    {
        let vx: i64 = self.vel.x();
        let vy: i64 = self.vel.y();
        proof {
            lemma_displacement_bound(vx as int, dt as int);
            lemma_displacement_bound(vy as int, dt as int);
        }
        let x: i128 = self.pos.x as i128 + vx as i128 * dt as i128;
        let y: i128 = self.pos.y as i128 + vy as i128 * dt as i128;
        self.pos = Point { x: x as i64, y: y as i64 };
    }

    /// Puts the ball back in the middle of the screen and serves it along
    /// `candidate` or against it, as a coin decides.
    pub fn reset_pos(&mut self, candidate: Velocity)
        ensures
            final(self)@ == old(self)@.recentred(candidate@) || final(self)@ == old(
                self,
            )@.recentred(candidate@.reversed()),
    {
        self.set_position(center_pos());
        self.vel = Ball::random_vel(candidate);
    }

    /// The side whose player gets a point for the ball being where it is.
    pub fn scorer(&self, players: &(Player, Player)) -> (r: Option<Side>)
        ensures
            r == self@.scorer(players.0@, players.1@),
    {
        let bounds = self.bounds();
        if self.pos.y > SCREEN_HEIGHT - BALL_SIZE || self.pos.y < 0 {
            None
        } else if players.0.bounds().overlaps(&bounds) || players.1.bounds().overlaps(&bounds) {
            None
        } else if self.pos.x > SCREEN_WIDTH - SLIDER_WIDTH {
            Some(Side::Left)
        } else if self.pos.x < 0 {
            Some(Side::Right)
        } else {
            None
        }
    }

    /// Whether [`Ball::check_collision`] can be called at time `now`.
    pub fn can_collide(&self, now: u64, players: &(Player, Player)) -> (r: bool)
        ensures
            r == self@.can_collide(players.0@, players.1@, now as int),
    {
        if self.deflection.is_some() {
            return false;
        }
        match self.scorer(players) {
            None => true,
            Some(Side::Left) => now <= u64::MAX - SCORE_PAUSE && players.0.score() < i32::MAX,
            Some(Side::Right) => now <= u64::MAX - SCORE_PAUSE && players.1.score() < i32::MAX,
        }
    }

    /// Whether [`Ball::update`] can be called at time `now` with the elapsed
    /// time `dt`.
    pub fn can_update(&self, now: u64, dt: u64, players: &(Player, Player)) -> (r: bool)
        ensures
            r == self@.can_update(players.0@, players.1@, now as int, dt as int),
    {
        if self.deflection.is_some() {
            return false;
        }
        if self.is_paused(now) {
            return true;
        }
        let vx: i64 = self.vel.x();
        let vy: i64 = self.vel.y();
        proof {
            use_type_invariant(self);
            lemma_displacement_bound(vx as int, dt as int);
            lemma_displacement_bound(vy as int, dt as int);
        }
        let x: i128 = self.pos.x as i128 + vx as i128 * dt as i128;
        let y: i128 = self.pos.y as i128 + vy as i128 * dt as i128;
        if x < -(REACH as i128) || x > REACH as i128 || y < -(REACH as i128) || y > REACH as i128 {
            return false;
        }
        let mut moved = *self;
        moved.update_pos(dt);
        moved.can_collide(now, players)
    }

    /// Resolves what the ball's position leads to (see [`BallView::collided`]).
    /// A point is given to the player whose opponent let the ball pass; the
    /// ball is then served anew along `candidate` or against it, as a coin
    /// decides, and rests for `SCORE_PAUSE` from `now`.
    pub fn check_collision(
        &mut self,
        now: u64,
        players: &mut (Player, Player),
        candidate: Velocity,
    ) -> (r: CollisionResult)
        requires
            old(self)@.can_collide(old(players).0@, old(players).1@, now as int),
        ensures
            ({
                let step = Step {
                    ball: final(self)@,
                    left: final(players).0@,
                    right: final(players).1@,
                    result: r,
                };
                ||| step == old(self)@.collided(
                    old(players).0@,
                    old(players).1@,
                    now as int,
                    candidate@,
                )
                ||| step == old(self)@.collided(
                    old(players).0@,
                    old(players).1@,
                    now as int,
                    candidate@.reversed(),
                )
            }),
    {
        proof {
            use_type_invariant(&*self);
        }
        if self.pos.y > SCREEN_HEIGHT - BALL_SIZE || self.pos.y < 0 {
            self.vel = self.vel.bounced();
            return CollisionResult::CollideTopBottom;
        }
        let bounds = self.bounds();
        if players.0.bounds().overlaps(&bounds) {
            let angle = return_angle(players.0.side(), self.pos.y - players.0.pos().y);
            self.pos = Point { x: SLIDER_WIDTH + X_MARGIN, y: self.pos.y };
            self.deflection = Some(angle);
            return CollisionResult::CollideSlider(Side::Left);
        }
        if players.1.bounds().overlaps(&bounds) {
            let angle = return_angle(players.1.side(), self.pos.y - players.1.pos().y);
            self.pos = Point { x: SCREEN_WIDTH - SLIDER_WIDTH - BALL_SIZE - X_MARGIN, y: self.pos.y };
            self.deflection = Some(angle);
            return CollisionResult::CollideSlider(Side::Right);
        }
        if self.pos.x > SCREEN_WIDTH - SLIDER_WIDTH {
            players.0.add_point();
            self.reset_pos(candidate);
            self.pause(now, SCORE_PAUSE);
            return CollisionResult::PlayerScores;
        } else if self.pos.x < 0 {
            players.1.add_point();
            self.reset_pos(candidate);
            self.pause(now, SCORE_PAUSE);
            return CollisionResult::PlayerScores;
        }
        CollisionResult::NoEvent
    }

    /// One update at time `now`, after `dt` has elapsed (see
    /// [`BallView::updated`]): a resting ball stays as it is; any other
    /// travels for `dt` and then collides.
    pub fn update(
        &mut self,
        now: u64,
        dt: u64,
        players: &mut (Player, Player),
        candidate: Velocity,
    ) -> (r: CollisionResult)
        requires
            old(self)@.can_update(old(players).0@, old(players).1@, now as int, dt as int),
        ensures
            ({
                let step = Step {
                    ball: final(self)@,
                    left: final(players).0@,
                    right: final(players).1@,
                    result: r,
                };
                ||| step == old(self)@.updated(
                    old(players).0@,
                    old(players).1@,
                    now as int,
                    dt as int,
                    candidate@,
                )
                ||| step == old(self)@.updated(
                    old(players).0@,
                    old(players).1@,
                    now as int,
                    dt as int,
                    candidate@.reversed(),
                )
            }),
    {
        if !self.is_paused(now) {
            self.update_pos(dt);
            return self.check_collision(now, players, candidate);
        }
        CollisionResult::NoEvent
    }

    /// Gives the ball the velocity `dir` with which it leaves the paddle it
    /// has hit. Where the ball was not waiting for one, nothing changes.
    /// Returns whether the velocity was taken.
    pub fn deflect(&mut self, dir: Velocity) -> (r: bool)
        ensures
            r == (old(self)@.deflection is Some),
            final(self)@ == old(self)@.deflected(dir@),
    {
        proof {
            use_type_invariant(&*self);
        }
        if self.deflection.is_some() {
            self.vel = dir;
            self.deflection = None;
            true
        } else {
            false
        }
    }
}

/// The angle of return is a quarter turn for each paddle height of `diff`,
/// so for every `diff` that is a machine integer it is one too.
pub proof fn lemma_return_angle_bound(side: Side, diff: int)
    requires
        i64::MIN <= diff <= i64::MAX,
    ensures
        -i64::MAX * 0x1_0000_0000 < diff * (LEFT_BOTTOM_ANGLE - LEFT_TOP_ANGLE) < i64::MAX
            * 0x1_0000_0000,
        -i64::MAX * 0x1_0000_0000 < diff * (RIGHT_BOTTOM_ANGLE - RIGHT_TOP_ANGLE) < i64::MAX
            * 0x1_0000_0000,
        -REACH <= return_angle_spec(side, diff) <= REACH,
{
    assert((diff - 0) * (LEFT_BOTTOM_ANGLE - LEFT_TOP_ANGLE) == diff * 90_000_000);
    assert((diff - 0) * (RIGHT_BOTTOM_ANGLE - RIGHT_TOP_ANGLE) == diff * (-90_000_000));
    assert(SLIDER_HEIGHT - 0 == 150_000_000_000);
}

/// A product of a speed component and an elapsed time is far from the limits
/// of 128-bit integers.
proof fn lemma_displacement_bound(v: int, dt: int)
    by (nonlinear_arith)
    requires
        -2_000_000 <= v <= 2_000_000,
        0 <= dt <= u64::MAX,
    ensures
        -2_000_000 * u64::MAX <= v * dt <= 2_000_000 * u64::MAX,
{
}

} // verus!
