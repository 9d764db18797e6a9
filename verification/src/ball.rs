//! The ball: fixed-point motion integration, wall and paddle bounces, and a
//! randomized launch.
//!
//! Positions and lengths are in milliunits (thousandths of a pixel),
//! velocities in milliunits per millisecond, durations in milliseconds.

use vstd::arithmetic::div_mod::{
    lemma_div_is_ordered, lemma_div_multiples_vanish, lemma_fundamental_div_mod,
    lemma_mod_multiples_basic,
};
use vstd::math::abs;
use vstd::prelude::*;

verus! {

/// The ball: a square of side `size` whose center is at `(x, y)`.
pub struct Ball {
    /// Horizontal position of the center.
    pub x: i64,
    /// Vertical position of the center.
    pub y: i64,
    /// Side of the bounding square.
    pub size: i64,
    /// Horizontal velocity.
    pub vel_x: i64,
    /// Vertical velocity.
    pub vel_y: i64,
    /// Speed a launch hands the ball, fixed at construction.
    pub base_speed: i64,
}

/// The ball over unbounded integers; every contract speaks of this view.
pub struct BallModel {
    pub x: int,
    pub y: int,
    pub size: int,
    pub vel_x: int,
    pub vel_y: int,
    pub base_speed: int,
}

impl View for Ball {
    type V = BallModel;

    open spec fn view(&self) -> BallModel {
        BallModel {
            x: self.x as int,
            y: self.y as int,
            size: self.size as int,
            vel_x: self.vel_x as int,
            vel_y: self.vel_y as int,
            base_speed: self.base_speed as int,
        }
    }
}

/// The ball after `dt` of free flight: each coordinate advances by exactly
/// velocity times `dt`.
pub open spec fn flown(b: BallModel, dt: int) -> BallModel {
    BallModel { x: b.x + b.vel_x * dt, y: b.y + b.vel_y * dt, ..b }
}

/// The ball with its vertical velocity reversed.
pub open spec fn vertically_deflected(b: BallModel) -> BallModel {
    BallModel { vel_y: -b.vel_y, ..b }
}

/// `v` scaled by exactly 21/20 (five percent up), rounded toward zero.
pub open spec fn scaled_up(v: int) -> int {
    if v >= 0 {
        v * 21 / 20
    } else {
        -((-v) * 21 / 20)
    }
}

/// The ball after a paddle hit: the horizontal velocity is reversed, then
/// both components gain five percent.
pub open spec fn paddle_bounced(b: BallModel) -> BallModel {
    BallModel { vel_x: scaled_up(-b.vel_x), vel_y: scaled_up(b.vel_y), ..b }
}

/// The ball moved horizontally to `x`, everything else kept.
pub open spec fn at_x(b: BallModel, x: int) -> BallModel {
    BallModel { x, ..b }
}

/// The ball's top edge is at or above the top wall.
pub open spec fn touches_top(b: BallModel) -> bool {
    b.y - b.size / 2 <= 0
}

/// The ball's bottom edge is at or below the bottom wall.
pub open spec fn touches_bottom(b: BallModel, screen_height: int) -> bool {
    b.y + b.size / 2 >= screen_height
}

/// Whether the wall check fires: the top wall is tested first, then the
/// bottom one.
pub open spec fn wall_collides(b: BallModel, screen_height: int) -> bool {
    touches_top(b) || touches_bottom(b, screen_height)
}

/// The outcome of the wall check: a ball touching a wall is clamped to rest
/// exactly against it and its vertical velocity is reversed; any other ball
/// is left alone.
pub open spec fn wall_deflected(b: BallModel, screen_height: int) -> BallModel {
    if touches_top(b) {
        BallModel { y: b.size / 2, ..vertically_deflected(b) }
    } else if touches_bottom(b, screen_height) {
        BallModel { y: screen_height - b.size / 2, ..vertically_deflected(b) }
    } else {
        b
    }
}

/// The ball recentered on the screen with its velocity zeroed.
pub open spec fn recentered(b: BallModel, screen_width: int, screen_height: int) -> BallModel {
    BallModel {
        x: screen_width / 2,
        y: screen_height / 2,
        vel_x: 0,
        vel_y: 0,
        ..b
    }
}

/// Sine of `deg` degrees in thousandths, rounded to nearest, for
/// `0 <= deg <= 44`.
pub open spec fn sin_milli(deg: int) -> int {
    if deg <= 0 {
        0
    } else if deg == 1 {
        17
    } else if deg == 2 {
        35
    } else if deg == 3 {
        52
    } else if deg == 4 {
        70
    } else if deg == 5 {
        87
    } else if deg == 6 {
        105
    } else if deg == 7 {
        122
    } else if deg == 8 {
        139
    } else if deg == 9 {
        156
    } else if deg == 10 {
        174
    } else if deg == 11 {
        191
    } else if deg == 12 {
        208
    } else if deg == 13 {
        225
    } else if deg == 14 {
        242
    } else if deg == 15 {
        259
    } else if deg == 16 {
        276
    } else if deg == 17 {
        292
    } else if deg == 18 {
        309
    } else if deg == 19 {
        326
    } else if deg == 20 {
        342
    } else if deg == 21 {
        358
    } else if deg == 22 {
        375
    } else if deg == 23 {
        391
    } else if deg == 24 {
        407
    } else if deg == 25 {
        423
    } else if deg == 26 {
        438
    } else if deg == 27 {
        454
    } else if deg == 28 {
        469
    } else if deg == 29 {
        485
    } else if deg == 30 {
        500
    } else if deg == 31 {
        515
    } else if deg == 32 {
        530
    } else if deg == 33 {
        545
    } else if deg == 34 {
        559
    } else if deg == 35 {
        574
    } else if deg == 36 {
        588
    } else if deg == 37 {
        602
    } else if deg == 38 {
        616
    } else if deg == 39 {
        629
    } else if deg == 40 {
        643
    } else if deg == 41 {
        656
    } else if deg == 42 {
        669
    } else if deg == 43 {
        682
    } else {
        695
    }
}

/// Cosine of `deg` degrees in thousandths, rounded to nearest, for
/// `0 <= deg <= 44`.
pub open spec fn cos_milli(deg: int) -> int {
    if deg <= 0 {
        1000
    } else if deg == 1 {
        1000
    } else if deg == 2 {
        999
    } else if deg == 3 {
        999
    } else if deg == 4 {
        998
    } else if deg == 5 {
        996
    } else if deg == 6 {
        995
    } else if deg == 7 {
        993
    } else if deg == 8 {
        990
    } else if deg == 9 {
        988
    } else if deg == 10 {
        985
    } else if deg == 11 {
        982
    } else if deg == 12 {
        978
    } else if deg == 13 {
        974
    } else if deg == 14 {
        970
    } else if deg == 15 {
        966
    } else if deg == 16 {
        961
    } else if deg == 17 {
        956
    } else if deg == 18 {
        951
    } else if deg == 19 {
        946
    } else if deg == 20 {
        940
    } else if deg == 21 {
        934
    } else if deg == 22 {
        927
    } else if deg == 23 {
        921
    } else if deg == 24 {
        914
    } else if deg == 25 {
        906
    } else if deg == 26 {
        899
    } else if deg == 27 {
        891
    } else if deg == 28 {
        883
    } else if deg == 29 {
        875
    } else if deg == 30 {
        866
    } else if deg == 31 {
        857
    } else if deg == 32 {
        848
    } else if deg == 33 {
        839
    } else if deg == 34 {
        829
    } else if deg == 35 {
        819
    } else if deg == 36 {
        809
    } else if deg == 37 {
        799
    } else if deg == 38 {
        788
    } else if deg == 39 {
        777
    } else if deg == 40 {
        766
    } else if deg == 41 {
        755
    } else if deg == 42 {
        743
    } else if deg == 43 {
        731
    } else {
        719
    }
}

/// Horizontal speed a launch at `deg` degrees off the horizontal gives a ball
/// with base speed `base`, before the direction sign is applied.
pub open spec fn launch_speed_x(base: int, deg: int) -> int {
    base * cos_milli(if deg >= 0 { deg } else { -deg }) / 1000
}

/// Vertical speed a launch at `deg` degrees off the horizontal gives a ball
/// with base speed `base`; negative angles aim up.
pub open spec fn launch_speed_y(base: int, deg: int) -> int {
    if deg >= 0 {
        base * sin_milli(deg) / 1000
    } else {
        -(base * sin_milli(-deg) / 1000)
    }
}

/// Some launch angle strictly inside (-45, 45) degrees, together with one of
/// the two horizontal directions, produces exactly this velocity from `base`.
pub open spec fn launched_velocity(vx: int, vy: int, base: int) -> bool {
    exists|deg: int|
        #![auto]
        -44 <= deg <= 44 && (vx == launch_speed_x(base, deg) || vx == -launch_speed_x(
            base,
            deg,
        )) && vy == launch_speed_y(base, deg)
}

/// Relies on rand's `Rng::random_range` over the thread-local generator
/// `rand::rng()`: it returns a uniformly distributed value inside the given
/// range and panics only when the range is empty, which the precondition
/// rules out.  Nothing more is assumed of which value comes back.
#[verifier::external_body]
fn random_in_range(lo: i64, hi: i64) -> (r: i64)
    requires
        lo < hi,
    ensures
        lo <= r < hi,
{
    rand::Rng::random_range(&mut rand::rng(), lo..hi)
}

/// Table lookup for `sin_milli`.
fn sin_milli_of(deg: i64) -> (r: i64)
    requires
        0 <= deg <= 44,
    ensures
        r == sin_milli(deg as int),
        0 <= r <= 695,
{
    if deg <= 0 {
        0
    } else if deg == 1 {
        17
    } else if deg == 2 {
        35
    } else if deg == 3 {
        52
    } else if deg == 4 {
        70
    } else if deg == 5 {
        87
    } else if deg == 6 {
        105
    } else if deg == 7 {
        122
    } else if deg == 8 {
        139
    } else if deg == 9 {
        156
    } else if deg == 10 {
        174
    } else if deg == 11 {
        191
    } else if deg == 12 {
        208
    } else if deg == 13 {
        225
    } else if deg == 14 {
        242
    } else if deg == 15 {
        259
    } else if deg == 16 {
        276
    } else if deg == 17 {
        292
    } else if deg == 18 {
        309
    } else if deg == 19 {
        326
    } else if deg == 20 {
        342
    } else if deg == 21 {
        358
    } else if deg == 22 {
        375
    } else if deg == 23 {
        391
    } else if deg == 24 {
        407
    } else if deg == 25 {
        423
    } else if deg == 26 {
        438
    } else if deg == 27 {
        454
    } else if deg == 28 {
        469
    } else if deg == 29 {
        485
    } else if deg == 30 {
        500
    } else if deg == 31 {
        515
    } else if deg == 32 {
        530
    } else if deg == 33 {
        545
    } else if deg == 34 {
        559
    } else if deg == 35 {
        574
    } else if deg == 36 {
        588
    } else if deg == 37 {
        602
    } else if deg == 38 {
        616
    } else if deg == 39 {
        629
    } else if deg == 40 {
        643
    } else if deg == 41 {
        656
    } else if deg == 42 {
        669
    } else if deg == 43 {
        682
    } else {
        695
    }
}

/// Table lookup for `cos_milli`.
fn cos_milli_of(deg: i64) -> (r: i64)
    requires
        0 <= deg <= 44,
    ensures
        r == cos_milli(deg as int),
        719 <= r <= 1000,
{
    if deg <= 0 {
        1000
    } else if deg == 1 {
        1000
    } else if deg == 2 {
        999
    } else if deg == 3 {
        999
    } else if deg == 4 {
        998
    } else if deg == 5 {
        996
    } else if deg == 6 {
        995
    } else if deg == 7 {
        993
    } else if deg == 8 {
        990
    } else if deg == 9 {
        988
    } else if deg == 10 {
        985
    } else if deg == 11 {
        982
    } else if deg == 12 {
        978
    } else if deg == 13 {
        974
    } else if deg == 14 {
        970
    } else if deg == 15 {
        966
    } else if deg == 16 {
        961
    } else if deg == 17 {
        956
    } else if deg == 18 {
        951
    } else if deg == 19 {
        946
    } else if deg == 20 {
        940
    } else if deg == 21 {
        934
    } else if deg == 22 {
        927
    } else if deg == 23 {
        921
    } else if deg == 24 {
        914
    } else if deg == 25 {
        906
    } else if deg == 26 {
        899
    } else if deg == 27 {
        891
    } else if deg == 28 {
        883
    } else if deg == 29 {
        875
    } else if deg == 30 {
        866
    } else if deg == 31 {
        857
    } else if deg == 32 {
        848
    } else if deg == 33 {
        839
    } else if deg == 34 {
        829
    } else if deg == 35 {
        819
    } else if deg == 36 {
        809
    } else if deg == 37 {
        799
    } else if deg == 38 {
        788
    } else if deg == 39 {
        777
    } else if deg == 40 {
        766
    } else if deg == 41 {
        755
    } else if deg == 42 {
        743
    } else if deg == 43 {
        731
    } else {
        719
    }
}

impl Ball {
    /// Builds a ball at `(x, y)` with zero velocity.
    pub fn new(x: i64, y: i64, size: i64, speed: i64) -> (ball: Ball)
        requires
            0 <= size,
        ensures
            ball@ == (BallModel {
                x: x as int,
                y: y as int,
                size: size as int,
                vel_x: 0,
                vel_y: 0,
                base_speed: speed as int,
            }),
    {
        Ball { x, y, size, vel_x: 0, vel_y: 0, base_speed: speed }
    }

    /// Launches the ball: a random horizontal direction (left or right) and a
    /// random angle strictly inside (-45, 45) degrees give it a new velocity
    /// computed from `base_speed` and the fixed-point sine and cosine.  The
    /// horizontal component is never zero and always dominates the vertical
    /// one, so the ball always makes progress toward one of the players.
    pub fn launch(&mut self)
        requires
            2 <= old(self).base_speed <= crate::VEL_LIMIT,
        ensures
            final(self).x == old(self).x,
            final(self).y == old(self).y,
            final(self).size == old(self).size,
            final(self).base_speed == old(self).base_speed,
            launched_velocity(
                final(self).vel_x as int,
                final(self).vel_y as int,
                old(self).base_speed as int,
            ),
            1 <= abs(final(self).vel_x as int) <= old(self).base_speed,
            abs(final(self).vel_y as int) <= abs(final(self).vel_x as int),
    {
        let going_right: i64 = random_in_range(0, 2);
        let deg: i64 = random_in_range(-44, 45);
        let steepness: i64 = if deg >= 0 {
            deg
        } else {
            -deg
        };
        let cos: i64 = cos_milli_of(steepness);
        let sin: i64 = sin_milli_of(steepness);
        proof {
            lemma_launch_component_bounds(self.base_speed as int, sin as int, cos as int);
        }
        let vx_mag: i64 = self.base_speed * cos / 1000;
        let vy_mag: i64 = self.base_speed * sin / 1000;
        self.vel_x = if going_right == 1 {
            vx_mag
        } else {
            -vx_mag
        };
        self.vel_y = if deg >= 0 {
            vy_mag
        } else {
            -vy_mag
        };
        proof {
            let degi: int = deg as int;
            let base: int = self.base_speed as int;
            assert(vx_mag == launch_speed_x(base, degi));
            assert(self.vel_y == launch_speed_y(base, degi));
            assert(-44 <= degi <= 44 && (self.vel_x == launch_speed_x(base, degi)
                || self.vel_x == -launch_speed_x(base, degi)) && self.vel_y == launch_speed_y(
                base,
                degi,
            ));
        }
    }

    /// Advances the position by exactly velocity times `dt`; nothing is
    /// clamped, so the caller sees an out-of-bounds position and scores it.
    pub fn update(&mut self, dt: i64)
        requires
            0 <= dt,
            i64::MIN <= old(self).vel_x * dt <= i64::MAX,
            i64::MIN <= old(self).x + old(self).vel_x * dt <= i64::MAX,
            i64::MIN <= old(self).vel_y * dt <= i64::MAX,
            i64::MIN <= old(self).y + old(self).vel_y * dt <= i64::MAX,
        ensures
            final(self)@ == flown(old(self)@, dt as int),
    {
        self.x = self.x + self.vel_x * dt;
        self.y = self.y + self.vel_y * dt;
    }

    /// Reverses the horizontal direction after a paddle hit and speeds the
    /// ball up by five percent in both axes.
    pub fn bounce_horizontal(&mut self)
        requires
            -(i64::MAX / 21) <= old(self).vel_x <= i64::MAX / 21,
            -(i64::MAX / 21) <= old(self).vel_y <= i64::MAX / 21,
        ensures
            final(self)@ == paddle_bounced(old(self)@),
    {
        let flipped: i64 = -self.vel_x;
        self.vel_x = scaled_up_speed(flipped);
        self.vel_y = scaled_up_speed(self.vel_y);
    }

    /// Reverses the vertical direction after a wall hit; the speed is kept.
    pub fn bounce_vertical(&mut self)
        requires
            i64::MIN < old(self).vel_y,
        ensures
            final(self)@ == vertically_deflected(old(self)@),
    {
        self.vel_y = -self.vel_y;
    }

    /// Tests the ball against the top wall and then the bottom one: on a hit
    /// the center is clamped so the ball rests exactly against the wall, the
    /// vertical velocity is reversed, and `true` comes back.
    pub fn check_wall_collision(&mut self, screen_height: i64) -> (collided: bool)
        requires
            0 <= old(self).size,
            0 <= screen_height,
            i64::MIN <= old(self).y - old(self).size / 2,
            old(self).y + old(self).size / 2 <= i64::MAX,
            i64::MIN < old(self).vel_y,
        ensures
            final(self)@ == wall_deflected(old(self)@, screen_height as int),
            collided == wall_collides(old(self)@, screen_height as int),
    {
        let half: i64 = self.size / 2;
        if self.y - half <= 0 {
            self.y = half;
            self.bounce_vertical();
            return true;
        }
        if self.y + half >= screen_height {
            self.y = screen_height - half;
            self.bounce_vertical();
            return true;
        }
        false
    }

    /// Puts the ball back at the screen center with zero velocity; it sits
    /// idle until the next launch.
    pub fn reset(&mut self, screen_width: i64, screen_height: i64)
        requires
            0 <= screen_width,
            0 <= screen_height,
        ensures
            final(self)@ == recentered(old(self)@, screen_width as int, screen_height as int),
    {
        self.x = screen_width / 2;
        self.y = screen_height / 2;
        self.vel_x = 0;
        self.vel_y = 0;
    }
}

/// `v` scaled by 21/20, computed on the magnitude so that the division
/// truncates toward zero exactly as `scaled_up` says.
fn scaled_up_speed(v: i64) -> (r: i64)
    requires
        -(i64::MAX / 21) <= v <= i64::MAX / 21,
    ensures
        r == scaled_up(v as int),
{
    if v >= 0 {
        v * 21 / 20
    } else {
        -((-v) * 21 / 20)
    }
}

/// Bounds for the two launch components: with the tabulated sine and cosine
/// of an angle below 45 degrees, the horizontal speed is at least one and at
/// most `base`, and the vertical speed never exceeds the horizontal one.
proof fn lemma_launch_component_bounds(base: int, sin: int, cos: int)
    requires
        2 <= base <= crate::VEL_LIMIT,
        0 <= sin <= 695,
        719 <= cos <= 1000,
    ensures
        1 <= base * cos / 1000 <= base,
        0 <= base * sin / 1000 <= base * cos / 1000,
        base * cos <= i64::MAX,
        base * sin <= i64::MAX,
{
    assert(1438 <= base * cos <= base * 1000) by (nonlinear_arith)
        requires
            2 <= base,
            719 <= cos <= 1000,
    ;
    assert(0 <= base * sin <= base * cos) by (nonlinear_arith)
        requires
            0 <= base,
            0 <= sin,
            sin <= cos,
    ;
    lemma_div_is_ordered(1438, base * cos, 1000);
    lemma_div_is_ordered(base * cos, base * 1000, 1000);
    lemma_div_is_ordered(0, base * sin, 1000);
    lemma_div_is_ordered(base * sin, base * cos, 1000);
    lemma_div_multiples_vanish(base, 1000);
    assert(base * 1000 == 1000 * base);
}

/// A scaled-up value stays within twice any bound on its input.
pub proof fn lemma_scaled_up_within(v: int, bound: int)
    requires
        -bound <= v <= bound,
        0 <= bound,
    ensures
        -2 * bound <= scaled_up(v) <= 2 * bound,
{
    if v >= 0 {
        lemma_div_is_ordered(0, v * 21, 20);
        lemma_div_is_ordered(v * 21, v * 40, 20);
        lemma_div_multiples_vanish(2 * v, 20);
        assert(v * 40 == 20 * (2 * v));
    } else {
        lemma_div_is_ordered(0, (-v) * 21, 20);
        lemma_div_is_ordered((-v) * 21, (-v) * 40, 20);
        lemma_div_multiples_vanish(2 * (-v), 20);
        assert((-v) * 40 == 20 * (2 * (-v)));
    }
}

/// A ball exactly overlapping the top wall (its top edge at zero) collides:
/// the vertical velocity flips sign and the center is clamped to half the
/// ball's size, whatever the screen height.
pub proof fn lemma_wall_collision_at_top(b: BallModel, screen_height: int)
    requires
        b.y - b.size / 2 == 0,
    ensures
        wall_collides(b, screen_height),
        wall_deflected(b, screen_height).vel_y == -b.vel_y,
        wall_deflected(b, screen_height).y == b.size / 2,
{
}

/// Scaling by 21/20 is exact on multiples of 20: the result times 20 equals
/// the input times 21, and a nonzero input strictly grows in magnitude.
proof fn lemma_scaled_up_exact(v: int)
    requires
        v % 20 == 0,
    ensures
        scaled_up(v) * 20 == v * 21,
        v != 0 ==> abs(scaled_up(v)) > abs(v),
{
    lemma_fundamental_div_mod(v, 20);
    let k: int = v / 20;
    assert(v == 20 * k);
    if v >= 0 {
        assert(v * 21 == 20 * (21 * k));
        lemma_div_multiples_vanish(21 * k, 20);
        assert(scaled_up(v) == 21 * k);
    } else {
        assert((-v) * 21 == 20 * (21 * (-k)));
        lemma_div_multiples_vanish(21 * (-k), 20);
        assert(scaled_up(v) == -(21 * (-k)));
    }
}

/// Negating the input negates the scaled result.
proof fn lemma_scaled_up_odd(v: int)
    ensures
        scaled_up(-v) == -scaled_up(v),
{
}

/// One paddle bounce scales both speed components by exactly 21/20 -- five
/// percent up -- whenever both are multiples of 20, and strictly increases
/// the magnitude of every nonzero component.
pub proof fn lemma_bounce_scales_exactly(b: BallModel)
    requires
        b.vel_x % 20 == 0,
        b.vel_y % 20 == 0,
    ensures
        abs(paddle_bounced(b).vel_x) * 20 == abs(b.vel_x) * 21,
        abs(paddle_bounced(b).vel_y) * 20 == abs(b.vel_y) * 21,
        b.vel_x != 0 ==> abs(paddle_bounced(b).vel_x) > abs(b.vel_x),
        b.vel_y != 0 ==> abs(paddle_bounced(b).vel_y) > abs(b.vel_y),
{
    lemma_scaled_up_odd(b.vel_x);
    lemma_scaled_up_exact(b.vel_x);
    lemma_scaled_up_exact(b.vel_y);
}

/// Two paddle bounces compound multiplicatively: the magnitude of each speed
/// component grows by exactly 441/400 -- five percent twice -- whenever both
/// components are multiples of 400.
pub proof fn lemma_bounces_compound(b: BallModel)
    requires
        b.vel_x % 400 == 0,
        b.vel_y % 400 == 0,
    ensures
        abs(paddle_bounced(paddle_bounced(b)).vel_x) * 400 == abs(b.vel_x) * 441,
        abs(paddle_bounced(paddle_bounced(b)).vel_y) * 400 == abs(b.vel_y) * 441,
{
    lemma_scaled_up_compound(b.vel_x);
    lemma_scaled_up_compound(b.vel_y);
    lemma_scaled_up_odd(b.vel_x);
    lemma_scaled_up_odd(scaled_up(b.vel_x));
}

/// Scaling by 21/20 twice is exact on multiples of 400: the result times 400
/// equals the input times 441.
proof fn lemma_scaled_up_compound(v: int)
    requires
        v % 400 == 0,
    ensures
        scaled_up(scaled_up(v)) * 400 == v * 441,
{
    lemma_fundamental_div_mod(v, 400);
    let m: int = v / 400;
    assert(v == 400 * m);
    assert(v == (20 * m) * 20);
    lemma_mod_multiples_basic(20 * m, 20);
    lemma_scaled_up_exact(v);
    let s1: int = scaled_up(v);
    assert(s1 * 20 == 400 * m * 21);
    assert(s1 == 420 * m) by (nonlinear_arith)
        requires
            s1 * 20 == 400 * m * 21,
    ;
    assert(s1 == (21 * m) * 20);
    lemma_mod_multiples_basic(21 * m, 20);
    lemma_scaled_up_exact(s1);
    let s2: int = scaled_up(s1);
    assert(s2 * 20 == 420 * m * 21);
    assert(s2 == 441 * m) by (nonlinear_arith)
        requires
            s2 * 20 == 420 * m * 21,
    ;
}

} // verus!
