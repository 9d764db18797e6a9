//! A player's paddle: an axis-aligned rectangle that slides vertically,
//! clamped to the screen, and an overlap test against the ball.

use vstd::prelude::*;

verus! {

/// One player's paddle.  `(x, y)` is the top-left corner; all lengths and
/// positions are in milliunits, `speed` in milliunits per millisecond.
pub struct Paddle {
    /// Horizontal position of the left edge.
    pub x: i64,
    /// Vertical position of the top edge.
    pub y: i64,
    /// Horizontal extent.
    pub width: i64,
    /// Vertical extent.
    pub height: i64,
    /// How far the paddle slides per millisecond while a key is held.
    pub speed: i64,
}

/// Where the top edge ends up after sliding up by `speed * dt`, clamped so the
/// paddle does not leave the screen through the top.
pub open spec fn slid_up_y(y: int, speed: int, dt: int) -> int {
    if y - speed * dt < 0 {
        0
    } else {
        y - speed * dt
    }
}

/// Where the top edge ends up after sliding down by `speed * dt`, clamped so
/// the paddle's bottom edge does not pass the bottom of the screen.
pub open spec fn slid_down_y(y: int, speed: int, dt: int, screen_height: int, height: int) -> int {
    if y + speed * dt > screen_height - height {
        screen_height - height
    } else {
        y + speed * dt
    }
}

/// Axis-aligned overlap between the paddle's rectangle and the ball's square
/// (centered at `(ball_x, ball_y)`, half-extent `ball_size / 2`).  Edges that
/// merely touch count as overlapping.
pub open spec fn paddle_overlaps_ball(p: Paddle, ball_x: int, ball_y: int, ball_size: int) -> bool {
    &&& ball_x + ball_size / 2 >= p.x
    &&& ball_x - ball_size / 2 <= p.x + p.width
    &&& ball_y + ball_size / 2 >= p.y
    &&& ball_y - ball_size / 2 <= p.y + p.height
}

/// The paddle lies entirely within a screen of the given extent, with
/// nonnegative sizes and a nonnegative speed no faster than `VEL_LIMIT`.
pub open spec fn paddle_within(p: Paddle, screen_width: int, screen_height: int) -> bool {
    &&& 0 <= p.x && p.x + p.width <= screen_width
    &&& 0 <= p.y && p.y + p.height <= screen_height
    &&& 0 <= p.width
    &&& 0 <= p.height
    &&& 0 <= p.speed <= crate::VEL_LIMIT
}

impl Paddle {
    /// Builds a paddle from its top-left corner, extent and speed.
    pub fn new(x: i64, y: i64, width: i64, height: i64, speed: i64) -> (p: Paddle)
        ensures
            p.x == x,
            p.y == y,
            p.width == width,
            p.height == height,
            p.speed == speed,
    {
        Paddle { x, y, width, height, speed }
    }

    /// Slides the paddle up by `speed * dt`, stopping at the top of the
    /// screen.  The clamp is unconditional, so a paddle that starts above the
    /// screen is pulled back onto it.
    pub fn move_up(&mut self, dt: i64)
        requires
            0 <= dt,
            0 <= old(self).speed,
        ensures
            final(self).y == slid_up_y(old(self).y as int, old(self).speed as int, dt as int),
            final(self).x == old(self).x,
            final(self).width == old(self).width,
            final(self).height == old(self).height,
            final(self).speed == old(self).speed,
    {
        proof {
            lemma_product_of_i64_fits(self.speed as int, dt as int);
        }
        let step: i128 = (self.speed as i128) * (dt as i128);
        let target: i128 = (self.y as i128) - step;
        if target < 0 {
            self.y = 0;
        } else {
            self.y = target as i64;
        }
    }

    /// Slides the paddle down by `speed * dt`, stopping where its bottom edge
    /// meets the bottom of the screen.  The clamp is unconditional, so a
    /// paddle that starts below that line is pulled back onto it.
    pub fn move_down(&mut self, dt: i64, screen_height: i64)
        requires
            0 <= dt,
            0 <= old(self).speed,
            0 <= old(self).height,
            0 <= screen_height,
        ensures
            final(self).y == slid_down_y(
                old(self).y as int,
                old(self).speed as int,
                dt as int,
                screen_height as int,
                old(self).height as int,
            ),
            final(self).x == old(self).x,
            final(self).width == old(self).width,
            final(self).height == old(self).height,
            final(self).speed == old(self).speed,
    {
        proof {
            lemma_product_of_i64_fits(self.speed as int, dt as int);
        }
        let limit: i64 = screen_height - self.height;
        let step: i128 = (self.speed as i128) * (dt as i128);
        let target: i128 = (self.y as i128) + step;
        if target > limit as i128 {
            self.y = limit;
        } else {
            self.y = target as i64;
        }
    }

    /// Overlap test between this paddle and the ball's bounding square, edges
    /// touching included.
    pub fn check_collision(&self, ball_x: i64, ball_y: i64, ball_size: i64) -> (hit: bool)
        requires
            0 <= ball_size,
            i64::MIN <= ball_x - ball_size / 2,
            ball_x + ball_size / 2 <= i64::MAX,
            i64::MIN <= ball_y - ball_size / 2,
            ball_y + ball_size / 2 <= i64::MAX,
            i64::MIN <= self.x + self.width <= i64::MAX,
            i64::MIN <= self.y + self.height <= i64::MAX,
        ensures
            hit == paddle_overlaps_ball(*self, ball_x as int, ball_y as int, ball_size as int),
    {
        let half: i64 = ball_size / 2;
        ball_x + half >= self.x && ball_x - half <= self.x + self.width && ball_y + half >= self.y
            && ball_y - half <= self.y + self.height
    }
}

/// The product of two nonnegative 64-bit values fits in 128 bits.
proof fn lemma_product_of_i64_fits(a: int, b: int)
    requires
        0 <= a <= i64::MAX,
        0 <= b <= i64::MAX,
    ensures
        0 <= a * b <= i64::MAX * i64::MAX,
{
    assert(0 <= a * b <= i64::MAX * i64::MAX) by (nonlinear_arith)
        requires
            0 <= a <= i64::MAX,
            0 <= b <= i64::MAX,
    ;
}

/// Neither sliding call can leave the screen: from any position already on the
/// screen, and whatever the duration, the top edge stays at or above zero and
/// the bottom edge at or inside the bottom of the screen.
pub proof fn lemma_moves_stay_on_screen(y: int, speed: int, dt: int, screen_height: int, height: int)
    requires
        0 <= y,
        y + height <= screen_height,
        0 <= speed,
        0 <= dt,
        0 <= height,
    ensures
        0 <= slid_up_y(y, speed, dt),
        slid_up_y(y, speed, dt) + height <= screen_height,
        0 <= slid_down_y(y, speed, dt, screen_height, height),
        slid_down_y(y, speed, dt, screen_height, height) + height <= screen_height,
{
    assert(0 <= speed * dt) by (nonlinear_arith)
        requires
            0 <= speed,
            0 <= dt,
    ;
}

} // verus!
