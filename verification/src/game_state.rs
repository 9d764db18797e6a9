//! The game state: scores, the phase state machine, and the per-frame step
//! that drives the ball, resolves collisions and keeps score.

use crate::ball::{
    at_x, flown, launched_velocity, paddle_bounced, recentered, wall_deflected, Ball, BallModel,
};
use crate::paddle::{paddle_overlaps_ball, paddle_within, Paddle};
use vstd::math::abs;
use vstd::prelude::*;

verus! {

/// The phase the game is in; exactly one is active at a time.
#[derive(PartialEq, Eq, Structural, Clone, Copy, Debug)]
pub enum GamePhase {
    /// The opening screen with the instructions.
    Menu,
    /// A round is being played.
    Playing,
    /// A round is frozen until resumed.
    Paused,
    /// One player has reached the winning score.
    GameOver,
}

/// Paddle width, in milliunits.
pub const PADDLE_WIDTH: i64 = 15_000;

/// Paddle height, in milliunits.
pub const PADDLE_HEIGHT: i64 = 80_000;

/// Gap between each paddle and its side of the screen, in milliunits.
pub const PADDLE_OFFSET: i64 = 30_000;

/// Paddle speed, in milliunits per millisecond.
pub const PADDLE_SPEED: i64 = 400;

/// Side of the ball's square, in milliunits.
pub const BALL_SIZE: i64 = 12_000;

/// The ball's base speed, in milliunits per millisecond.
pub const BALL_SPEED: i64 = 300;

/// Points a player needs to win.
pub const DEFAULT_MAX_SCORE: u32 = 5;

/// Everything the game tracks: screen extent, the ball, both paddles, the
/// scores and the current phase.
pub struct GameState {
    /// Horizontal screen extent, in milliunits; fixed at construction.
    pub screen_width: i64,
    /// Vertical screen extent, in milliunits; fixed at construction.
    pub screen_height: i64,
    /// The phase the game is in.
    pub phase: GamePhase,
    /// The ball.
    pub ball: Ball,
    /// The left player's paddle.
    pub paddle_left: Paddle,
    /// The right player's paddle.
    pub paddle_right: Paddle,
    /// The left player's score.
    pub score_left: u32,
    /// The right player's score.
    pub score_right: u32,
    /// Points needed to win; fixed at construction.
    pub max_score: u32,
}

/// The ball after the in-flight part of one frame: free flight for `dt`, the
/// wall check, then each paddle in turn -- a hit reverses and speeds up the
/// ball and moves it flush against the paddle's inner edge.
pub open spec fn stepped_ball(s: GameState, dt: int) -> BallModel {
    let after_flight = flown(s.ball@, dt);
    let after_walls = wall_deflected(after_flight, s.screen_height as int);
    let after_left = if paddle_overlaps_ball(
        s.paddle_left,
        after_walls.x,
        after_walls.y,
        after_walls.size,
    ) {
        at_x(
            paddle_bounced(after_walls),
            s.paddle_left.x + s.paddle_left.width + after_walls.size / 2,
        )
    } else {
        after_walls
    };
    if paddle_overlaps_ball(s.paddle_right, after_left.x, after_left.y, after_left.size) {
        at_x(paddle_bounced(after_left), s.paddle_right.x - after_left.size / 2)
    } else {
        after_left
    }
}

/// The ball as a fresh round leaves it: recentered on the screen of `s`,
/// size and base speed kept, and launched -- some direction and some angle
/// strictly inside (-45, 45) degrees produced its velocity, the horizontal
/// component is nonzero and dominates the vertical one.
pub open spec fn ball_relaunched(b: BallModel, s: GameState) -> bool {
    &&& b.x == s.screen_width as int / 2
    &&& b.y == s.screen_height as int / 2
    &&& b.size == s.ball@.size
    &&& b.base_speed == s.ball@.base_speed
    &&& launched_velocity(b.vel_x, b.vel_y, b.base_speed)
    &&& 1 <= abs(b.vel_x) <= b.base_speed
    &&& abs(b.vel_y) <= abs(b.vel_x)
}

/// `new` relates to `old` as one `start_round` call: phase `Playing`, the
/// ball recentered and launched, everything else kept.
pub open spec fn round_started(new: GameState, old: GameState) -> bool {
    &&& new.phase == GamePhase::Playing
    &&& ball_relaunched(new.ball@, old)
    &&& new.screen_width == old.screen_width
    &&& new.screen_height == old.screen_height
    &&& new.score_left == old.score_left
    &&& new.score_right == old.score_right
    &&& new.max_score == old.max_score
    &&& new.paddle_left == old.paddle_left
    &&& new.paddle_right == old.paddle_right
}

/// `new` relates to `old` as one `reset` call: both scores zeroed, phase
/// back to the menu, the ball recentered with zero velocity, everything else
/// kept.
pub open spec fn game_reset(new: GameState, old: GameState) -> bool {
    &&& new.score_left == 0
    &&& new.score_right == 0
    &&& new.phase == GamePhase::Menu
    &&& new.ball@ == recentered(old.ball@, old.screen_width as int, old.screen_height as int)
    &&& new.screen_width == old.screen_width
    &&& new.screen_height == old.screen_height
    &&& new.max_score == old.max_score
    &&& new.paddle_left == old.paddle_left
    &&& new.paddle_right == old.paddle_right
}

/// `new` equals `old` except for the phase, which is `phase`.
pub open spec fn phase_switched(new: GameState, old: GameState, phase: GamePhase) -> bool {
    &&& new.phase == phase
    &&& new.ball == old.ball
    &&& new.screen_width == old.screen_width
    &&& new.screen_height == old.screen_height
    &&& new.score_left == old.score_left
    &&& new.score_right == old.score_right
    &&& new.max_score == old.max_score
    &&& new.paddle_left == old.paddle_left
    &&& new.paddle_right == old.paddle_right
}

impl GameState {
    /// The geometry is sound: the screen has positive extent within the
    /// fixed-point range, both paddles lie on it, and the ball's size and
    /// base speed are in range.  Positions, velocities and scores are free:
    /// the frame driver may overwrite them between frames.
    pub open spec fn wf(self) -> bool {
        &&& 0 < self.screen_width <= crate::COORD_LIMIT
        &&& 0 < self.screen_height <= crate::COORD_LIMIT
        &&& 0 <= self.ball.size <= self.screen_height
        &&& 2 <= self.ball.base_speed <= crate::VEL_LIMIT
        &&& paddle_within(self.paddle_left, self.screen_width as int, self.screen_height as int)
        &&& paddle_within(self.paddle_right, self.screen_width as int, self.screen_height as int)
    }

    /// What one frame step needs: a well-formed game and, while playing,
    /// values small enough that the fixed-point arithmetic cannot overflow.
    pub open spec fn step_ready(self, dt: int) -> bool {
        &&& self.wf()
        &&& 0 <= dt <= crate::DT_LIMIT
        &&& (self.phase == GamePhase::Playing ==> {
            &&& -crate::VEL_LIMIT <= self.ball.vel_x <= crate::VEL_LIMIT
            &&& -crate::VEL_LIMIT <= self.ball.vel_y <= crate::VEL_LIMIT
            &&& -crate::COORD_LIMIT <= self.ball.x <= crate::COORD_LIMIT
            &&& -crate::COORD_LIMIT <= self.ball.y <= crate::COORD_LIMIT
            &&& self.score_left < u32::MAX
            &&& self.score_right < u32::MAX
        })
    }

    /// Builds the initial state: phase `Menu`, zero scores, the ball resting
    /// at the screen center, and one paddle near each side, both centered
    /// vertically.
    pub fn new(screen_width: i64, screen_height: i64) -> (game: GameState)
        requires
            PADDLE_OFFSET + PADDLE_WIDTH <= screen_width <= crate::COORD_LIMIT,
            PADDLE_HEIGHT <= screen_height <= crate::COORD_LIMIT,
        ensures
            game.wf(),
            game.screen_width == screen_width,
            game.screen_height == screen_height,
            game.phase == GamePhase::Menu,
            game.score_left == 0,
            game.score_right == 0,
            game.max_score == DEFAULT_MAX_SCORE,
            game.ball@ == (BallModel {
                x: screen_width as int / 2,
                y: screen_height as int / 2,
                size: BALL_SIZE as int,
                vel_x: 0,
                vel_y: 0,
                base_speed: BALL_SPEED as int,
            }),
            game.paddle_left.x == PADDLE_OFFSET,
            game.paddle_left.y == (screen_height - PADDLE_HEIGHT) / 2,
            game.paddle_right.x == screen_width - PADDLE_OFFSET - PADDLE_WIDTH,
            game.paddle_right.y == (screen_height - PADDLE_HEIGHT) / 2,
            game.paddle_left.width == PADDLE_WIDTH,
            game.paddle_left.height == PADDLE_HEIGHT,
            game.paddle_left.speed == PADDLE_SPEED,
            game.paddle_right.width == PADDLE_WIDTH,
            game.paddle_right.height == PADDLE_HEIGHT,
            game.paddle_right.speed == PADDLE_SPEED,
    {
        let paddle_y: i64 = (screen_height - PADDLE_HEIGHT) / 2;
        let paddle_left = Paddle::new(
            PADDLE_OFFSET,
            paddle_y,
            PADDLE_WIDTH,
            PADDLE_HEIGHT,
            PADDLE_SPEED,
        );
        let paddle_right = Paddle::new(
            screen_width - PADDLE_OFFSET - PADDLE_WIDTH,
            paddle_y,
            PADDLE_WIDTH,
            PADDLE_HEIGHT,
            PADDLE_SPEED,
        );
        let ball = Ball::new(screen_width / 2, screen_height / 2, BALL_SIZE, BALL_SPEED);
        GameState {
            screen_width,
            screen_height,
            phase: GamePhase::Menu,
            ball,
            paddle_left,
            paddle_right,
            score_left: 0,
            score_right: 0,
            max_score: DEFAULT_MAX_SCORE,
        }
    }

    /// Starts a round: the ball goes back to the center, is launched in a
    /// random direction, and play begins.
    pub fn start_round(&mut self)
        requires
            old(self).wf(),
        ensures
            round_started(*final(self), *old(self)),
            final(self).wf(),
    {
        self.ball.reset(self.screen_width, self.screen_height);
        self.ball.launch();
        self.phase = GamePhase::Playing;
    }

    /// One frame of play; outside the `Playing` phase nothing happens.  The
    /// ball flies, bounces off walls and paddles, and a ball out past a side
    /// scores for the other player: the game ends when the winning score is
    /// reached, otherwise a new round starts at once.
    pub fn update(&mut self, dt: i64)
        requires
            old(self).step_ready(dt as int),
        ensures
            final(self).wf(),
            final(self).screen_width == old(self).screen_width,
            final(self).screen_height == old(self).screen_height,
            final(self).max_score == old(self).max_score,
            final(self).paddle_left == old(self).paddle_left,
            final(self).paddle_right == old(self).paddle_right,
            old(self).phase != GamePhase::Playing ==> *final(self) == *old(self),
            old(self).phase == GamePhase::Playing ==> ({
                let stepped = stepped_ball(*old(self), dt as int);
                let width: int = old(self).screen_width as int;
                &&& (0 <= stepped.x <= width ==> {
                    &&& final(self).ball@ == stepped
                    &&& final(self).score_left == old(self).score_left
                    &&& final(self).score_right == old(self).score_right
                    &&& final(self).phase == GamePhase::Playing
                })
                &&& (stepped.x < 0 ==> {
                    &&& final(self).score_right == old(self).score_right + 1
                    &&& final(self).score_left == old(self).score_left
                    &&& (game_won(*old(self), old(self).score_left as int, old(self).score_right + 1) ==> {
                        &&& final(self).phase == GamePhase::GameOver
                        &&& final(self).ball@ == stepped
                    })
                    &&& (!game_won(*old(self), old(self).score_left as int, old(self).score_right + 1) ==> {
                        &&& final(self).phase == GamePhase::Playing
                        &&& ball_relaunched(final(self).ball@, *old(self))
                    })
                })
                &&& (stepped.x > width ==> {
                    &&& final(self).score_left == old(self).score_left + 1
                    &&& final(self).score_right == old(self).score_right
                    &&& (game_won(*old(self), old(self).score_left + 1, old(self).score_right as int) ==> {
                        &&& final(self).phase == GamePhase::GameOver
                        &&& final(self).ball@ == stepped
                    })
                    &&& (!game_won(*old(self), old(self).score_left + 1, old(self).score_right as int) ==> {
                        &&& final(self).phase == GamePhase::Playing
                        &&& ball_relaunched(final(self).ball@, *old(self))
                    })
                })
            }),
    {
        if self.phase != GamePhase::Playing {
            return;
        }
        proof {
            lemma_step_displacement_fits(self.ball.vel_x as int, self.ball.vel_y as int, dt as int);
        }
        self.ball.update(dt);
        self.ball.check_wall_collision(self.screen_height);
        let ghost after_walls: BallModel = self.ball@;
        if self.paddle_left.check_collision(self.ball.x, self.ball.y, self.ball.size) {
            self.ball.bounce_horizontal();
            self.ball.x = self.paddle_left.x + self.paddle_left.width + self.ball.size / 2;
        }
        if self.paddle_right.check_collision(self.ball.x, self.ball.y, self.ball.size) {
            proof {
                crate::ball::lemma_scaled_up_within(-after_walls.vel_x, crate::VEL_LIMIT as int);
                crate::ball::lemma_scaled_up_within(after_walls.vel_y, crate::VEL_LIMIT as int);
            }
            self.ball.bounce_horizontal();
            self.ball.x = self.paddle_right.x - self.ball.size / 2;
        }
        if self.ball.x < 0 {
            self.score_right = self.score_right + 1;
            self.check_game_over();
            if self.phase != GamePhase::GameOver {
                self.start_round();
            }
        } else if self.ball.x > self.screen_width {
            self.score_left = self.score_left + 1;
            self.check_game_over();
            if self.phase != GamePhase::GameOver {
                self.start_round();
            }
        }
    }

    /// Ends the game when either score has reached the winning score.
    fn check_game_over(&mut self)
        ensures
            final(self).phase == (if game_won(
                *old(self),
                old(self).score_left as int,
                old(self).score_right as int,
            ) {
                GamePhase::GameOver
            } else {
                old(self).phase
            }),
            final(self).ball == old(self).ball,
            final(self).screen_width == old(self).screen_width,
            final(self).screen_height == old(self).screen_height,
            final(self).score_left == old(self).score_left,
            final(self).score_right == old(self).score_right,
            final(self).max_score == old(self).max_score,
            final(self).paddle_left == old(self).paddle_left,
            final(self).paddle_right == old(self).paddle_right,
    {
        if self.score_left >= self.max_score || self.score_right >= self.max_score {
            self.phase = GamePhase::GameOver;
        }
    }

    /// Resets the whole game: both scores to zero, the ball recentered with
    /// zero velocity, and the phase back to the menu -- from any phase.
    pub fn reset(&mut self)
        requires
            0 <= old(self).screen_width,
            0 <= old(self).screen_height,
        ensures
            game_reset(*final(self), *old(self)),
            old(self).wf() ==> final(self).wf(),
    {
        self.score_left = 0;
        self.score_right = 0;
        self.ball.reset(self.screen_width, self.screen_height);
        self.phase = GamePhase::Menu;
    }

    /// The start/pause action: from the menu it starts a round, during play
    /// it pauses, while paused it resumes, and after a game it resets
    /// everything back to the menu.
    pub fn handle_start_pause(&mut self)
        requires
            old(self).phase == GamePhase::Menu ==> old(self).wf(),
            old(self).phase == GamePhase::GameOver ==> 0 <= old(self).screen_width && 0 <= old(
                self,
            ).screen_height,
        ensures
            old(self).phase == GamePhase::Menu ==> round_started(*final(self), *old(self))
                && final(self).wf(),
            old(self).phase == GamePhase::Playing ==> phase_switched(
                *final(self),
                *old(self),
                GamePhase::Paused,
            ),
            old(self).phase == GamePhase::Paused ==> phase_switched(
                *final(self),
                *old(self),
                GamePhase::Playing,
            ),
            old(self).phase == GamePhase::GameOver ==> game_reset(*final(self), *old(self)),
    {
        match self.phase {
            GamePhase::Menu => self.start_round(),
            GamePhase::Playing => self.phase = GamePhase::Paused,
            GamePhase::Paused => self.phase = GamePhase::Playing,
            GamePhase::GameOver => self.reset(),
        }
    }

    /// The cancel action: from the menu it asks the frame driver to quit the
    /// program; from any other phase it resets the game back to the menu.
    pub fn handle_cancel(&mut self) -> (quit: bool)
        requires
            old(self).phase != GamePhase::Menu ==> 0 <= old(self).screen_width && 0 <= old(
                self,
            ).screen_height,
        ensures
            quit == (old(self).phase == GamePhase::Menu),
            old(self).phase == GamePhase::Menu ==> *final(self) == *old(self),
            old(self).phase != GamePhase::Menu ==> game_reset(*final(self), *old(self)),
    {
        if self.phase == GamePhase::Menu {
            true
        } else {
            self.reset();
            false
        }
    }
}

/// Either candidate score has reached the winning score of `s`.
pub open spec fn game_won(s: GameState, score_left: int, score_right: int) -> bool {
    score_left >= s.max_score || score_right >= s.max_score
}

/// A velocity within `VEL_LIMIT` applied for at most `DT_LIMIT` keeps each
/// displacement, and so each intermediate position, well inside the 64-bit
/// range.
proof fn lemma_step_displacement_fits(vel_x: int, vel_y: int, dt: int)
    requires
        -crate::VEL_LIMIT <= vel_x <= crate::VEL_LIMIT,
        -crate::VEL_LIMIT <= vel_y <= crate::VEL_LIMIT,
        0 <= dt <= crate::DT_LIMIT,
    ensures
        -1_000_000_000_000_000_000 <= vel_x * dt <= 1_000_000_000_000_000_000,
        -1_000_000_000_000_000_000 <= vel_y * dt <= 1_000_000_000_000_000_000,
{
    assert(-1_000_000_000_000_000_000 <= vel_x * dt <= 1_000_000_000_000_000_000)
        by (nonlinear_arith)
        requires
            -1_000_000_000 <= vel_x <= 1_000_000_000,
            0 <= dt <= 1_000_000_000,
    ;
    assert(-1_000_000_000_000_000_000 <= vel_y * dt <= 1_000_000_000_000_000_000)
        by (nonlinear_arith)
        requires
            -1_000_000_000 <= vel_y <= 1_000_000_000,
            0 <= dt <= 1_000_000_000,
    ;
}

} // verus!
