use vstd::prelude::*;
use crate::field::{cell, cell_of, speed_up, sped_up, HALF_PADDLE, HEIGHT, LIMIT, UNIT, WIDTH};

verus! {

/// The state of a match. Ball coordinates and velocities are in
/// thousandths of a cell (`UNIT` per cell); `y` grows downward.
#[derive(Clone, Copy, Debug, PartialEq, Eq)]
pub struct Game {
    pub ball_x: i64,
    pub ball_y: i64,
    pub ball_dx: i64,
    pub ball_dy: i64,
    pub left_paddle_y: i64,
    pub right_paddle_y: i64,
    pub left_score: u64,
    pub right_score: u64,
}

/// A paddle centre that keeps the whole paddle on the field.
pub open spec fn paddle_ok(p: int) -> bool {
    HALF_PADDLE <= p <= HEIGHT - HALF_PADDLE
}

/// Whether a paddle centred at `paddle` covers the row of coordinate `y`.
pub open spec fn faces(paddle: int, y: int) -> bool {
    paddle - HALF_PADDLE <= cell(y) <= paddle + HALF_PADDLE
}

/// Horizontal velocity of a served ball: one cell per tick, either way.
pub open spec fn serve_dx(toward_right: bool) -> int {
    if toward_right {
        UNIT as int
    } else {
        -UNIT
    }
}

/// Vertical velocity of a served ball: half a cell per tick, either way.
pub open spec fn serve_dy(downward: bool) -> int {
    if downward {
        UNIT / 2
    } else {
        -(UNIT / 2)
    }
}

impl Game {
    /// Paddles on the field, and ball coordinates and velocities small
    /// enough for exact arithmetic.
    pub open spec fn wf(self) -> bool {
        &&& paddle_ok(self.left_paddle_y as int)
        &&& paddle_ok(self.right_paddle_y as int)
        &&& -LIMIT <= self.ball_x <= LIMIT
        &&& -LIMIT <= self.ball_y <= LIMIT
        &&& -LIMIT <= self.ball_dx <= LIMIT
        &&& -LIMIT <= self.ball_dy <= LIMIT
    }

    /// Both scores can still grow by a point.
    pub open spec fn scores_open(self) -> bool {
        self.left_score < u64::MAX && self.right_score < u64::MAX
    }

    /// The states a match passes through: the ball strictly between the goal
    /// lines, on a half-cell row of the field and never leaving it, moving
    /// half a cell per tick vertically and away from a wall it touches, with
    /// a bounded horizontal speed; the paddles on the field.
    pub open spec fn in_play(self) -> bool {
        &&& 0 < self.ball_x < WIDTH * UNIT
        &&& -2 * WIDTH * UNIT <= self.ball_dx <= 2 * WIDTH * UNIT
        &&& 0 <= self.ball_y <= HEIGHT * UNIT
        &&& (self.ball_y as int) % (UNIT as int / 2) == 0
        &&& (self.ball_dy == UNIT / 2 || self.ball_dy == -(UNIT / 2))
        &&& (self.ball_y == 0 ==> self.ball_dy > 0)
        &&& (self.ball_y == HEIGHT * UNIT ==> self.ball_dy < 0)
        &&& paddle_ok(self.left_paddle_y as int)
        &&& paddle_ok(self.right_paddle_y as int)
    }

    /// Ball abscissa after one tick of motion.
    pub open spec fn moved_x(self) -> int {
        self.ball_x + self.ball_dx
    }

    /// Ball ordinate after one tick of motion.
    pub open spec fn moved_y(self) -> int {
        self.ball_y + self.ball_dy
    }

    /// The moved ball is on or beyond the top or bottom wall. Its position
    /// is not clamped: for one tick it may lie past the wall.
    pub open spec fn hits_wall(self) -> bool {
        self.moved_y() <= 0 || self.moved_y() >= HEIGHT * UNIT
    }

    /// The moved ball is at the left paddle's column and within its reach.
    pub open spec fn hits_left(self) -> bool {
        self.moved_x() <= UNIT && faces(self.left_paddle_y as int, self.moved_y())
    }

    /// The moved ball is at the right paddle's column and within its reach.
    pub open spec fn hits_right(self) -> bool {
        self.moved_x() >= (WIDTH - 1) * UNIT && faces(self.right_paddle_y as int, self.moved_y())
    }

    /// The moved ball is on or past the left goal line: the right player scores.
    pub open spec fn right_scores(self) -> bool {
        self.moved_x() <= 0
    }

    /// The moved ball is on or past the right goal line: the left player
    /// scores. A ball already re-served after a right point sits at the
    /// centre, so at most one side scores in a tick.
    pub open spec fn left_scores(self) -> bool {
        !self.right_scores() && self.moved_x() >= WIDTH * UNIT
    }

    /// Horizontal velocity after the paddle checks: each paddle that the
    /// ball reaches reverses it and speeds it up.
    pub open spec fn deflected_dx(self) -> int {
        let after_left = if self.hits_left() {
            sped_up(-self.ball_dx)
        } else {
            self.ball_dx as int
        };
        if self.hits_right() {
            sped_up(-after_left)
        } else {
            after_left
        }
    }

    /// Vertical velocity after the wall check.
    pub open spec fn bounced_dy(self) -> int {
        if self.hits_wall() {
            -self.ball_dy
        } else {
            self.ball_dy as int
        }
    }

    /// The ball sits at the centre with a serve's velocity.
    pub open spec fn served(self, toward_right: bool, downward: bool) -> bool {
        &&& self.ball_x == WIDTH * UNIT / 2
        &&& self.ball_y == HEIGHT * UNIT / 2
        &&& self.ball_dx == serve_dx(toward_right)
        &&& self.ball_dy == serve_dy(downward)
    }
}

/// `post` is `pre` after one tick in which a re-served ball takes the
/// directions `toward_right` and `downward`.
pub open spec fn advanced(pre: Game, post: Game, toward_right: bool, downward: bool) -> bool {
    &&& post.left_paddle_y == pre.left_paddle_y
    &&& post.right_paddle_y == pre.right_paddle_y
    &&& post.left_score == pre.left_score + if pre.left_scores() { 1int } else { 0 }
    &&& post.right_score == pre.right_score + if pre.right_scores() { 1int } else { 0 }
    &&& if pre.right_scores() || pre.left_scores() {
        post.served(toward_right, downward)
    } else {
        &&& post.ball_x == pre.moved_x()
        &&& post.ball_y == pre.moved_y()
        &&& post.ball_dx == pre.deflected_dx()
        &&& post.ball_dy == pre.bounced_dy()
    }
}

/// Relies on rand::random: a bool drawn from the thread-local generator.
#[verifier::external_body]
fn coin_flip() -> (r: bool) {
    rand::random::<bool>()
}

impl Game {
    /// A new match: ball at the centre moving right and down, paddles
    /// centred, no points.
    pub fn new() -> (g: Game)
        ensures
            g.served(true, true),
            g.left_paddle_y == HEIGHT / 2,
            g.right_paddle_y == HEIGHT / 2,
            g.left_score == 0,
            g.right_score == 0,
            g.wf(),
            g.scores_open(),
            g.in_play(),
    {
        Game {
            ball_x: WIDTH * UNIT / 2,
            ball_y: HEIGHT * UNIT / 2,
            ball_dx: UNIT,
            ball_dy: UNIT / 2,
            left_paddle_y: HEIGHT / 2,
            right_paddle_y: HEIGHT / 2,
            left_score: 0,
            right_score: 0,
        }
    }

    /// Whether the state is well formed (see `wf`).
    pub fn is_wf(&self) -> (r: bool)
        ensures
            r == self.wf(),
    {
        HALF_PADDLE <= self.left_paddle_y && self.left_paddle_y <= HEIGHT - HALF_PADDLE
            && HALF_PADDLE <= self.right_paddle_y && self.right_paddle_y <= HEIGHT - HALF_PADDLE
            && -LIMIT <= self.ball_x && self.ball_x <= LIMIT
            && -LIMIT <= self.ball_y && self.ball_y <= LIMIT
            && -LIMIT <= self.ball_dx && self.ball_dx <= LIMIT
            && -LIMIT <= self.ball_dy && self.ball_dy <= LIMIT
    }

    /// Puts the ball back at the centre with the given directions: one cell
    /// per tick horizontally, half a cell vertically. Speed gained from the
    /// paddles is lost.
    pub fn reset_ball_with(&mut self, toward_right: bool, downward: bool)
        ensures
            final(self).served(toward_right, downward),
            final(self).left_paddle_y == old(self).left_paddle_y,
            final(self).right_paddle_y == old(self).right_paddle_y,
            final(self).left_score == old(self).left_score,
            final(self).right_score == old(self).right_score,
    {
        self.ball_x = WIDTH * UNIT / 2;
        self.ball_y = HEIGHT * UNIT / 2;
        self.ball_dx = if toward_right { UNIT } else { -UNIT };
        self.ball_dy = if downward { UNIT / 2 } else { -(UNIT / 2) };
    }

    /// Puts the ball back at the centre with random directions.
    pub fn reset_ball(&mut self)
        ensures
            exists|toward_right: bool, downward: bool|
                #[trigger] final(self).served(toward_right, downward),
            final(self).ball_dx == UNIT || final(self).ball_dx == -UNIT,
            final(self).ball_dy == UNIT / 2 || final(self).ball_dy == -(UNIT / 2),
            final(self).left_paddle_y == old(self).left_paddle_y,
            final(self).right_paddle_y == old(self).right_paddle_y,
            final(self).left_score == old(self).left_score,
            final(self).right_score == old(self).right_score,
    {
        let toward_right = coin_flip();
        let downward = coin_flip();
        self.reset_ball_with(toward_right, downward);
    }

    /// Moves the ball, bounces it off the walls and paddles, and awards a
    /// point when it crosses a goal line. Returns whether a point was
    /// scored; the ball is then still to be re-served.
    fn play_tick(&mut self) -> (scored: bool)
        requires
            old(self).wf(),
            old(self).scores_open(),
        ensures
            scored == (old(self).right_scores() || old(self).left_scores()),
            final(self).left_paddle_y == old(self).left_paddle_y,
            final(self).right_paddle_y == old(self).right_paddle_y,
            final(self).left_score == old(self).left_score + if old(self).left_scores() {
                1int
            } else {
                0
            },
            final(self).right_score == old(self).right_score + if old(self).right_scores() {
                1int
            } else {
                0
            },
            !scored ==> {
                &&& final(self).ball_x == old(self).moved_x()
                &&& final(self).ball_y == old(self).moved_y()
                &&& final(self).ball_dx == old(self).deflected_dx()
                &&& final(self).ball_dy == old(self).bounced_dy()
            },
    {
        self.ball_x = self.ball_x + self.ball_dx;
        self.ball_y = self.ball_y + self.ball_dy;

        if self.ball_y <= 0 || self.ball_y >= HEIGHT * UNIT {
            self.ball_dy = -self.ball_dy;
        }

        let row = cell_of(self.ball_y);
        if self.ball_x <= UNIT && row >= self.left_paddle_y - HALF_PADDLE
            && row <= self.left_paddle_y + HALF_PADDLE {
            self.ball_dx = speed_up(-self.ball_dx);
        }
        if self.ball_x >= (WIDTH - 1) * UNIT && row >= self.right_paddle_y - HALF_PADDLE
            && row <= self.right_paddle_y + HALF_PADDLE {
            self.ball_dx = speed_up(-self.ball_dx);
        }

        if self.ball_x <= 0 {
            self.right_score = self.right_score + 1;
            true
        } else if self.ball_x >= WIDTH * UNIT {
            self.left_score = self.left_score + 1;
            true
        } else {
            false
        }
    }

    /// One tick of physics, with the directions a re-served ball takes
    /// given by `toward_right` and `downward`.
    pub fn update_with(&mut self, toward_right: bool, downward: bool)
        requires
            old(self).wf(),
            old(self).scores_open(),
        ensures
            advanced(*old(self), *final(self), toward_right, downward),
    {
        if self.play_tick() {
            self.reset_ball_with(toward_right, downward);
        }
    }

    /// One tick of physics; a ball re-served after a point takes random
    /// directions.
    pub fn update(&mut self)
        requires
            old(self).wf(),
            old(self).scores_open(),
        ensures
            exists|toward_right: bool, downward: bool|
                advanced(*old(self), *final(self), toward_right, downward),
    {
        let ghost pre = *self;
        if self.play_tick() {
            self.reset_ball();
            proof {
                let (toward_right, downward) = choose|toward_right: bool, downward: bool|
                    self.served(toward_right, downward);
                assert(advanced(pre, *self, toward_right, downward));
            }
        } else {
            assert(advanced(pre, *self, true, true));
        }
    }
}

} // verus!
