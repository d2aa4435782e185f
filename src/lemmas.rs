use vstd::prelude::*;
use crate::field::{cell, sped_up, HALF_PADDLE, HEIGHT, UNIT, WIDTH};
use crate::game::{advanced, Game};
use crate::input::{left_after, Command};

verus! {

/// A ball that reaches the top or bottom wall, away from the paddles and
/// the goal lines, has its vertical velocity reversed and its horizontal
/// velocity kept.
pub proof fn lemma_wall_bounce(pre: Game, post: Game, toward_right: bool, downward: bool)
    requires
        advanced(pre, post, toward_right, downward),
        pre.hits_wall(),
        !pre.hits_left(),
        !pre.hits_right(),
        0 < pre.moved_x() < WIDTH * UNIT,
    ensures
        post.ball_dy == -pre.ball_dy,
        post.ball_dx == pre.ball_dx,
{
}

/// A ball that arrives at the left paddle's column level with the paddle's
/// centre leaves with its horizontal velocity reversed and grown by a tenth,
/// to within one unit.
pub proof fn lemma_paddle_acceleration(pre: Game, post: Game, toward_right: bool, downward: bool)
    requires
        advanced(pre, post, toward_right, downward),
        pre.moved_x() == UNIT,
        cell(pre.moved_y()) == pre.left_paddle_y,
    ensures
        post.ball_dx == sped_up(-pre.ball_dx),
        -10 < 10 * post.ball_dx + 11 * pre.ball_dx < 10,
        pre.ball_dx > 0 ==> post.ball_dx < 0,
        pre.ball_dx < 0 ==> post.ball_dx > 0,
{
}

/// The size of a velocity.
pub open spec fn magnitude(v: int) -> int {
    if v >= 0 {
        v
    } else {
        -v
    }
}

/// Away from the goal lines the ball's horizontal speed never drops.
pub proof fn lemma_speed_kept(pre: Game, post: Game, toward_right: bool, downward: bool)
    requires
        advanced(pre, post, toward_right, downward),
        0 < pre.moved_x() < WIDTH * UNIT,
    ensures
        magnitude(post.ball_dx as int) >= magnitude(pre.ball_dx as int),
        !pre.hits_left() && !pre.hits_right() ==> post.ball_dx == pre.ball_dx,
{
}

/// A ball that crosses a goal line gives exactly one point, to the player
/// on the other side, and is re-served from the centre; otherwise the
/// scores stay as they are.
pub proof fn lemma_scoring(pre: Game, post: Game, toward_right: bool, downward: bool)
    requires
        advanced(pre, post, toward_right, downward),
    ensures
        pre.moved_x() <= 0 ==> post.right_score == pre.right_score + 1 && post.left_score
            == pre.left_score,
        pre.moved_x() >= WIDTH * UNIT ==> post.left_score == pre.left_score + 1
            && post.right_score == pre.right_score,
        (pre.moved_x() <= 0 || pre.moved_x() >= WIDTH * UNIT) ==> post.ball_x == WIDTH * UNIT / 2
            && post.ball_y == HEIGHT * UNIT / 2,
        0 < pre.moved_x() < WIDTH * UNIT ==> post.left_score == pre.left_score
            && post.right_score == pre.right_score,
        post.left_score >= pre.left_score,
        post.right_score >= pre.right_score,
{
}

/// A tick keeps a match in play.
pub proof fn lemma_tick_keeps_play(pre: Game, post: Game, toward_right: bool, downward: bool)
    requires
        pre.in_play(),
        advanced(pre, post, toward_right, downward),
    ensures
        post.in_play(),
{
    if !(pre.right_scores() || pre.left_scores()) {
        // Rows advance by half a cell, 500 units, so the ball lands on the
        // walls exactly.
        assert(pre.ball_y % 500 == 0);
        assert(pre.moved_y() % 500 == 0);
        if pre.hits_left() {
            assert(-WIDTH * UNIT < pre.ball_dx < UNIT);
        }
        if pre.hits_right() {
            assert(-UNIT < pre.ball_dx < WIDTH * UNIT);
        }
    }
}

/// A match in play is well formed.
pub proof fn lemma_play_is_wf(g: Game)
    requires
        g.in_play(),
    ensures
        g.wf(),
{
}

/// The left paddle's centre after `n` applications of `cmd`.
pub open spec fn left_after_many(p: int, cmd: Command, n: nat) -> int
    decreases n,
{
    if n == 0 {
        p
    } else {
        left_after(left_after_many(p, cmd, (n - 1) as nat), cmd)
    }
}

/// However often the left paddle is moved up, or moved down, its centre
/// stays between rows `HALF_PADDLE` and `HEIGHT - HALF_PADDLE`.
pub proof fn lemma_paddle_clamp(p: int, n: nat)
    requires
        HALF_PADDLE <= p <= HEIGHT - HALF_PADDLE,
    ensures
        HALF_PADDLE <= left_after_many(p, Command::LeftUp, n) <= HEIGHT - HALF_PADDLE,
        HALF_PADDLE <= left_after_many(p, Command::LeftDown, n) <= HEIGHT - HALF_PADDLE,
    decreases n,
{
    if n > 0 {
        lemma_paddle_clamp(p, (n - 1) as nat);
    }
}

} // verus!
