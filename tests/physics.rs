use pong::{cell_of, speed_up, Game, HEIGHT, UNIT, WIDTH};

fn ball(x: i64, y: i64, dx: i64, dy: i64) -> Game {
    Game {
        ball_x: x,
        ball_y: y,
        ball_dx: dx,
        ball_dy: dy,
        left_paddle_y: HEIGHT / 2,
        right_paddle_y: HEIGHT / 2,
        left_score: 0,
        right_score: 0,
    }
}

#[test]
fn new_game_is_centred() {
    let g = Game::new();
    assert_eq!((g.ball_x, g.ball_y), (30 * UNIT, 10 * UNIT));
    assert_eq!((g.ball_dx, g.ball_dy), (1000, 500));
    assert_eq!((g.left_paddle_y, g.right_paddle_y), (10, 10));
    assert_eq!((g.left_score, g.right_score), (0, 0));
    assert!(g.is_wf());
}

#[test]
fn one_tick_from_start() {
    let mut g = Game::new();
    g.update();
    assert_eq!((g.ball_x, g.ball_y), (31_000, 10_500));
    assert_eq!((g.ball_dx, g.ball_dy), (1000, 500));
    assert_eq!((g.left_score, g.right_score), (0, 0));
}

#[test]
fn right_paddle_returns_ball_faster() {
    // The ball arrives at column 59, level with the right paddle's centre.
    let mut g = ball(58_000, 10_000, 1000, 0);
    g.update();
    assert_eq!(g.ball_x, 59_000);
    assert_eq!(g.ball_dx, -1100);
    assert_eq!((g.left_score, g.right_score), (0, 0));
    g.update();
    assert_eq!(g.ball_x, 57_900);
}

#[test]
fn ball_from_right_paddle_column_reaches_goal_line() {
    // Moving right from column 59 the ball lands on the goal line: the
    // paddle turns it, but the point is scored in the same tick.
    let mut g = ball(59_000, 10_000, 1000, 0);
    g.update();
    assert_eq!((g.left_score, g.right_score), (1, 0));
    assert_eq!((g.ball_x, g.ball_y), (30_000, 10_000));
}

#[test]
fn ball_past_left_goal_scores_for_right() {
    let mut g = ball(0, HEIGHT * UNIT / 2, -1000, 0);
    g.update();
    assert_eq!((g.left_score, g.right_score), (0, 1));
    assert_eq!((g.ball_x, g.ball_y), (WIDTH * UNIT / 2, HEIGHT * UNIT / 2));
    assert!(g.ball_dx == 1000 || g.ball_dx == -1000);
    assert!(g.ball_dy == 500 || g.ball_dy == -500);
}

#[test]
fn ball_past_right_goal_scores_for_left() {
    let mut g = ball(59_500, 3_000, 1000, 500);
    g.update_with(false, true);
    assert_eq!((g.left_score, g.right_score), (1, 0));
    assert_eq!((g.ball_x, g.ball_y, g.ball_dx, g.ball_dy), (30_000, 10_000, -1000, 500));
}

#[test]
fn reserve_takes_given_directions() {
    let mut g = ball(500, 10_000, -1000, -500);
    g.left_paddle_y = 2;
    g.update_with(true, false);
    assert_eq!((g.ball_x, g.ball_y, g.ball_dx, g.ball_dy), (30_000, 10_000, 1000, -500));
    assert_eq!((g.left_score, g.right_score), (0, 1));
}

#[test]
fn top_wall_bounce() {
    let mut g = ball(20_000, 500, 1000, -500);
    g.update();
    assert_eq!((g.ball_x, g.ball_y), (21_000, 0));
    assert_eq!((g.ball_dx, g.ball_dy), (1000, 500));
}

#[test]
fn bottom_wall_bounce() {
    let mut g = ball(20_000, 19_500, -1000, 500);
    g.update();
    assert_eq!((g.ball_x, g.ball_y), (19_000, 20_000));
    assert_eq!((g.ball_dx, g.ball_dy), (-1000, -500));
}

#[test]
fn wall_bounce_keeps_overshoot() {
    let mut g = ball(20_000, 19_800, 0, 700);
    g.update();
    assert_eq!(g.ball_y, 20_500);
    assert_eq!(g.ball_dy, -700);
}

#[test]
fn left_paddle_accelerates_ball() {
    let mut g = ball(3_000, 10_000, -2000, 0);
    g.update();
    assert_eq!(g.ball_x, 1_000);
    assert_eq!(g.ball_dx, 2200);
    let mut h = ball(2_234, 10_000, -1234, 0);
    h.update();
    assert_eq!(h.ball_dx, 1357);
}

#[test]
fn left_paddle_reach_is_inclusive() {
    // Rows 8 to 12 belong to a paddle centred on row 10.
    let mut g = ball(2_000, 12_900, -1000, 0);
    g.update();
    assert_eq!(g.ball_dx, 1100);
    let mut h = ball(2_000, 13_000, -1000, 0);
    h.update();
    assert_eq!(h.ball_dx, -1000);
    let mut k = ball(2_000, 8_000, -1000, 0);
    k.update();
    assert_eq!(k.ball_dx, 1100);
    let mut m = ball(2_000, 7_999, -1000, 0);
    m.update();
    assert_eq!(m.ball_dx, -1000);
}

#[test]
fn missed_ball_keeps_speed() {
    let mut g = ball(2_000, 2_000, -1000, 0);
    g.update();
    assert_eq!(g.ball_x, 1_000);
    assert_eq!(g.ball_dx, -1000);
}

#[test]
fn reset_ball_with_each_direction() {
    let mut g = ball(5_000, 5_000, 3000, 100);
    g.left_score = 4;
    g.reset_ball_with(true, true);
    assert_eq!((g.ball_x, g.ball_y, g.ball_dx, g.ball_dy), (30_000, 10_000, 1000, 500));
    g.reset_ball_with(false, false);
    assert_eq!((g.ball_dx, g.ball_dy), (-1000, -500));
    assert_eq!(g.left_score, 4);
}

#[test]
fn reset_ball_stays_in_domain() {
    let mut g = ball(5_000, 5_000, 3000, 100);
    for _ in 0..200 {
        g.reset_ball();
        assert_eq!((g.ball_x, g.ball_y), (30_000, 10_000));
        assert!(g.ball_dx == 1000 || g.ball_dx == -1000);
        assert!(g.ball_dy == 500 || g.ball_dy == -500);
    }
}

#[test]
fn long_match_stays_in_play() {
    let mut g = Game::new();
    let (mut left, mut right) = (0u64, 0u64);
    for _ in 0..20_000 {
        assert!(g.is_wf());
        g.update();
        assert!(g.left_score >= left && g.right_score >= right);
        assert!(g.left_score + g.right_score <= left + right + 1);
        left = g.left_score;
        right = g.right_score;
        assert!(0 < g.ball_x && g.ball_x < WIDTH * UNIT);
        assert!(0 <= g.ball_y && g.ball_y <= HEIGHT * UNIT);
        assert!(g.ball_dy == 500 || g.ball_dy == -500);
    }
    assert!(left + right > 0);
}

#[test]
fn is_wf_rejects_bad_states() {
    let mut g = Game::new();
    g.left_paddle_y = 1;
    assert!(!g.is_wf());
    let mut h = Game::new();
    h.right_paddle_y = 19;
    assert!(!h.is_wf());
    let mut k = Game::new();
    k.right_score = u64::MAX;
    assert!(k.is_wf());
    let mut m = Game::new();
    m.ball_dx = pong::LIMIT + 1;
    assert!(!m.is_wf());
}

#[test]
fn cell_truncates_toward_zero() {
    assert_eq!(cell_of(10_999), 10);
    assert_eq!(cell_of(-999), 0);
    assert_eq!(cell_of(-1_500), -1);
}

#[test]
fn speed_up_by_a_tenth() {
    assert_eq!(speed_up(1000), 1100);
    assert_eq!(speed_up(-1000), -1100);
    assert_eq!(speed_up(1100), 1210);
    assert_eq!(speed_up(1331), 1464);
    assert_eq!(speed_up(0), 0);
}
