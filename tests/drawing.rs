use pong::{Game, Glyph, Mark};

#[test]
fn frame_of_new_game() {
    let g = Game::new();
    let f = g.frame();
    assert_eq!(f.len(), 3 + 5 + 5 + 120);
    assert_eq!(f[0], Glyph { col: 15, row: 1, mark: Mark::Score(0) });
    assert_eq!(f[1], Glyph { col: 45, row: 1, mark: Mark::Score(0) });
    assert_eq!(f[2], Glyph { col: 30, row: 10, mark: Mark::Ball });
    for i in 0..5 {
        assert_eq!(f[3 + i], Glyph { col: 0, row: 8 + i as u16, mark: Mark::Paddle });
        assert_eq!(f[8 + i], Glyph { col: 59, row: 8 + i as u16, mark: Mark::Paddle });
    }
    for x in 0..60u16 {
        let i = 13 + 2 * x as usize;
        assert_eq!(f[i], Glyph { col: x, row: 0, mark: Mark::Border });
        assert_eq!(f[i + 1], Glyph { col: x, row: 19, mark: Mark::Border });
    }
}

#[test]
fn frame_shows_scores_and_truncated_ball() {
    let mut g = Game::new();
    g.left_score = 7;
    g.right_score = 12;
    g.ball_x = 41_999;
    g.ball_y = 3_500;
    g.left_paddle_y = 2;
    g.right_paddle_y = 18;
    let f = g.frame();
    assert_eq!(f[0].mark, Mark::Score(7));
    assert_eq!(f[1].mark, Mark::Score(12));
    assert_eq!((f[2].col, f[2].row), (41, 3));
    assert_eq!((f[3].row, f[7].row), (0, 4));
    assert_eq!((f[8].row, f[12].row), (16, 20));
}

#[test]
fn frame_ball_off_screen_saturates() {
    let mut g = Game::new();
    g.ball_x = -5_000;
    g.ball_y = -500;
    let f = g.frame();
    assert_eq!((f[2].col, f[2].row), (0, 0));
    g.ball_x = 70_000_000;
    let f = g.frame();
    assert_eq!(f[2].col, u16::MAX);
}
