use vstd::prelude::*;
use crate::field::{cell, cell_of, HALF_PADDLE, HEIGHT, PADDLE_HEIGHT, WIDTH};
use crate::game::{paddle_ok, Game};

verus! {

/// What is drawn in a cell.
#[derive(Clone, Copy, Debug, PartialEq, Eq)]
pub enum Mark {
    Score(u64),
    Ball,
    Paddle,
    Border,
}

/// One drawing step: a mark at a column and row of the terminal.
#[derive(Clone, Copy, Debug, PartialEq, Eq)]
pub struct Glyph {
    pub col: u16,
    pub row: u16,
    pub mark: Mark,
}

/// The terminal column or row of a fixed-point coordinate: its cell,
/// saturated to the range of `u16`.
pub open spec fn screen(v: int) -> int {
    if cell(v) < 0 {
        0
    } else if cell(v) > u16::MAX {
        u16::MAX as int
    } else {
        cell(v)
    }
}

/// A paddle drawn in column `col`: `PADDLE_HEIGHT + 1` cells from top to
/// bottom, centred on row `center`.
pub open spec fn paddle_column(col: u16, center: int) -> Seq<Glyph> {
    Seq::new(
        (PADDLE_HEIGHT + 1) as nat,
        |i: int| Glyph { col, row: (center - HALF_PADDLE + i) as u16, mark: Mark::Paddle },
    )
}

/// The top and bottom borders, column by column from the left, the top
/// cell of each column before its bottom cell.
pub open spec fn border_rows() -> Seq<Glyph> {
    Seq::new(
        (2 * WIDTH) as nat,
        |i: int|
            Glyph {
                col: (i / 2) as u16,
                row: if i % 2 == 0 {
                    0u16
                } else {
                    (HEIGHT - 1) as u16
                },
                mark: Mark::Border,
            },
    )
}

/// A full frame in drawing order: the two scores, the ball, the left
/// paddle, the right paddle, the borders. Where two glyphs share a cell the
/// later one shows.
pub open spec fn frame_of(g: Game) -> Seq<Glyph> {
    seq![
        Glyph { col: (WIDTH / 4) as u16, row: 1, mark: Mark::Score(g.left_score) },
        Glyph { col: (3 * WIDTH / 4) as u16, row: 1, mark: Mark::Score(g.right_score) },
        Glyph {
            col: screen(g.ball_x as int) as u16,
            row: screen(g.ball_y as int) as u16,
            mark: Mark::Ball,
        },
    ] + paddle_column(0, g.left_paddle_y as int) + paddle_column((WIDTH - 1) as u16, g.right_paddle_y as int)
        + border_rows()
}

/// The terminal column or row of a fixed-point coordinate.
fn screen_of(v: i64) -> (r: u16)
    requires
        -4 * crate::field::LIMIT <= v <= 4 * crate::field::LIMIT,
    ensures
        r == screen(v as int),
{
    let c = cell_of(v);
    if c < 0 {
        0
    } else if c > u16::MAX as i64 {
        u16::MAX
    } else {
        c as u16
    }
}

/// Appends the glyphs of a paddle in column `col` centred on row `center`.
fn push_paddle(out: &mut Vec<Glyph>, col: u16, center: i64)
    requires
        paddle_ok(center as int),
    ensures
        final(out)@ == old(out)@ + paddle_column(col, center as int),
{
    let ghost start = out@;
    let mut i: i64 = 0;
    while i <= PADDLE_HEIGHT
        invariant
            0 <= i <= PADDLE_HEIGHT + 1,
            paddle_ok(center as int),
            out@ == start + paddle_column(col, center as int).take(i as int),
        decreases PADDLE_HEIGHT + 1 - i,
    {
        out.push(Glyph { col, row: (center - HALF_PADDLE + i) as u16, mark: Mark::Paddle });
        i = i + 1;
        assert(paddle_column(col, center as int).take(i as int) =~= paddle_column(
            col,
            center as int,
        ).take(i - 1).push(Glyph { col, row: (center - HALF_PADDLE + i - 1) as u16, mark: Mark::Paddle }));
    }
    assert(paddle_column(col, center as int).take(PADDLE_HEIGHT + 1) =~= paddle_column(
        col,
        center as int,
    ));
}

/// Appends the glyphs of the top and bottom borders.
fn push_borders(out: &mut Vec<Glyph>)
    ensures
        final(out)@ == old(out)@ + border_rows(),
{
    let ghost start = out@;
    let mut x: i64 = 0;
    while x < WIDTH
        invariant
            0 <= x <= WIDTH,
            out@ == start + border_rows().take(2 * x),
        decreases WIDTH - x,
    {
        out.push(Glyph { col: x as u16, row: 0, mark: Mark::Border });
        out.push(Glyph { col: x as u16, row: (HEIGHT - 1) as u16, mark: Mark::Border });
        x = x + 1;
        assert(border_rows().take(2 * x) =~= border_rows().take(2 * x - 2).push(
            Glyph { col: (x - 1) as u16, row: 0, mark: Mark::Border },
        ).push(Glyph { col: (x - 1) as u16, row: (HEIGHT - 1) as u16, mark: Mark::Border }));
    }
    assert(border_rows().take(2 * WIDTH) =~= border_rows());
}

impl Game {
    /// The glyphs that draw this state on a cleared terminal, in order.
    pub fn frame(&self) -> (glyphs: Vec<Glyph>)
        requires
            self.wf(),
        ensures
            glyphs@ == frame_of(*self),
    {
        let mut glyphs: Vec<Glyph> = Vec::new();
        glyphs.push(Glyph { col: (WIDTH / 4) as u16, row: 1, mark: Mark::Score(self.left_score) });
        glyphs.push(
            Glyph { col: (3 * WIDTH / 4) as u16, row: 1, mark: Mark::Score(self.right_score) },
        );
        glyphs.push(
            Glyph { col: screen_of(self.ball_x), row: screen_of(self.ball_y), mark: Mark::Ball },
        );
        push_paddle(&mut glyphs, 0, self.left_paddle_y);
        push_paddle(&mut glyphs, (WIDTH - 1) as u16, self.right_paddle_y);
        push_borders(&mut glyphs);
        glyphs
    }
}

} // verus!
