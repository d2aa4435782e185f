//! Two-player Pong: the state of a match, the tick that advances it, the
//! mapping of keys to paddle moves, and the list of glyphs that draws a frame.
//!
//! Ball coordinates and velocities are fixed-point numbers counted in
//! thousandths of a character cell, so that all of the physics is exact
//! integer arithmetic.
mod field;
mod game;
mod input;
mod lemmas;
mod render;

pub use field::{
    cell, cell_of, speed_up, sped_up, HALF_PADDLE, HEIGHT, LIMIT, PADDLE_HEIGHT, UNIT, WIDTH,
};
pub use game::{advanced, faces, paddle_ok, serve_dx, serve_dy, Game};
pub use input::{command_for, command_of, left_after, lowered, raised, right_after, Command, Key};
pub use lemmas::{
    lemma_paddle_acceleration, lemma_paddle_clamp, lemma_play_is_wf, lemma_scoring,
    lemma_speed_kept, lemma_tick_keeps_play, lemma_wall_bounce, left_after_many, magnitude,
};
pub use render::{border_rows, frame_of, paddle_column, screen, Glyph, Mark};
