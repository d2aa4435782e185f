use vstd::prelude::*;

verus! {

/// Width of the playing field, in cells.
pub const WIDTH: i64 = 60;

/// Height of the playing field, in cells.
pub const HEIGHT: i64 = 20;

/// Height of a paddle; it spans `PADDLE_HEIGHT + 1` cells around its centre.
pub const PADDLE_HEIGHT: i64 = 4;

/// Half the paddle height: how far a paddle reaches above and below its centre.
pub const HALF_PADDLE: i64 = 2;

/// Fixed-point scale: one cell is this many units of ball position.
pub const UNIT: i64 = 1000;

/// Largest magnitude of a ball coordinate or velocity the physics accepts.
pub const LIMIT: i64 = 1_000_000_000_000;

/// The cell that holds a fixed-point coordinate: the coordinate divided by
/// `UNIT`, truncated toward zero.
pub open spec fn cell(v: int) -> int {
    if v >= 0 {
        v / (UNIT as int)
    } else {
        -((-v) / (UNIT as int))
    }
}

/// A velocity after a paddle speeds it up: its magnitude grows by a tenth,
/// truncated toward zero, and its sign is kept.
pub open spec fn sped_up(v: int) -> int {
    if v >= 0 {
        v * 11 / 10
    } else {
        -((-v) * 11 / 10)
    }
}

/// The cell that holds a fixed-point coordinate.
pub fn cell_of(v: i64) -> (r: i64)
    requires
        -4 * LIMIT <= v <= 4 * LIMIT,
    ensures
        r == cell(v as int),
{
    if v >= 0 {
        v / UNIT
    } else {
        -((-v) / UNIT)
    }
}

/// A velocity after a paddle speeds it up.
pub fn speed_up(v: i64) -> (r: i64)
    requires
        -4 * LIMIT <= v <= 4 * LIMIT,
    ensures
        r == sped_up(v as int),
{
    if v >= 0 {
        v * 11 / 10
    } else {
        -((-v) * 11 / 10)
    }
}

} // verus!
