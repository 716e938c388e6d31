use vstd::prelude::*;

verus! {

/// Lengths and positions are measured in thousandths of an arena unit,
/// velocities in arena units per second and elapsed time in milliseconds,
/// so that `velocity * elapsed_ms` is a displacement in thousandths.
pub const ARENA_WIDTH: i64 = 800_000;

pub const ARENA_HEIGHT: i64 = 600_000;

pub const PADDLE_WIDTH: i64 = 10_000;

pub const PADDLE_HEIGHT: i64 = 60_000;

pub const BALL_SIZE: i64 = 10_000;

pub const GOAL_WIDTH: i64 = 100_000;

/// Largest magnitude of a coordinate that a tick accepts.
pub const COORD_LIMIT: i64 = 1_000_000_000_000_000_000;

/// Largest magnitude of a velocity or a paddle speed that a tick accepts.
pub const SPEED_LIMIT: i64 = 1_000_000_000;

pub open spec fn abs(v: int) -> int {
    if v < 0 { -v } else { v }
}

/// Two axis-aligned rectangles, each given by its centre and its half
/// extents, overlap with a positive area.
pub open spec fn rects_overlap(
    ax: int, ay: int, a_half_w: int, a_half_h: int,
    bx: int, by: int, b_half_w: int, b_half_h: int,
) -> bool {
    &&& ax + a_half_w > bx - b_half_w
    &&& ax - a_half_w < bx + b_half_w
    &&& ay + a_half_h > by - b_half_h
    &&& ay - a_half_h < by + b_half_h
}

/// The square ball centred at `(bx, by)` overlaps the rectangle centred at
/// `(rx, ry)` with the given full width and height.
pub open spec fn ball_overlaps(bx: int, by: int, rx: int, ry: int, w: int, h: int) -> bool {
    rects_overlap(bx, by, BALL_SIZE / 2, BALL_SIZE / 2, rx, ry, w / 2, h / 2)
}

/// Executable form of `ball_overlaps` for rectangles of even size.
pub fn ball_overlaps_rect(bx: i64, by: i64, rx: i64, ry: i64, w: i64, h: i64) -> (r: bool)
    requires
        abs(bx as int) <= 6 * COORD_LIMIT,
        abs(by as int) <= 6 * COORD_LIMIT,
        abs(rx as int) <= COORD_LIMIT,
        abs(ry as int) <= COORD_LIMIT,
        0 <= w <= COORD_LIMIT,
        0 <= h <= COORD_LIMIT,
    ensures
        r == ball_overlaps(bx as int, by as int, rx as int, ry as int, w as int, h as int),
{
    let half: i64 = BALL_SIZE / 2;
    bx + half > rx - w / 2 && bx - half < rx + w / 2 && by + half > ry - h / 2 && by - half < ry
        + h / 2
}

} // verus!
