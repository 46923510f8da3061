//! Plane geometry on integer (millipixel) coordinates: absolute value,
//! axis-aligned box overlap, and squared-distance comparison.

use vstd::prelude::*;

verus! {

/// Every coordinate the game works with stays within this bound
/// (about a billion pixels), which keeps all arithmetic far from overflow.
pub const COORD_LIMIT: i64 = 0x100_0000_0000;

/// A point or a size in the plane, in millipixels.
#[derive(Clone, Copy, PartialEq, Eq, Structural, Debug)]
pub struct Vec2i {
    pub x: i64,
    pub y: i64,
}

/// The player is kept within this tighter bound (half the coordinate
/// limit), which leaves headroom for one snap and one frame of travel
/// before anything approaches `COORD_LIMIT`.
pub const PLAY_LIMIT: i64 = 0x80_0000_0000;

pub open spec fn coord_ok(c: int) -> bool {
    -COORD_LIMIT <= c <= COORD_LIMIT
}

pub open spec fn in_play(v: Vec2i) -> bool {
    -PLAY_LIMIT <= v.x <= PLAY_LIMIT && -PLAY_LIMIT <= v.y <= PLAY_LIMIT
}

pub fn in_play_check(v: Vec2i) -> (r: bool)
    ensures
        r == in_play(v),
{
    -PLAY_LIMIT <= v.x && v.x <= PLAY_LIMIT && -PLAY_LIMIT <= v.y && v.y <= PLAY_LIMIT
}

pub open spec fn vec_ok(v: Vec2i) -> bool {
    coord_ok(v.x as int) && coord_ok(v.y as int)
}

/// A size: both components non-negative and bounded.
pub open spec fn size_ok(v: Vec2i) -> bool {
    0 <= v.x <= COORD_LIMIT && 0 <= v.y <= COORD_LIMIT
}

pub open spec fn spec_abs(x: int) -> int {
    if x >= 0 {
        x
    } else {
        -x
    }
}

pub fn abs_i64(x: i64) -> (r: i64)
    requires
        x != i64::MIN,
    ensures
        r == spec_abs(x as int),
{
    if x >= 0 {
        x
    } else {
        -x
    }
}

/// Two axis-aligned boxes, each given by its center and its side lengths,
/// overlap exactly when the distance between the centers is strictly less
/// than the sum of the half-sides on both axes.
pub open spec fn overlaps(pos_a: Vec2i, size_a: Vec2i, pos_b: Vec2i, size_b: Vec2i) -> bool {
    &&& 2 * spec_abs(pos_a.x - pos_b.x) < size_a.x + size_b.x
    &&& 2 * spec_abs(pos_a.y - pos_b.y) < size_a.y + size_b.y
}

pub fn check_aabb_collision(pos_a: Vec2i, size_a: Vec2i, pos_b: Vec2i, size_b: Vec2i) -> (r: bool)
    requires
        vec_ok(pos_a),
        vec_ok(pos_b),
        size_ok(size_a),
        size_ok(size_b),
    ensures
        r == overlaps(pos_a, size_a, pos_b, size_b),
{
    let distance_x: i64 = abs_i64(pos_a.x - pos_b.x);
    let distance_y: i64 = abs_i64(pos_a.y - pos_b.y);
    2 * distance_x < size_a.x + size_b.x && 2 * distance_y < size_a.y + size_b.y
}

/// Squared Euclidean distance between two points.
pub open spec fn dist_sq(a: Vec2i, b: Vec2i) -> int {
    (a.x - b.x) * (a.x - b.x) + (a.y - b.y) * (a.y - b.y)
}

/// The two points lie strictly closer than `d` to each other.
pub open spec fn near(a: Vec2i, b: Vec2i, d: int) -> bool {
    dist_sq(a, b) < d * d
}

proof fn lemma_sq_bound(v: int, m: int)
    requires
        0 <= m,
        -m <= v <= m,
    ensures
        0 <= v * v <= m * m,
{
    assert(0 <= v * v <= m * m) by (nonlinear_arith)
        requires
            0 <= m,
            -m <= v <= m,
    ;
}

/// Compares the Euclidean distance between `a` and `b` against `d`,
/// exactly, by comparing squares.
pub fn dist_lt(a: Vec2i, b: Vec2i, d: i64) -> (r: bool)
    requires
        vec_ok(a),
        vec_ok(b),
        0 <= d <= COORD_LIMIT,
    ensures
        r == near(a, b, d as int),
{
    let dx: i128 = a.x as i128 - b.x as i128;
    let dy: i128 = a.y as i128 - b.y as i128;
    let dd: i128 = d as i128;
    proof {
        lemma_sq_bound(dx as int, 2 * COORD_LIMIT);
        lemma_sq_bound(dy as int, 2 * COORD_LIMIT);
        lemma_sq_bound(dd as int, COORD_LIMIT as int);
    }
    dx * dx + dy * dy < dd * dd
}

} // verus!
