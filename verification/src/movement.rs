//! Player movement: directional input, assisted cornering that snaps the
//! player onto the nearest grid line, and axis-aligned collision against
//! the static walls.

use vstd::prelude::*;

use crate::geom::{
    check_aabb_collision, coord_ok, in_play, overlaps, size_ok, spec_abs, vec_ok, Vec2i,
    COORD_LIMIT, PLAY_LIMIT,
};
use crate::SPEED_MPX_PER_MS;
use crate::TILE_MPX;

verus! {

/// A movement direction: one of the four arrow keys, or standing still.
#[derive(Clone, Copy, PartialEq, Eq, Structural, Debug)]
pub enum Dir {
    Still,
    Left,
    Right,
    Up,
    Down,
}

/// Unit x-component of a direction (the screen's x axis grows rightwards).
pub open spec fn dir_dx(d: Dir) -> int {
    match d {
        Dir::Left => -1,
        Dir::Right => 1,
        _ => 0,
    }
}

/// Unit y-component of a direction (the screen's y axis grows upwards).
pub open spec fn dir_dy(d: Dir) -> int {
    match d {
        Dir::Up => 1,
        Dir::Down => -1,
        _ => 0,
    }
}

pub open spec fn is_horizontal(d: Dir) -> bool {
    dir_dx(d) != 0
}

pub open spec fn is_vertical(d: Dir) -> bool {
    dir_dy(d) != 0
}

/// Which arrow keys are held down this frame.
#[derive(Clone, Copy, PartialEq, Eq, Structural, Debug)]
pub struct Keys {
    pub left: bool,
    pub right: bool,
    pub up: bool,
    pub down: bool,
}

/// The direction asked for by the held keys: left wins over right, right
/// over up, up over down; no key held means no request.
pub open spec fn spec_requested_dir(k: Keys) -> Dir {
    if k.left {
        Dir::Left
    } else if k.right {
        Dir::Right
    } else if k.up {
        Dir::Up
    } else if k.down {
        Dir::Down
    } else {
        Dir::Still
    }
}

pub fn requested_dir(k: Keys) -> (d: Dir)
    ensures
        d == spec_requested_dir(k),
{
    if k.left {
        Dir::Left
    } else if k.right {
        Dir::Right
    } else if k.up {
        Dir::Up
    } else if k.down {
        Dir::Down
    } else {
        Dir::Still
    }
}

/// Where the maze lies on the screen: the center of its top-left tile is
/// at (offset_x, offset_y), and assisted turns snap within snap_threshold
/// of a grid line.
#[derive(Clone, Copy, PartialEq, Eq, Structural, Debug)]
pub struct MapInfo {
    pub offset_x: i64,
    pub offset_y: i64,
    pub snap_threshold: i64,
}

pub open spec fn map_info_ok(mi: MapInfo) -> bool {
    &&& coord_ok(mi.offset_x as int)
    &&& coord_ok(mi.offset_y as int)
    &&& 0 <= mi.snap_threshold <= TILE_MPX
}

/// The quotient `a / b` rounded to the nearest integer, ties away from
/// zero — the rounding the cornering logic snaps with.
pub open spec fn spec_round_div(a: int, b: int) -> int {
    if a >= 0 {
        (a + b / 2) / b
    } else {
        -((-a + b / 2) / b)
    }
}

pub fn round_div(a: i64, b: i64) -> (r: i64)
    requires
        -4 * COORD_LIMIT <= a <= 4 * COORD_LIMIT,
        0 < b <= COORD_LIMIT,
    ensures
        r == spec_round_div(a as int, b as int),
{
    if a >= 0 {
        (a + b / 2) / b
    } else {
        -((-a + b / 2) / b)
    }
}

/// The x coordinate of the column grid line nearest to `x`.
pub open spec fn spec_nearest_col_x(mi: MapInfo, x: int) -> int {
    mi.offset_x + spec_round_div(x - mi.offset_x, TILE_MPX as int) * TILE_MPX
}

/// The y coordinate of the row grid line nearest to `y` (rows grow
/// downwards from offset_y).
pub open spec fn spec_nearest_row_y(mi: MapInfo, y: int) -> int {
    mi.offset_y - spec_round_div(mi.offset_y - y, TILE_MPX as int) * TILE_MPX
}

/// The player: its position (the sprite's center) and the direction it is
/// currently travelling in.
#[derive(Clone, Copy, PartialEq, Eq, Structural, Debug)]
pub struct PlayerState {
    pub pos: Vec2i,
    pub dir: Dir,
}

pub open spec fn player_ok(p: PlayerState) -> bool {
    in_play(p.pos)
}

/// The turning step. A request for a new direction is granted at once when
/// it reverses the current one or starts from rest; a turn from horizontal
/// to vertical travel (or back) is granted only within snap_threshold of
/// the crossing grid line, and then snaps the player exactly onto it.
pub open spec fn spec_turn(mi: MapInfo, p: PlayerState, next: Dir) -> PlayerState {
    if next != Dir::Still && next != p.dir {
        if is_vertical(next) && is_horizontal(p.dir) {
            let nx: int = spec_nearest_col_x(mi, p.pos.x as int);
            if spec_abs(p.pos.x - nx) < mi.snap_threshold {
                PlayerState { pos: Vec2i { x: nx as i64, y: p.pos.y }, dir: next }
            } else {
                p
            }
        } else if is_horizontal(next) && is_vertical(p.dir) {
            let ny: int = spec_nearest_row_y(mi, p.pos.y as int);
            if spec_abs(p.pos.y - ny) < mi.snap_threshold {
                PlayerState { pos: Vec2i { x: p.pos.x, y: ny as i64 }, dir: next }
            } else {
                p
            }
        } else {
            PlayerState { pos: p.pos, dir: next }
        }
    } else {
        p
    }
}

/// Where a frame's travel would take `pos`: `delta_ms` milliseconds of
/// movement in direction `d`.
pub open spec fn spec_target(pos: Vec2i, d: Dir, delta_ms: int) -> Vec2i {
    let travel: int = SPEED_MPX_PER_MS * delta_ms;
    Vec2i {
        x: (pos.x + dir_dx(d) * travel) as i64,
        y: (pos.y + dir_dy(d) * travel) as i64,
    }
}

/// The player's box at `pos` overlaps some wall.
pub open spec fn hits_wall(pos: Vec2i, player_size: Vec2i, walls: Seq<Vec2i>, wall_size: Vec2i) -> bool {
    exists|i: int| 0 <= i < walls.len() && overlaps(pos, player_size, walls[i], wall_size)
}

/// One frame of player movement: first the turning step, then — if the
/// player is travelling — the frame's travel, which is taken in full when
/// the target spot is clear of walls, and otherwise is refused and the
/// turn rolled back to the direction the frame began with.
pub open spec fn spec_move_player(
    mi: MapInfo,
    p: PlayerState,
    next: Dir,
    delta_ms: int,
    walls: Seq<Vec2i>,
    player_size: Vec2i,
    wall_size: Vec2i,
) -> PlayerState {
    let turned = spec_turn(mi, p, next);
    if turned.dir == Dir::Still {
        turned
    } else {
        let target = spec_target(turned.pos, turned.dir, delta_ms);
        if hits_wall(target, player_size, walls, wall_size) {
            PlayerState { pos: turned.pos, dir: p.dir }
        } else {
            PlayerState { pos: target, dir: turned.dir }
        }
    }
}

/// No frame moves the player further than one minute of travel, which
/// keeps every reachable position well inside the coordinate bound.
pub const MAX_FRAME_MS: u32 = 60_000;

pub fn move_player_step(
    mi: &MapInfo,
    p: PlayerState,
    next: Dir,
    delta_ms: u32,
    walls: &Vec<Vec2i>,
    player_size: Vec2i,
    wall_size: Vec2i,
) -> (r: PlayerState)
    requires
        map_info_ok(*mi),
        player_ok(p),
        delta_ms <= MAX_FRAME_MS,
        forall|i: int| 0 <= i < walls@.len() ==> vec_ok(walls@[i]),
        size_ok(player_size),
        size_ok(wall_size),
    ensures
        r == spec_move_player(*mi, p, next, delta_ms as int, walls@, player_size, wall_size),
        spec_abs(r.pos.x - p.pos.x) <= TILE_MPX + MAX_STEP_MPX,
        spec_abs(r.pos.y - p.pos.y) <= TILE_MPX + MAX_STEP_MPX,
{
    let turned = turn_step(mi, p, next);
    if matches!(turned.dir, Dir::Still) {
        turned
    } else {
        let target = target_pos(turned.pos, turned.dir, delta_ms);
        let mut i: usize = 0;
        let mut collision: bool = false;
        while i < walls.len()
            invariant
                0 <= i <= walls@.len(),
                forall|j: int| 0 <= j < walls@.len() ==> vec_ok(walls@[j]),
                vec_ok(target),
                size_ok(player_size),
                size_ok(wall_size),
                collision == exists|j: int|
                    0 <= j < i && overlaps(target, player_size, walls@[j], wall_size),
            decreases walls@.len() - i,
        {
            if !collision && check_aabb_collision(target, player_size, walls[i], wall_size) {
                collision = true;
            }
            i += 1;
        }
        if collision {
            PlayerState { pos: turned.pos, dir: p.dir }
        } else {
            PlayerState { pos: target, dir: turned.dir }
        }
    }
}

fn turn_step(mi: &MapInfo, p: PlayerState, next: Dir) -> (r: PlayerState)
    requires
        map_info_ok(*mi),
        player_ok(p),
    ensures
        r == spec_turn(*mi, p, next),
        r.pos.y == p.pos.y || r.pos.x == p.pos.x,
        spec_abs(r.pos.x - p.pos.x) <= mi.snap_threshold,
        spec_abs(r.pos.y - p.pos.y) <= mi.snap_threshold,
{
    let next_dx: i64 = dir_dx_i(next);
    let next_dy: i64 = dir_dy_i(next);
    let prev_dx: i64 = dir_dx_i(p.dir);
    let prev_dy: i64 = dir_dy_i(p.dir);
    if !matches!(next, Dir::Still) && next != p.dir {
        if next_dy != 0 && prev_dx != 0 {
            let nearest_x: i64 = nearest_col_x(mi, p.pos.x);
            if crate::geom::abs_i64(p.pos.x - nearest_x) < mi.snap_threshold {
                PlayerState { pos: Vec2i { x: nearest_x, y: p.pos.y }, dir: next }
            } else {
                p
            }
        } else if next_dx != 0 && prev_dy != 0 {
            let nearest_y: i64 = nearest_row_y(mi, p.pos.y);
            if crate::geom::abs_i64(p.pos.y - nearest_y) < mi.snap_threshold {
                PlayerState { pos: Vec2i { x: p.pos.x, y: nearest_y }, dir: next }
            } else {
                p
            }
        } else {
            PlayerState { pos: p.pos, dir: next }
        }
    } else {
        p
    }
}

fn dir_dx_i(d: Dir) -> (r: i64)
    ensures
        r == dir_dx(d),
{
    match d {
        Dir::Left => -1,
        Dir::Right => 1,
        _ => 0,
    }
}

fn dir_dy_i(d: Dir) -> (r: i64)
    ensures
        r == dir_dy(d),
{
    match d {
        Dir::Up => 1,
        Dir::Down => -1,
        _ => 0,
    }
}

fn nearest_col_x(mi: &MapInfo, x: i64) -> (r: i64)
    requires
        map_info_ok(*mi),
        coord_ok(x as int),
    ensures
        r == spec_nearest_col_x(*mi, x as int),
        spec_abs(r - mi.offset_x) <= spec_abs(x - mi.offset_x) + TILE_MPX,
{
    let q: i64 = round_div(x - mi.offset_x, TILE_MPX);
    proof {
        lemma_round_div_close(x - mi.offset_x, TILE_MPX as int);
    }
    mi.offset_x + q * TILE_MPX
}

fn nearest_row_y(mi: &MapInfo, y: i64) -> (r: i64)
    requires
        map_info_ok(*mi),
        coord_ok(y as int),
    ensures
        r == spec_nearest_row_y(*mi, y as int),
        spec_abs(r - mi.offset_y) <= spec_abs(y - mi.offset_y) + TILE_MPX,
{
    let q: i64 = round_div(mi.offset_y - y, TILE_MPX);
    proof {
        lemma_round_div_close(mi.offset_y - y, TILE_MPX as int);
    }
    mi.offset_y - q * TILE_MPX
}

/// The furthest one frame can carry the player: a minute of travel.
pub const MAX_STEP_MPX: i64 = 12_000_000;

fn target_pos(pos: Vec2i, d: Dir, delta_ms: u32) -> (r: Vec2i)
    requires
        spec_abs(pos.x as int) <= PLAY_LIMIT + TILE_MPX,
        spec_abs(pos.y as int) <= PLAY_LIMIT + TILE_MPX,
        delta_ms <= MAX_FRAME_MS,
    ensures
        r == spec_target(pos, d, delta_ms as int),
        vec_ok(r),
        spec_abs(r.x - pos.x) <= MAX_STEP_MPX,
        spec_abs(r.y - pos.y) <= MAX_STEP_MPX,
{
    let step: i64 = SPEED_MPX_PER_MS * (delta_ms as i64);
    match d {
        Dir::Left => Vec2i { x: pos.x - step, y: pos.y },
        Dir::Right => Vec2i { x: pos.x + step, y: pos.y },
        Dir::Up => Vec2i { x: pos.x, y: pos.y + step },
        Dir::Down => Vec2i { x: pos.x, y: pos.y - step },
        Dir::Still => pos,
    }
}

/// Movement never carries the player into a wall: when the frame's end
/// position overlaps some wall, the travel was refused, and the player
/// stands exactly where the turning step left it.
pub proof fn lemma_no_travel_into_wall(
    mi: MapInfo,
    p: PlayerState,
    next: Dir,
    delta_ms: int,
    walls: Seq<Vec2i>,
    player_size: Vec2i,
    wall_size: Vec2i,
)
    ensures
        ({
            let r = spec_move_player(mi, p, next, delta_ms, walls, player_size, wall_size);
            hits_wall(r.pos, player_size, walls, wall_size) ==> r.pos == spec_turn(
                mi,
                p,
                next,
            ).pos
        }),
{
}

/// An assisted turn is gentle and exact: it changes at most one axis, by
/// strictly less than the snap threshold, and where it changes one it puts
/// the player exactly onto a grid line of that axis.
pub proof fn lemma_turn_snaps_to_grid(mi: MapInfo, p: PlayerState, next: Dir)
    requires
        map_info_ok(mi),
        player_ok(p),
    ensures
        ({
            let r = spec_turn(mi, p, next);
            &&& r.pos.x == p.pos.x || r.pos.y == p.pos.y
            &&& r.pos.x != p.pos.x ==> spec_abs(r.pos.x - p.pos.x) < mi.snap_threshold
                && exists|k: int| r.pos.x == mi.offset_x + #[trigger] (k * TILE_MPX)
            &&& r.pos.y != p.pos.y ==> spec_abs(r.pos.y - p.pos.y) < mi.snap_threshold
                && exists|k: int| r.pos.y == mi.offset_y + #[trigger] (k * TILE_MPX)
        }),
{
    let r = spec_turn(mi, p, next);
    if r.pos.x != p.pos.x {
        let q = spec_round_div(p.pos.x - mi.offset_x, TILE_MPX as int);
        lemma_round_div_close(p.pos.x - mi.offset_x, TILE_MPX as int);
        assert(r.pos.x == mi.offset_x + q * TILE_MPX);
    }
    if r.pos.y != p.pos.y {
        lemma_round_div_close(mi.offset_y - p.pos.y, TILE_MPX as int);
        let q = -spec_round_div(mi.offset_y - p.pos.y, TILE_MPX as int);
        assert(mi.offset_y - spec_round_div(mi.offset_y - p.pos.y, TILE_MPX as int) * TILE_MPX
            == mi.offset_y + q * TILE_MPX) by {
            vstd::arithmetic::mul::lemma_mul_unary_negation(
                spec_round_div(mi.offset_y - p.pos.y, TILE_MPX as int),
                TILE_MPX as int,
            );
        }
        assert(r.pos.y == mi.offset_y + q * TILE_MPX);
    }
}

/// The snapped column line really is the nearest one: it lies within half
/// a tile of the given x coordinate.
pub proof fn lemma_nearest_col_within_half_tile(mi: MapInfo, x: int)
    ensures
        spec_abs(x - spec_nearest_col_x(mi, x)) <= TILE_MPX / 2,
{
    lemma_round_div_close(x - mi.offset_x, TILE_MPX as int);
}

/// The snapped row line really is the nearest one: it lies within half a
/// tile of the given y coordinate.
pub proof fn lemma_nearest_row_within_half_tile(mi: MapInfo, y: int)
    ensures
        spec_abs(y - spec_nearest_row_y(mi, y)) <= TILE_MPX / 2,
{
    lemma_round_div_close(mi.offset_y - y, TILE_MPX as int);
}

/// Rounding to the nearest multiple of `b` moves a value by at most half
/// of `b` — there is no closer multiple.
pub proof fn lemma_round_div_close(a: int, b: int)
    requires
        0 < b,
    ensures
        spec_abs(a - spec_round_div(a, b) * b) <= b / 2,
        spec_abs(spec_round_div(a, b) * b) <= spec_abs(a) + b,
{
    let h: int = b / 2;
    if a >= 0 {
        let q: int = (a + h) / b;
        let rem: int = (a + h) % b;
        vstd::arithmetic::div_mod::lemma_fundamental_div_mod(a + h, b);
        vstd::arithmetic::div_mod::lemma_mod_bound(a + h, b);
        vstd::arithmetic::mul::lemma_mul_is_commutative(b, q);
        assert(q * b == a + h - rem);
    } else {
        let q: int = (-a + h) / b;
        let rem: int = (-a + h) % b;
        vstd::arithmetic::div_mod::lemma_fundamental_div_mod(-a + h, b);
        vstd::arithmetic::div_mod::lemma_mod_bound(-a + h, b);
        vstd::arithmetic::mul::lemma_mul_is_commutative(b, q);
        assert(q * b == -a + h - rem);
        vstd::arithmetic::mul::lemma_mul_unary_negation(q, b);
        assert((-q) * b == -(a * -1 + h - rem));
    }
}

} // verus!
