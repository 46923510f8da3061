//! The tile grid: the level map, the placement of the maze on the screen,
//! and the list of entities the map spawns.
//!
//! The map is a rectangle of characters: `W` a wall tile, `P` the player's
//! starting tile, `E` an enemy, `.` a food pip, anything else an empty
//! tile. The grid's origin is the screen center, so the center of the
//! top-left tile sits half a map up and left of it, shifted back by half
//! a tile.

use vstd::prelude::*;

use crate::geom::{coord_ok, vec_ok, Vec2i};
use crate::movement::{map_info_ok, MapInfo};
use crate::TILE_MPX;

verus! {

/// What one map character stands for.
#[derive(Clone, Copy, PartialEq, Eq, Structural, Debug)]
pub enum TileKind {
    Wall,
    Player,
    Enemy,
    Food,
    Empty,
}

pub open spec fn spec_tile_kind(c: char) -> TileKind {
    if c == 'W' {
        TileKind::Wall
    } else if c == 'P' {
        TileKind::Player
    } else if c == 'E' {
        TileKind::Enemy
    } else if c == '.' {
        TileKind::Food
    } else {
        TileKind::Empty
    }
}

pub fn tile_kind(c: char) -> (k: TileKind)
    ensures
        k == spec_tile_kind(c),
{
    match c {
        'W' => TileKind::Wall,
        'P' => TileKind::Player,
        'E' => TileKind::Enemy,
        '.' => TileKind::Food,
        _ => TileKind::Empty,
    }
}

/// Maps this large never arise in a level, and the bound keeps every tile
/// center far inside the coordinate range.
pub const MAX_MAP_SIDE: usize = 10_000;

/// Where a map of `rows` by `cols` tiles lies on the screen, with the
/// assisted-turn threshold of a fifth of a tile.
pub open spec fn spec_map_info(rows: int, cols: int) -> MapInfo {
    MapInfo {
        offset_x: (TILE_MPX / 2 - (cols * TILE_MPX) / 2) as i64,
        offset_y: ((rows * TILE_MPX) / 2 - TILE_MPX / 2) as i64,
        snap_threshold: crate::SNAP_THRESHOLD_MPX,
    }
}

pub fn compute_map_info(rows: usize, cols: usize) -> (mi: MapInfo)
    requires
        1 <= rows <= MAX_MAP_SIDE,
        1 <= cols <= MAX_MAP_SIDE,
    ensures
        mi == spec_map_info(rows as int, cols as int),
        map_info_ok(mi),
        offsets_small(mi),
{
    MapInfo {
        offset_x: TILE_MPX / 2 - (cols as i64 * TILE_MPX) / 2,
        offset_y: (rows as i64 * TILE_MPX) / 2 - TILE_MPX / 2,
        snap_threshold: crate::SNAP_THRESHOLD_MPX,
    }
}

/// Offsets produced by `compute_map_info` stay small, which keeps every
/// tile position within coordinate range.
pub open spec fn offsets_small(mi: MapInfo) -> bool {
    &&& crate::geom::spec_abs(mi.offset_x as int) <= MAX_MAP_SIDE * TILE_MPX
    &&& crate::geom::spec_abs(mi.offset_y as int) <= MAX_MAP_SIDE * TILE_MPX
}

/// The pixel center of the tile in row `row`, column `col`: columns grow
/// rightwards, rows downwards.
pub open spec fn spec_tile_pos(mi: MapInfo, row: int, col: int) -> Vec2i {
    Vec2i {
        x: (mi.offset_x + col * TILE_MPX) as i64,
        y: (mi.offset_y - row * TILE_MPX) as i64,
    }
}

pub fn tile_pos(mi: &MapInfo, row: usize, col: usize) -> (p: Vec2i)
    requires
        offsets_small(*mi),
        row <= MAX_MAP_SIDE,
        col <= MAX_MAP_SIDE,
    ensures
        p == spec_tile_pos(*mi, row as int, col as int),
        vec_ok(p),
        crate::geom::in_play(p),
{
    Vec2i {
        x: mi.offset_x + col as i64 * TILE_MPX,
        y: mi.offset_y - row as i64 * TILE_MPX,
    }
}

/// An entity placed by the level setup.
#[derive(Clone, Copy, PartialEq, Eq, Structural, Debug)]
pub struct Spawn {
    pub kind: TileKind,
    pub pos: Vec2i,
}

/// The entities one map row spawns, left to right: one per cell whose
/// character stands for something, at that cell's tile center.
pub open spec fn spec_row_spawns(mi: MapInfo, row: int, cells: Seq<char>) -> Seq<Spawn>
    decreases cells.len(),
{
    if cells.len() == 0 {
        Seq::empty()
    } else {
        let col = cells.len() - 1;
        let kind = spec_tile_kind(cells.last());
        spec_row_spawns(mi, row, cells.drop_last()) + if kind == TileKind::Empty {
            Seq::empty()
        } else {
            seq![Spawn { kind: kind, pos: spec_tile_pos(mi, row, col) }]
        }
    }
}

/// The entities the whole map spawns, row-major.
pub open spec fn spec_map_spawns(mi: MapInfo, rows: Seq<Seq<char>>) -> Seq<Spawn>
    decreases rows.len(),
{
    if rows.len() == 0 {
        Seq::empty()
    } else {
        spec_map_spawns(mi, rows.drop_last()) + spec_row_spawns(
            mi,
            rows.len() - 1,
            rows.last(),
        )
    }
}

/// Walks the map row by row, column by column, and places one entity for
/// every cell whose character stands for something.
pub fn spawn_entities(map: &Vec<Vec<char>>, mi: &MapInfo) -> (r: Vec<Spawn>)
    requires
        offsets_small(*mi),
        map@.len() <= MAX_MAP_SIDE,
        forall|i: int| 0 <= i < map@.len() ==> #[trigger] map@[i]@.len() <= MAX_MAP_SIDE,
    ensures
        r@ == spec_map_spawns(*mi, map.deep_view()),
        forall|i: int| 0 <= i < r@.len() ==> crate::geom::in_play(#[trigger] r@[i].pos),
{
    let ghost all_rows: Seq<Seq<char>> = map.deep_view();
    let mut r: Vec<Spawn> = Vec::new();
    let mut row: usize = 0;
    while row < map.len()
        invariant
            0 <= row <= map@.len(),
            map@.len() <= MAX_MAP_SIDE,
            forall|i: int| 0 <= i < map@.len() ==> #[trigger] map@[i]@.len() <= MAX_MAP_SIDE,
            offsets_small(*mi),
            all_rows == map.deep_view(),
            r@ == spec_map_spawns(*mi, all_rows.take(row as int)),
            forall|i: int| 0 <= i < r@.len() ==> crate::geom::in_play(#[trigger] r@[i].pos),
        decreases map@.len() - row,
    {
        let cells: &Vec<char> = &map[row];
        let ghost row_cells: Seq<char> = cells@;
        let mut col: usize = 0;
        while col < cells.len()
            invariant
                0 <= col <= cells@.len(),
                cells@.len() <= MAX_MAP_SIDE,
                row < map@.len() <= MAX_MAP_SIDE,
                offsets_small(*mi),
                cells@ == row_cells,
                r@ == spec_map_spawns(*mi, all_rows.take(row as int)) + spec_row_spawns(
                    *mi,
                    row as int,
                    row_cells.take(col as int),
                ),
                forall|i: int| 0 <= i < r@.len() ==> crate::geom::in_play(#[trigger] r@[i].pos),
            decreases cells@.len() - col,
        {
            let kind = tile_kind(cells[col]);
            proof {
                assert(row_cells.take(col + 1).drop_last() =~= row_cells.take(col as int));
                assert(row_cells.take(col + 1).last() == row_cells[col as int]);
            }
            if !matches!(kind, TileKind::Empty) {
                let pos = tile_pos(mi, row, col);
                r.push(Spawn { kind, pos });
            }
            col += 1;
        }
        proof {
            assert(row_cells.take(row_cells.len() as int) =~= row_cells);
            assert(all_rows.take(row + 1).drop_last() =~= all_rows.take(row as int));
            assert(all_rows.take(row + 1).last() == all_rows[row as int]);
            assert(all_rows[row as int] == row_cells);
        }
        row += 1;
    }
    proof {
        assert(all_rows.take(all_rows.len() as int) =~= all_rows);
    }
    r
}

} // verus!
