use pacgrid::game::new_game;
use pacgrid::grid::{compute_map_info, spawn_entities, tile_kind, TileKind};
use pacgrid::level::level_map;

#[test]
fn map_info_centers_the_maze() {
    let mi = compute_map_info(7, 15);
    // 15 tiles of 40 pixels: the leftmost tile center is at -280 pixels;
    // 7 rows: the top row center is at +120 pixels.
    assert_eq!(mi.offset_x, -280_000);
    assert_eq!(mi.offset_y, 120_000);
    assert_eq!(mi.snap_threshold, 8_000);
}

#[test]
fn tile_kinds_follow_the_map_characters() {
    assert_eq!(tile_kind('W'), TileKind::Wall);
    assert_eq!(tile_kind('P'), TileKind::Player);
    assert_eq!(tile_kind('E'), TileKind::Enemy);
    assert_eq!(tile_kind('.'), TileKind::Food);
    assert_eq!(tile_kind(' '), TileKind::Empty);
    assert_eq!(tile_kind('x'), TileKind::Empty);
}

#[test]
fn spawns_sit_at_tile_centers() {
    let map = level_map();
    let mi = compute_map_info(map.len(), map[0].len());
    let spawns = spawn_entities(&map, &mi);
    // The top-left corner is a wall at the top-left tile center.
    assert_eq!(spawns[0].kind, TileKind::Wall);
    assert_eq!(spawns[0].pos.x, -280_000);
    assert_eq!(spawns[0].pos.y, 120_000);
    // The first row is all walls.
    assert!(spawns.iter().take(15).all(|s| s.kind == TileKind::Wall));
    assert_eq!(spawns[14].pos.x, 280_000);
}

#[test]
fn the_level_spawns_the_expected_world() {
    let map = level_map();
    let game = new_game(&map).expect("the level holds one player tile");
    assert_eq!(game.walls.len(), 55);
    assert_eq!(game.foods.len(), 48);
    assert_eq!(game.enemies.len(), 1);
    // The player starts at row 3, column 2: 80 pixels right of the left
    // column, on the middle row.
    assert_eq!(game.player.pos.x, -200_000);
    assert_eq!(game.player.pos.y, 0);
    // The enemy sits at row 3, column 7: the exact screen center.
    assert_eq!(game.enemies[0].x, 0);
    assert_eq!(game.enemies[0].y, 0);
    assert_eq!(game.score, 0);
    assert_eq!(game.life, 3);
    assert_eq!(game.frame, 0);
}

#[test]
fn a_map_without_a_player_does_not_start() {
    let map = vec![vec!['W', '.', 'W']];
    assert!(new_game(&map).is_none());
}

#[test]
fn a_map_with_two_players_does_not_start() {
    let map = vec![vec!['P', '.', 'P']];
    assert!(new_game(&map).is_none());
}
