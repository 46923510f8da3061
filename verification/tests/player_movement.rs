use pacgrid::game::new_game;
use pacgrid::geom::Vec2i;
use pacgrid::level::level_map;
use pacgrid::movement::{
    move_player_step, requested_dir, Dir, Keys, MapInfo, PlayerState,
};

const SIZE: Vec2i = Vec2i { x: 40_000, y: 40_000 };

fn keys(left: bool, right: bool, up: bool, down: bool) -> Keys {
    Keys { left, right, up, down }
}

#[test]
fn left_key_wins_over_the_others() {
    assert_eq!(requested_dir(keys(true, true, true, true)), Dir::Left);
    assert_eq!(requested_dir(keys(false, true, true, true)), Dir::Right);
    assert_eq!(requested_dir(keys(false, false, true, true)), Dir::Up);
    assert_eq!(requested_dir(keys(false, false, false, true)), Dir::Down);
    assert_eq!(requested_dir(keys(false, false, false, false)), Dir::Still);
}

fn start() -> (MapInfo, Vec<Vec2i>, PlayerState) {
    let game = new_game(&level_map()).unwrap();
    (game.map_info, game.walls, game.player)
}

#[test]
fn starting_from_rest_moves_at_200_pixels_per_second() {
    let (mi, walls, player) = start();
    // One 16 ms frame to the right: 200 px/s * 16 ms = 3.2 px.
    let after = move_player_step(&mi, player, Dir::Right, 16, &walls, SIZE, SIZE);
    assert_eq!(after.pos.x, -196_800);
    assert_eq!(after.pos.y, 0);
    assert_eq!(after.dir, Dir::Right);
}

#[test]
fn standing_still_stays_put() {
    let (mi, walls, player) = start();
    let after = move_player_step(&mi, player, Dir::Still, 16, &walls, SIZE, SIZE);
    assert_eq!(after, player);
}

#[test]
fn a_wall_blocks_the_frame_and_keeps_the_old_direction() {
    let (mi, walls, _) = start();
    // Just right of the left wall of the middle corridor: the wall tile's
    // center is at -280 pixels, so boxes collide once x < -240 pixels.
    let player = PlayerState { pos: Vec2i { x: -239_000, y: 0 }, dir: Dir::Left };
    let after = move_player_step(&mi, player, Dir::Left, 16, &walls, SIZE, SIZE);
    assert_eq!(after.pos, player.pos);
    assert_eq!(after.dir, Dir::Left);
}

#[test]
fn a_close_corner_turn_snaps_onto_the_grid_line() {
    let (mi, walls, _) = start();
    // Travelling right, 3 pixels past the column line at -200 pixels:
    // within the 8-pixel snap threshold, so an up-turn is granted and the
    // player is put exactly on the line.
    let player = PlayerState { pos: Vec2i { x: -197_000, y: 0 }, dir: Dir::Right };
    let after = move_player_step(&mi, player, Dir::Up, 16, &walls, SIZE, SIZE);
    assert_eq!(after.pos.x, -200_000);
    assert_eq!(after.pos.y, 3_200);
    assert_eq!(after.dir, Dir::Up);
}

#[test]
fn a_far_corner_turn_is_refused() {
    let (mi, walls, _) = start();
    // 10 pixels past the column line: beyond the snap threshold, so the
    // player keeps going right.
    let player = PlayerState { pos: Vec2i { x: -190_000, y: 0 }, dir: Dir::Right };
    let after = move_player_step(&mi, player, Dir::Up, 16, &walls, SIZE, SIZE);
    assert_eq!(after.pos.x, -186_800);
    assert_eq!(after.pos.y, 0);
    assert_eq!(after.dir, Dir::Right);
}

#[test]
fn a_reversal_needs_no_grid_line() {
    let (mi, walls, _) = start();
    let player = PlayerState { pos: Vec2i { x: -197_000, y: 0 }, dir: Dir::Right };
    let after = move_player_step(&mi, player, Dir::Left, 16, &walls, SIZE, SIZE);
    assert_eq!(after.pos.x, -200_200);
    assert_eq!(after.pos.y, 0);
    assert_eq!(after.dir, Dir::Left);
}

#[test]
fn an_upward_corridor_ends_at_the_border_wall() {
    let (mi, walls, _) = start();
    // Column 3 (the line at -160 pixels) is open from the middle corridor
    // up to the top border wall, whose tiles are centered at y = 120
    // pixels. An up-turn on the line is granted and the move taken.
    let player = PlayerState { pos: Vec2i { x: -160_000, y: 0 }, dir: Dir::Right };
    let after = move_player_step(&mi, player, Dir::Up, 16, &walls, SIZE, SIZE);
    assert_eq!(after.pos, Vec2i { x: -160_000, y: 3_200 });
    assert_eq!(after.dir, Dir::Up);
    // Boxes of 40 pixels collide with the border once y passes 80 pixels,
    // so from y = 79.9 pixels one more frame is refused, and the direction
    // rolls back to what the frame began with.
    let near_wall = PlayerState { pos: Vec2i { x: -160_000, y: 79_900 }, dir: Dir::Up };
    let blocked = move_player_step(&mi, near_wall, Dir::Still, 16, &walls, SIZE, SIZE);
    assert_eq!(blocked.pos, near_wall.pos);
    assert_eq!(blocked.dir, Dir::Up);
}

#[test]
fn a_vertical_to_horizontal_turn_snaps_y_and_can_still_be_blocked() {
    let (mi, walls, _) = start();
    // Travelling up column 3, 3 pixels short of the row line at 40 pixels.
    // A right-turn is granted and snaps y onto the line — but the first
    // frame rightwards collides with the wall at row 2, column 4, so the
    // travel is refused and the direction rolls back to up. The snap,
    // already taken, stays.
    let player = PlayerState { pos: Vec2i { x: -160_000, y: 37_000 }, dir: Dir::Up };
    let after = move_player_step(&mi, player, Dir::Right, 16, &walls, SIZE, SIZE);
    assert_eq!(after.pos, Vec2i { x: -160_000, y: 40_000 });
    assert_eq!(after.dir, Dir::Up);
}

#[test]
fn moving_down_an_open_column_works() {
    let (mi, walls, _) = start();
    let player = PlayerState { pos: Vec2i { x: -240_000, y: 0 }, dir: Dir::Down };
    let after = move_player_step(&mi, player, Dir::Down, 16, &walls, SIZE, SIZE);
    assert_eq!(after.pos, Vec2i { x: -240_000, y: -3_200 });
    assert_eq!(after.dir, Dir::Down);
}
