use pacgrid::game::new_game;
use pacgrid::level::level_map;
use pacgrid::movement::{Dir, Keys};

const RIGHT: Keys = Keys { left: false, right: true, up: false, down: false };
const NONE: Keys = Keys { left: false, right: false, up: false, down: false };

#[test]
fn running_right_eats_the_first_pip_on_the_seventh_frame() {
    let mut game = new_game(&level_map()).unwrap();
    // Six 16 ms frames to the right: 19.2 pixels of travel, still more
    // than 20 pixels from the food pip at -160 pixels.
    for _ in 0..6 {
        game.frame(RIGHT, 16);
    }
    assert_eq!(game.player.pos.x, -180_800);
    assert_eq!(game.player.pos.y, 0);
    assert_eq!(game.player.dir, Dir::Right);
    assert_eq!(game.score, 0);
    assert_eq!(game.foods.len(), 48);
    // 96 ms have passed: the 100 ms animation timer has not finished.
    assert_eq!(game.frame, 0);
    // The seventh frame crosses into the pip's radius and the timer's
    // period at once.
    game.frame(RIGHT, 16);
    assert_eq!(game.player.pos.x, -177_600);
    assert_eq!(game.score, 1);
    assert_eq!(game.foods.len(), 47);
    assert_eq!(game.frame, 1);
    assert_eq!(game.anim.elapsed_ms, 12);
    assert_eq!(game.score_line(), "Score: 1");
}

#[test]
fn an_idle_frame_changes_nothing_but_the_timer() {
    let mut game = new_game(&level_map()).unwrap();
    let before_pos = game.player.pos;
    game.frame(NONE, 16);
    assert_eq!(game.player.pos, before_pos);
    assert_eq!(game.player.dir, Dir::Still);
    assert_eq!(game.score, 0);
    assert_eq!(game.foods.len(), 48);
    assert_eq!(game.anim.elapsed_ms, 16);
}

#[test]
fn walls_and_enemies_never_move() {
    let mut game = new_game(&level_map()).unwrap();
    let walls = game.walls.clone();
    let enemies = game.enemies.clone();
    for _ in 0..20 {
        game.frame(RIGHT, 16);
    }
    assert_eq!(game.walls, walls);
    assert_eq!(game.enemies, enemies);
    assert_eq!(game.life, 3);
}
