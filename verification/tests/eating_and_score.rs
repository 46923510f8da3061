use pacgrid::food::eat_food_step;
use pacgrid::geom::Vec2i;
use pacgrid::score::{decimal_string, score_text};

fn v(x: i64, y: i64) -> Vec2i {
    Vec2i { x, y }
}

#[test]
fn pips_strictly_inside_the_radius_are_eaten() {
    let player = v(0, 0);
    let foods = vec![v(0, 0), v(19_999, 0), v(20_000, 0), v(0, -5_000)];
    let (kept, score) = eat_food_step(player, &foods, 0);
    // The pip exactly 20 pixels away survives; the other three are eaten.
    assert_eq!(kept, vec![v(20_000, 0)]);
    assert_eq!(score, 3);
}

#[test]
fn eating_keeps_the_other_pips_in_order() {
    let player = v(0, 0);
    let foods = vec![v(100_000, 0), v(0, 1_000), v(-100_000, 0)];
    let (kept, score) = eat_food_step(player, &foods, 7);
    assert_eq!(kept, vec![v(100_000, 0), v(-100_000, 0)]);
    assert_eq!(score, 8);
}

#[test]
fn a_frame_with_nothing_near_eats_nothing() {
    let player = v(0, 0);
    let foods = vec![v(40_000, 0), v(0, 40_000)];
    let (kept, score) = eat_food_step(player, &foods, 2);
    assert_eq!(kept, foods);
    assert_eq!(score, 2);
}

#[test]
fn decimal_rendering_is_exact() {
    assert_eq!(decimal_string(0), "0");
    assert_eq!(decimal_string(7), "7");
    assert_eq!(decimal_string(10), "10");
    assert_eq!(decimal_string(120), "120");
    assert_eq!(decimal_string(4_294_967_295), "4294967295");
}

#[test]
fn the_score_line_reads_score_colon_number() {
    assert_eq!(score_text(0), "Score: 0");
    assert_eq!(score_text(48), "Score: 48");
}
