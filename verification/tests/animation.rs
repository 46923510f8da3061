use pacgrid::anim::{animate_step, new_anim_timer, next_frame, tick, AnimTimer};

#[test]
fn a_short_tick_only_accumulates() {
    let t = new_anim_timer();
    let (t2, finished) = tick(t, 16);
    assert!(!finished);
    assert_eq!(t2.elapsed_ms, 16);
    assert_eq!(t2.period_ms, 100);
}

#[test]
fn crossing_the_period_finishes_and_wraps() {
    let t = AnimTimer { elapsed_ms: 90, period_ms: 100 };
    let (t2, finished) = tick(t, 16);
    assert!(finished);
    assert_eq!(t2.elapsed_ms, 6);
}

#[test]
fn a_long_tick_wraps_modulo_the_period() {
    let t = new_anim_timer();
    let (t2, finished) = tick(t, 250);
    assert!(finished);
    assert_eq!(t2.elapsed_ms, 50);
}

#[test]
fn frames_cycle_through_three() {
    assert_eq!(next_frame(0), 1);
    assert_eq!(next_frame(1), 2);
    assert_eq!(next_frame(2), 0);
}

#[test]
fn the_frame_advances_exactly_when_the_timer_finishes() {
    let t = new_anim_timer();
    let (t2, frame) = animate_step(t, 0, 60);
    assert_eq!(frame, 0);
    let (t3, frame) = animate_step(t2, frame, 60);
    assert_eq!(frame, 1);
    assert_eq!(t3.elapsed_ms, 20);
}
