//! The mouth animation: a repeating timer, and a sprite-sheet frame index
//! that cycles 0, 1, 2, 0, ... each time the timer finishes.

use vstd::prelude::*;

verus! {

/// How many frames the player's sprite sheet holds.
pub const FRAME_COUNT: usize = 3;

/// How long one animation frame shows, in milliseconds.
pub const FRAME_PERIOD_MS: u32 = 100;

/// A repeating timer: elapsed time since it last finished, and its period.
#[derive(Clone, Copy, PartialEq, Eq, Structural, Debug)]
pub struct AnimTimer {
    pub elapsed_ms: u32,
    pub period_ms: u32,
}

/// No frame of the game lasts longer than this (one minute), so ticking
/// the timer can never overflow.
pub const MAX_TICK_MS: u32 = 60_000;

pub open spec fn timer_ok(t: AnimTimer) -> bool {
    &&& 0 < t.period_ms <= MAX_TICK_MS
    &&& t.elapsed_ms < t.period_ms
}

/// A fresh repeating timer with the animation period.
pub fn new_anim_timer() -> (t: AnimTimer)
    ensures
        t == (AnimTimer { elapsed_ms: 0u32, period_ms: FRAME_PERIOD_MS }),
        timer_ok(t),
{
    AnimTimer { elapsed_ms: 0, period_ms: FRAME_PERIOD_MS }
}

/// Ticking by `delta_ms`: the elapsed time advances and wraps around the
/// period; the timer "just finished" when the period was crossed at least
/// once this tick.
pub open spec fn spec_tick(t: AnimTimer, delta_ms: int) -> (AnimTimer, bool) {
    let total: int = t.elapsed_ms + delta_ms;
    if total >= t.period_ms {
        (AnimTimer { elapsed_ms: (total % (t.period_ms as int)) as u32, period_ms: t.period_ms }, true)
    } else {
        (AnimTimer { elapsed_ms: total as u32, period_ms: t.period_ms }, false)
    }
}

pub fn tick(t: AnimTimer, delta_ms: u32) -> (r: (AnimTimer, bool))
    requires
        timer_ok(t),
        delta_ms <= MAX_TICK_MS,
    ensures
        r == spec_tick(t, delta_ms as int),
        timer_ok(r.0),
{
    let total: u32 = t.elapsed_ms + delta_ms;
    if total >= t.period_ms {
        (AnimTimer { elapsed_ms: total % t.period_ms, period_ms: t.period_ms }, true)
    } else {
        (AnimTimer { elapsed_ms: total, period_ms: t.period_ms }, false)
    }
}

/// The next frame of the cycle 0, 1, 2, 0, ...
pub open spec fn spec_next_frame(frame: int) -> int {
    (frame + 1) % (FRAME_COUNT as int)
}

pub fn next_frame(frame: usize) -> (r: usize)
    requires
        frame < FRAME_COUNT,
    ensures
        r == spec_next_frame(frame as int),
        r < FRAME_COUNT,
{
    (frame + 1) % FRAME_COUNT
}

/// One frame of the animation system: tick the timer by the frame's delta,
/// and advance the sprite frame exactly when the timer just finished.
pub open spec fn spec_animate(t: AnimTimer, frame: int, delta_ms: int) -> (AnimTimer, int) {
    let (t2, finished) = spec_tick(t, delta_ms);
    if finished {
        (t2, spec_next_frame(frame))
    } else {
        (t2, frame)
    }
}

pub fn animate_step(t: AnimTimer, frame: usize, delta_ms: u32) -> (r: (AnimTimer, usize))
    requires
        timer_ok(t),
        frame < FRAME_COUNT,
        delta_ms <= MAX_TICK_MS,
    ensures
        r.0 == spec_animate(t, frame as int, delta_ms as int).0,
        r.1 == spec_animate(t, frame as int, delta_ms as int).1,
        timer_ok(r.0),
        r.1 < FRAME_COUNT,
{
    let (t2, finished) = tick(t, delta_ms);
    if finished {
        (t2, next_frame(frame))
    } else {
        (t2, frame)
    }
}

} // verus!
