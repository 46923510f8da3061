//! Eating food pips: every pip whose center lies strictly closer than the
//! eating radius to the player's center disappears, and the score grows by
//! one for each.

use vstd::prelude::*;

use crate::geom::{near, vec_ok, Vec2i};
use crate::EAT_RADIUS_MPX;

verus! {

/// The player at `player` eats the pip at `food`.
pub open spec fn eats(player: Vec2i, food: Vec2i) -> bool {
    near(player, food, EAT_RADIUS_MPX as int)
}

/// The pips that survive the frame, in their order on the board.
pub open spec fn spec_remaining(player: Vec2i, foods: Seq<Vec2i>) -> Seq<Vec2i>
    decreases foods.len(),
{
    if foods.len() == 0 {
        Seq::empty()
    } else {
        spec_remaining(player, foods.drop_last()) + if eats(player, foods.last()) {
            Seq::empty()
        } else {
            seq![foods.last()]
        }
    }
}

/// How many pips the frame eats.
pub open spec fn spec_eaten(player: Vec2i, foods: Seq<Vec2i>) -> int
    decreases foods.len(),
{
    if foods.len() == 0 {
        0
    } else {
        spec_eaten(player, foods.drop_last()) + if eats(player, foods.last()) {
            1int
        } else {
            0int
        }
    }
}

/// Every pip either survives or is eaten: the two tallies add back up to
/// the whole.
pub proof fn lemma_remaining_plus_eaten(player: Vec2i, foods: Seq<Vec2i>)
    ensures
        spec_remaining(player, foods).len() + spec_eaten(player, foods) == foods.len(),
        0 <= spec_eaten(player, foods) <= foods.len(),
    decreases foods.len(),
{
    if foods.len() > 0 {
        lemma_remaining_plus_eaten(player, foods.drop_last());
    }
}

/// One frame of eating: walks the pips in order, removes each one the
/// player overlaps, and counts it into the score.
pub fn eat_food_step(player: Vec2i, foods: &Vec<Vec2i>, score: u32) -> (r: (Vec<Vec2i>, u32))
    requires
        vec_ok(player),
        forall|i: int| 0 <= i < foods@.len() ==> vec_ok(#[trigger] foods@[i]),
        score + foods@.len() <= u32::MAX,
    ensures
        r.0@ == spec_remaining(player, foods@),
        r.1 == score + spec_eaten(player, foods@),
        forall|i: int| 0 <= i < r.0@.len() ==> vec_ok(#[trigger] r.0@[i]),
{
    let mut kept: Vec<Vec2i> = Vec::new();
    let mut new_score: u32 = score;
    let mut i: usize = 0;
    while i < foods.len()
        invariant
            0 <= i <= foods@.len(),
            vec_ok(player),
            forall|j: int| 0 <= j < foods@.len() ==> vec_ok(#[trigger] foods@[j]),
            score + foods@.len() <= u32::MAX,
            kept@ == spec_remaining(player, foods@.take(i as int)),
            new_score == score + spec_eaten(player, foods@.take(i as int)),
            forall|j: int| 0 <= j < kept@.len() ==> vec_ok(#[trigger] kept@[j]),
        decreases foods@.len() - i,
    {
        proof {
            assert(foods@.take(i + 1).drop_last() =~= foods@.take(i as int));
            assert(foods@.take(i + 1).last() == foods@[i as int]);
            lemma_remaining_plus_eaten(player, foods@.take(i as int));
        }
        if crate::geom::dist_lt(player, foods[i], EAT_RADIUS_MPX) {
            new_score += 1;
        } else {
            kept.push(foods[i]);
        }
        i += 1;
    }
    proof {
        assert(foods@.take(foods@.len() as int) =~= foods@);
    }
    (kept, new_score)
}

} // verus!
