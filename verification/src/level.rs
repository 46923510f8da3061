//! The game's level: a 7 by 15 ring of walls around a small maze, with the
//! player starting on the left of the middle corridor and one enemy in it.

use vstd::prelude::*;

verus! {

pub const LEVEL_ROWS: usize = 7;

pub const LEVEL_COLS: usize = 15;

/// The level map, one sequence of characters per row.
pub open spec fn spec_level() -> Seq<Seq<char>> {
    seq![
        seq!['W', 'W', 'W', 'W', 'W', 'W', 'W', 'W', 'W', 'W', 'W', 'W', 'W', 'W', 'W'],
        seq!['W', '.', '.', '.', '.', '.', '.', '.', '.', '.', '.', '.', '.', '.', 'W'],
        seq!['W', '.', '.', '.', 'W', 'W', '.', 'W', 'W', '.', 'W', '.', 'W', '.', 'W'],
        seq!['W', '.', 'P', '.', '.', '.', '.', 'E', '.', '.', '.', '.', 'W', '.', 'W'],
        seq!['W', '.', '.', '.', 'W', 'W', 'W', 'W', 'W', 'W', 'W', '.', 'W', '.', 'W'],
        seq!['W', '.', '.', '.', '.', '.', '.', '.', '.', '.', '.', '.', '.', '.', 'W'],
        seq!['W', 'W', 'W', 'W', 'W', 'W', 'W', 'W', 'W', 'W', 'W', 'W', 'W', 'W', 'W'],
    ]
}

/// The level map as data, row by row.
pub fn level_map() -> (r: Vec<Vec<char>>)
    ensures
        r.deep_view() == spec_level(),
        r@.len() == LEVEL_ROWS,
        forall|i: int| 0 <= i < r@.len() ==> #[trigger] r@[i]@.len() == LEVEL_COLS,
{
    let r: Vec<Vec<char>> = vec![
        vec!['W', 'W', 'W', 'W', 'W', 'W', 'W', 'W', 'W', 'W', 'W', 'W', 'W', 'W', 'W'],
        vec!['W', '.', '.', '.', '.', '.', '.', '.', '.', '.', '.', '.', '.', '.', 'W'],
        vec!['W', '.', '.', '.', 'W', 'W', '.', 'W', 'W', '.', 'W', '.', 'W', '.', 'W'],
        vec!['W', '.', 'P', '.', '.', '.', '.', 'E', '.', '.', '.', '.', 'W', '.', 'W'],
        vec!['W', '.', '.', '.', 'W', 'W', 'W', 'W', 'W', 'W', 'W', '.', 'W', '.', 'W'],
        vec!['W', '.', '.', '.', '.', '.', '.', '.', '.', '.', '.', '.', '.', '.', 'W'],
        vec!['W', 'W', 'W', 'W', 'W', 'W', 'W', 'W', 'W', 'W', 'W', 'W', 'W', 'W', 'W'],
    ];
    proof {
        assert(r.deep_view() =~~= spec_level());
    }
    r
}

} // verus!
