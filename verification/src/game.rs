//! The whole game: building the world from a level map, and running one
//! frame — move the player, eat food, advance the animation.

use vstd::prelude::*;

use crate::anim::{new_anim_timer, spec_animate, timer_ok, AnimTimer, FRAME_COUNT};
use crate::food::{eat_food_step, lemma_remaining_plus_eaten, spec_eaten, spec_remaining};
use crate::geom::{in_play, in_play_check, vec_ok, Vec2i};
use crate::grid::{
    compute_map_info, offsets_small, spawn_entities, spec_map_info, spec_map_spawns, Spawn,
    TileKind, MAX_MAP_SIDE,
};
use crate::movement::{
    map_info_ok, move_player_step, player_ok, requested_dir, spec_move_player,
    spec_requested_dir, Dir, Keys, MapInfo, PlayerState, MAX_FRAME_MS,
};
use crate::{CHARACTER_SIZE_MPX, TILE_MPX};

verus! {

/// The player starts with this many lives.
pub const START_LIFE: u32 = 3;

/// The whole game state.
pub struct Game {
    pub map_info: MapInfo,
    pub walls: Vec<Vec2i>,
    pub foods: Vec<Vec2i>,
    pub enemies: Vec<Vec2i>,
    pub player: PlayerState,
    pub life: u32,
    pub score: u32,
    pub anim: AnimTimer,
    pub frame: usize,
}

/// The player's collision box: the character sprite's square.
pub open spec fn spec_player_size() -> Vec2i {
    Vec2i { x: CHARACTER_SIZE_MPX, y: CHARACTER_SIZE_MPX }
}

/// A wall's collision box: one full tile.
pub open spec fn spec_wall_size() -> Vec2i {
    Vec2i { x: TILE_MPX, y: TILE_MPX }
}

pub open spec fn wf(g: Game) -> bool {
    &&& map_info_ok(g.map_info)
    &&& player_ok(g.player)
    &&& forall|i: int| 0 <= i < g.walls@.len() ==> vec_ok(#[trigger] g.walls@[i])
    &&& forall|i: int| 0 <= i < g.foods@.len() ==> vec_ok(#[trigger] g.foods@[i])
    &&& g.score + g.foods@.len() <= u32::MAX
    &&& timer_ok(g.anim)
    &&& g.frame < FRAME_COUNT
}

/// The positions, in spawn order, of the spawned entities of one kind.
pub open spec fn positions_of(spawns: Seq<Spawn>, k: TileKind) -> Seq<Vec2i>
    decreases spawns.len(),
{
    if spawns.len() == 0 {
        Seq::empty()
    } else {
        positions_of(spawns.drop_last(), k) + if spawns.last().kind == k {
            seq![spawns.last().pos]
        } else {
            Seq::empty()
        }
    }
}

proof fn lemma_positions_of_len(spawns: Seq<Spawn>, k: TileKind)
    ensures
        positions_of(spawns, k).len() <= spawns.len(),
    decreases spawns.len(),
{
    if spawns.len() > 0 {
        lemma_positions_of_len(spawns.drop_last(), k);
    }
}

proof fn lemma_row_spawns_len(mi: MapInfo, row: int, cells: Seq<char>)
    ensures
        crate::grid::spec_row_spawns(mi, row, cells).len() <= cells.len(),
    decreases cells.len(),
{
    if cells.len() > 0 {
        lemma_row_spawns_len(mi, row, cells.drop_last());
    }
}

proof fn lemma_map_spawns_len(mi: MapInfo, rows: Seq<Seq<char>>)
    requires
        forall|i: int| 0 <= i < rows.len() ==> (#[trigger] rows[i]).len() <= MAX_MAP_SIDE,
    ensures
        spec_map_spawns(mi, rows).len() <= rows.len() * MAX_MAP_SIDE,
    decreases rows.len(),
{
    if rows.len() > 0 {
        lemma_map_spawns_len(mi, rows.drop_last());
        lemma_row_spawns_len(mi, rows.len() - 1, rows.last());
    }
}

/// Builds the game world from a level map, as the level setup does: the
/// maze is centered on the screen, and every map character spawns its
/// entity at its tile center. The game starts only when the map holds
/// exactly one player tile; the player starts at rest with three lives, a
/// zero score, and the first animation frame.
pub fn new_game(map: &Vec<Vec<char>>) -> (r: Option<Game>)
    requires
        1 <= map@.len() <= MAX_MAP_SIDE,
        1 <= map@[0]@.len(),
        forall|i: int| 0 <= i < map@.len() ==> #[trigger] map@[i]@.len() <= MAX_MAP_SIDE,
    ensures
        ({
            let mi = spec_map_info(map@.len() as int, map@[0]@.len() as int);
            let spawns = spec_map_spawns(mi, map.deep_view());
            let players = positions_of(spawns, TileKind::Player);
            match r {
                Option::Some(g) => {
                    &&& players.len() == 1
                    &&& wf(g)
                    &&& g.map_info == mi
                    &&& g.walls@ == positions_of(spawns, TileKind::Wall)
                    &&& g.foods@ == positions_of(spawns, TileKind::Food)
                    &&& g.enemies@ == positions_of(spawns, TileKind::Enemy)
                    &&& g.player == (PlayerState { pos: players[0], dir: Dir::Still })
                    &&& g.life == START_LIFE
                    &&& g.score == 0
                    &&& g.anim == (AnimTimer {
                        elapsed_ms: 0u32,
                        period_ms: crate::anim::FRAME_PERIOD_MS,
                    })
                    &&& g.frame == 0
                },
                Option::None => players.len() != 1,
            }
        }),
{
    let rows: usize = map.len();
    let cols: usize = map[0].len();
    let mi = compute_map_info(rows, cols);
    let spawns = spawn_entities(map, &mi);
    proof {
        lemma_map_spawns_len(mi, map.deep_view());
    }
    let ghost all: Seq<Spawn> = spawns@;
    let mut walls: Vec<Vec2i> = Vec::new();
    let mut foods: Vec<Vec2i> = Vec::new();
    let mut enemies: Vec<Vec2i> = Vec::new();
    let mut players: Vec<Vec2i> = Vec::new();
    let mut i: usize = 0;
    while i < spawns.len()
        invariant
            0 <= i <= all.len(),
            spawns@ == all,
            walls@ == positions_of(all.take(i as int), TileKind::Wall),
            foods@ == positions_of(all.take(i as int), TileKind::Food),
            enemies@ == positions_of(all.take(i as int), TileKind::Enemy),
            players@ == positions_of(all.take(i as int), TileKind::Player),
            forall|j: int| 0 <= j < all.len() ==> in_play(#[trigger] all[j].pos),
            forall|j: int| 0 <= j < walls@.len() ==> in_play(#[trigger] walls@[j]),
            forall|j: int| 0 <= j < foods@.len() ==> in_play(#[trigger] foods@[j]),
            forall|j: int| 0 <= j < players@.len() ==> in_play(#[trigger] players@[j]),
        decreases all.len() - i,
    {
        proof {
            assert(all.take(i + 1).drop_last() =~= all.take(i as int));
            assert(all.take(i + 1).last() == all[i as int]);
        }
        let s = spawns[i];
        match s.kind {
            TileKind::Wall => walls.push(s.pos),
            TileKind::Food => foods.push(s.pos),
            TileKind::Enemy => enemies.push(s.pos),
            TileKind::Player => players.push(s.pos),
            TileKind::Empty => (),
        }
        i += 1;
    }
    proof {
        assert(all.take(all.len() as int) =~= all);
        lemma_positions_of_len(all, TileKind::Food);
    }
    if players.len() == 1 {
        let start: Vec2i = players[0];
        Option::Some(
            Game {
                map_info: mi,
                walls,
                foods,
                enemies,
                player: PlayerState { pos: start, dir: Dir::Still },
                life: START_LIFE,
                score: 0,
                anim: new_anim_timer(),
                frame: 0,
            },
        )
    } else {
        Option::None
    }
}

/// Where the player ends one frame: the movement step, unless it would
/// carry the player outside the playable coordinate range — which no maze
/// with walls ever approaches — in which case the frame's movement is
/// refused entirely.
pub open spec fn spec_frame_player(g: Game, keys: Keys, delta_ms: int) -> PlayerState {
    let moved = spec_move_player(
        g.map_info,
        g.player,
        spec_requested_dir(keys),
        delta_ms,
        g.walls@,
        spec_player_size(),
        spec_wall_size(),
    );
    if in_play(moved.pos) {
        moved
    } else {
        g.player
    }
}

impl Game {
    /// One frame of the game, with the held keys and the frame's duration:
    /// the player turns and moves, every food pip it now overlaps is eaten
    /// and scored, and the mouth animation ticks.
    pub fn frame(&mut self, keys: Keys, delta_ms: u32)
        requires
            wf(*old(self)),
            delta_ms <= MAX_FRAME_MS,
        ensures
            wf(*final(self)),
            final(self).player == spec_frame_player(*old(self), keys, delta_ms as int),
            final(self).foods@ == spec_remaining(final(self).player.pos, old(self).foods@),
            final(self).score == old(self).score + spec_eaten(
                final(self).player.pos,
                old(self).foods@,
            ),
            final(self).anim == spec_animate(
                old(self).anim,
                old(self).frame as int,
                delta_ms as int,
            ).0,
            final(self).frame == spec_animate(
                old(self).anim,
                old(self).frame as int,
                delta_ms as int,
            ).1,
            final(self).map_info == old(self).map_info,
            final(self).walls == old(self).walls,
            final(self).enemies == old(self).enemies,
            final(self).life == old(self).life,
            // Conservation: every pip is either still on the board or in
            // the score, so their sum never changes — and the score never
            // goes down.
            final(self).score + final(self).foods@.len() == old(self).score + old(
                self,
            ).foods@.len(),
            final(self).score >= old(self).score,
    {
        let next = requested_dir(keys);
        let moved = move_player_step(
            &self.map_info,
            self.player,
            next,
            delta_ms,
            &self.walls,
            Vec2i { x: CHARACTER_SIZE_MPX, y: CHARACTER_SIZE_MPX },
            Vec2i { x: TILE_MPX, y: TILE_MPX },
        );
        if in_play_check(moved.pos) {
            self.player = moved;
        }
        proof {
            lemma_remaining_plus_eaten(self.player.pos, self.foods@);
        }
        let (kept, new_score) = eat_food_step(self.player.pos, &self.foods, self.score);
        self.foods = kept;
        self.score = new_score;
        let (timer, frame) = crate::anim::animate_step(self.anim, self.frame, delta_ms);
        self.anim = timer;
        self.frame = frame;
    }

    /// The score line to show on screen.
    pub fn score_line(&self) -> (r: String)
        ensures
            r@ == crate::score::spec_score_text(self.score as int),
    {
        crate::score::score_text(self.score)
    }
}

} // verus!
