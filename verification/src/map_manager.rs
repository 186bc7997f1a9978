//! Loading play areas on demand.
//!
//! The manager keeps a cache from world position to the handle of the map
//! loaded there. Asking for a position outside the world's bounds is a
//! typed failure; asking for a cached position returns the cached handle;
//! anything else admits a freshly generated map under the handle the caller
//! created for it.

use vstd::prelude::*;
use crate::actor::Entity;
use crate::map::{GameMap, MapPassThroughData};
use crate::map_gen::{MapGenerator, ScatterBuilder};
use crate::point::{UVec2, WorldPosition};
use crate::random::Random;

verus! {

/// How many cells a generated play area spans horizontally.
pub const GRID_WIDTH: u32 = 80;

/// How many cells a generated play area spans vertically.
pub const GRID_HEIGHT: u32 = 45;

/// The bounds the world keeps its play areas within.
#[derive(Clone, Copy, Debug, PartialEq, Eq, Structural)]
pub struct GameContext {
    /// The least valid world position, each axis included.
    pub world_min: WorldPosition,
    /// The greatest valid world position, each axis included.
    pub world_max: WorldPosition,
}

/// Whether a world position lies within the context's bounds.
pub open spec fn spec_valid_world_position(ctx: GameContext, p: WorldPosition) -> bool {
    &&& ctx.world_min.x <= p.x <= ctx.world_max.x
    &&& ctx.world_min.y <= p.y <= ctx.world_max.y
    &&& ctx.world_min.z <= p.z <= ctx.world_max.z
}

impl GameContext {
    pub fn is_valid_world_position(&self, p: WorldPosition) -> (r: bool)
        ensures
            r == spec_valid_world_position(*self, p),
    {
        self.world_min.x <= p.x && p.x <= self.world_max.x && self.world_min.y <= p.y && p.y
            <= self.world_max.y && self.world_min.z <= p.z && p.z <= self.world_max.z
    }
}

/// A failure of the map-management layer.
#[derive(Clone, Copy, Debug, PartialEq, Eq, Structural)]
pub enum AtrlError {
    /// The requested location lies outside the world's bounds.
    InvalidWorldPosition(i32, i32, i32),
}

/// The first cache index holding `p`, or -1 when none does.
pub open spec fn loaded_index_of(s: Seq<(WorldPosition, Entity)>, p: WorldPosition) -> int
    decreases s.len(),
{
    if s.len() == 0 {
        -1
    } else if s[0].0 == p {
        0
    } else if loaded_index_of(s.drop_first(), p) < 0 {
        -1
    } else {
        1 + loaded_index_of(s.drop_first(), p)
    }
}

/// Where the exec scan stops is exactly `loaded_index_of`.
proof fn lemma_loaded_index_char(s: Seq<(WorldPosition, Entity)>, p: WorldPosition, i: int)
    requires
        0 <= i <= s.len(),
        forall|j: int| 0 <= j < i ==> s[j].0 != p,
        i < s.len() ==> s[i].0 == p,
    ensures
        loaded_index_of(s, p) == if i == s.len() {
            -1int
        } else {
            i
        },
    decreases s.len(),
{
    if s.len() > 0 {
        let d = s.drop_first();
        if i == 0 {
        } else {
            assert forall|j: int| 0 <= j < i - 1 implies d[j].0 != p by {
                assert(d[j] == s[j + 1]);
            }
            if i - 1 < d.len() {
                assert(d[i - 1] == s[i]);
            }
            lemma_loaded_index_char(d, p, i - 1);
        }
    }
}

/// The cache of loaded play areas.
pub struct MapManager {
    loaded_maps: Vec<(WorldPosition, Entity)>,
}

impl MapManager {
    /// The cached positions and their map handles, oldest first.
    pub closed spec fn spec_loaded(&self) -> Seq<(WorldPosition, Entity)> {
        self.loaded_maps@
    }

    pub fn new() -> (r: MapManager)
        ensures
            r.spec_loaded() == Seq::<(WorldPosition, Entity)>::empty(),
    {
        let r = MapManager { loaded_maps: Vec::new() };
        proof {
            assert(r.spec_loaded() =~= Seq::<(WorldPosition, Entity)>::empty());
        }
        r
    }

    /// The map loaded at a world position: a typed failure outside the
    /// world's bounds, the cached handle where one exists, and otherwise
    /// `fresh_map` — the handle the caller spawned for the freshly
    /// generated map — which the cache then remembers.
    pub fn get_or_generate(
        &mut self,
        game_context: &GameContext,
        world_position: WorldPosition,
        fresh_map: Entity,
    ) -> (r: Result<Entity, AtrlError>)
        ensures
            !spec_valid_world_position(*game_context, world_position) ==> r == Err::<
                Entity,
                AtrlError,
            >(AtrlError::InvalidWorldPosition(world_position.x, world_position.y,
                world_position.z)) && final(self).spec_loaded() == old(self).spec_loaded(),
            spec_valid_world_position(*game_context, world_position) && loaded_index_of(old(
                self).spec_loaded(), world_position) >= 0 ==> r == Ok::<Entity, AtrlError>(old(
                self).spec_loaded()[loaded_index_of(old(self).spec_loaded(), world_position)].1)
                && final(self).spec_loaded() == old(self).spec_loaded(),
            spec_valid_world_position(*game_context, world_position) && loaded_index_of(old(
                self).spec_loaded(), world_position) < 0 ==> r == Ok::<Entity, AtrlError>(fresh_map)
                && final(self).spec_loaded() == old(self).spec_loaded().push(
                (world_position, fresh_map)),
    {
        if !game_context.is_valid_world_position(world_position) {
            return Err(AtrlError::InvalidWorldPosition(world_position.x, world_position.y,
                world_position.z));
        }
        let n = self.loaded_maps.len();
        let mut i: usize = 0;
        while i < n
            invariant
                *self == *old(self),
                spec_valid_world_position(*game_context, world_position),
                n == self.loaded_maps@.len(),
                i <= n,
                forall|j: int| 0 <= j < i ==> self.loaded_maps@[j].0 != world_position,
            decreases n - i,
        {
            let entry = self.loaded_maps[i];
            if entry.0 == world_position {
                proof {
                    lemma_loaded_index_char(self.spec_loaded(), world_position, i as int);
                }
                return Ok(entry.1);
            }
            i += 1;
        }
        proof {
            lemma_loaded_index_char(self.spec_loaded(), world_position, n as int);
        }
        self.loaded_maps.push((world_position, fresh_map));
        Ok(fresh_map)
    }

    /// Generate the map for a world position from a seed: the standard play
    /// area size, scattered by the seeded random stream. The renderer
    /// bindings in `pass` ride through to the finished map.
    pub fn generate_map(seed: u64, world_position: WorldPosition, pass: MapPassThroughData) -> (r:
        GameMap)
        ensures
            r.wf(),
            r.spec_size() == (UVec2 { x: GRID_WIDTH, y: GRID_HEIGHT }),
            r.spec_actor_count() == 0,
            r.spec_world_position() == world_position,
    {
        let size = UVec2 { x: GRID_WIDTH, y: GRID_HEIGHT };
        let random = Random::new(seed);
        let user_data = MapPassThroughData { world_position, ..pass };
        proof {
            assert(size.x as int * size.y as int <= usize::MAX) by (nonlinear_arith)
                requires
                    size.x <= 0x100 && size.y <= 0x100,
            ;
        }
        let chain = MapGenerator::new(size, random, ScatterBuilder::new(), user_data);
        let data = chain.generate();
        GameMap::from_gen_data(data)
    }
}

} // verus!
