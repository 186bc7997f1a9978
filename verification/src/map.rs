//! The authoritative spatial state for one play area.
//!
//! A `Map` owns a terrain grid, a feature grid, an item-list grid and an
//! actor-occupancy grid of one common size, plus the set of cells whose
//! visual representation is stale. It answers the permission queries the
//! turn engine validates actions against: a cell is traversable for a
//! capability mask `m` iff `terrain_mask & feature_mask & m != 0`, where an
//! out-of-bounds cell blocks movement but lets sight pass (the latter keeps
//! the behaviour the vision queries have always had).

use vstd::prelude::*;
use crate::actor::Entity;
use crate::grid::Grid;
use crate::masks::{Movement, Vision, MOVEMENT_ANY, MOVEMENT_NONE, VISION_ANY, VISION_NONE};
use crate::point::{IVec2, Point2d, UVec2, WorldPosition};
use crate::random::Random;
use crate::terrain::{spec_feature_allowed_vision, spec_feature_movement, spec_feature_vision,
    spec_terrain_movement, spec_terrain_vision, FeatureType, TerrainType};

verus! {

/// How many cells of an actor grid are occupied.
pub open spec fn count_some(s: Seq<Option<Entity>>) -> nat
    decreases s.len(),
{
    if s.len() == 0 {
        0
    } else {
        (if s[0] is Some {
            1nat
        } else {
            0nat
        }) + count_some(s.drop_first())
    }
}

/// Updating one cell changes the occupancy count by the difference of the
/// old and new occupancy of that cell.
pub proof fn lemma_count_some_update(s: Seq<Option<Entity>>, i: int, v: Option<Entity>)
    requires
        0 <= i < s.len(),
    ensures
        count_some(s.update(i, v)) == count_some(s) + (if v is Some {
            1int
        } else {
            0int
        }) - (if s[i] is Some {
            1int
        } else {
            0int
        }),
    decreases s.len(),
{
    let t = s.update(i, v);
    if i == 0 {
        assert(t.drop_first() =~= s.drop_first());
    } else {
        assert(t.drop_first() =~= s.drop_first().update(i - 1, v));
        lemma_count_some_update(s.drop_first(), i - 1, v);
    }
}

/// An all-empty actor grid holds no actor.
pub proof fn lemma_count_some_all_none(s: Seq<Option<Entity>>)
    requires
        forall|j: int| 0 <= j < s.len() ==> s[j] is None,
    ensures
        count_some(s) == 0,
    decreases s.len(),
{
    if s.len() > 0 {
        lemma_count_some_all_none(s.drop_first());
    }
}

/// Whether a dirty-cell record for `(x, y)` occurs in `s`.
pub open spec fn dirty_at(s: Seq<UVec2>, x: int, y: int) -> bool {
    exists|i: int| 0 <= i < s.len() && s[i].x == x && s[i].y == y
}

/// The per-cell terrain is a function of the terrain grid alone: two maps
/// with equal terrain grids agree on every terrain cell. The mutators state
/// preservation of untouched layers as whole-grid equalities; this lemma
/// (and its two siblings) turn those into per-cell facts for callers.
pub proof fn lemma_terrain_cells_of_grid(a: &GameMap, b: &GameMap)
    requires
        a.spec_terrain_grid() == b.spec_terrain_grid(),
    ensures
        forall|x: int, y: int| #[trigger] a.spec_terrain(x, y) == b.spec_terrain(x, y),
{
}

/// The per-cell feature is a function of the feature grid alone.
pub proof fn lemma_feature_cells_of_grid(a: &GameMap, b: &GameMap)
    requires
        a.spec_feature_grid() == b.spec_feature_grid(),
    ensures
        forall|x: int, y: int| #[trigger] a.spec_feature(x, y) == b.spec_feature(x, y),
{
}

/// The per-cell occupant is a function of the actor grid alone.
pub proof fn lemma_actor_cells_of_grid(a: &GameMap, b: &GameMap)
    requires
        a.spec_actors_grid() == b.spec_actors_grid(),
    ensures
        forall|x: int, y: int| #[trigger] a.spec_actor(x, y) == b.spec_actor(x, y),
{
}

/// What a finished map needs beyond its grids, handed through the
/// generation pipeline unchanged: where the play area sits in the world,
/// the generator's random stream, and the renderer's tileset and layer
/// bindings.
#[derive(Clone, Copy, Debug, PartialEq, Eq, Structural)]
pub struct MapPassThroughData {
    pub world_position: WorldPosition,
    pub random: Random,
    pub terrain_tileset_id: u8,
    pub feature_tileset_id: u8,
    pub item_tileset_id: u8,
    pub terrain_layer_entity: Entity,
    pub feature_layer_entity: Entity,
    pub item_layer_entity: Entity,
}

pub struct GameMap {
    size: UVec2,
    world_position: WorldPosition,
    random: Random,
    terrain_types: Grid<TerrainType>,
    feature_types: Grid<FeatureType>,
    item_types: Grid<Vec<u32>>,
    actors: Grid<Option<Entity>>,
    terrain_tileset_id: u8,
    feature_tileset_id: u8,
    item_tileset_id: u8,
    terrain_layer_entity: Entity,
    feature_layer_entity: Entity,
    item_layer_entity: Entity,
    update_tiles: Vec<UVec2>,
    update_all: bool,
}

impl GameMap {
    /// Well-formedness: every grid has the map's size. Every constructor
    /// establishes it and every method preserves it.
    pub closed spec fn wf(&self) -> bool {
        &&& self.terrain_types.wf()
        &&& self.feature_types.wf()
        &&& self.item_types.wf()
        &&& self.actors.wf()
        &&& self.terrain_types.spec_width() == self.size.x as int
        &&& self.terrain_types.spec_height() == self.size.y as int
        &&& self.feature_types.spec_width() == self.size.x as int
        &&& self.feature_types.spec_height() == self.size.y as int
        &&& self.item_types.spec_width() == self.size.x as int
        &&& self.item_types.spec_height() == self.size.y as int
        &&& self.actors.spec_width() == self.size.x as int
        &&& self.actors.spec_height() == self.size.y as int
    }

    /// The map's size.
    pub closed spec fn spec_size(&self) -> UVec2 {
        self.size
    }

    /// Whether `(x, y)` addresses a cell of this map.
    pub open spec fn spec_in_bounds(&self, x: int, y: int) -> bool {
        0 <= x < self.spec_size().x && 0 <= y < self.spec_size().y
    }

    /// The terrain category at `(x, y)`.
    pub closed spec fn spec_terrain(&self, x: int, y: int) -> TerrainType {
        self.terrain_types.spec_cell(x, y)
    }

    /// The feature category at `(x, y)`.
    pub closed spec fn spec_feature(&self, x: int, y: int) -> FeatureType {
        self.feature_types.spec_cell(x, y)
    }

    /// The occupant at `(x, y)`.
    pub closed spec fn spec_actor(&self, x: int, y: int) -> Option<Entity> {
        self.actors.spec_cell(x, y)
    }

    /// Whether an in-bounds cell is occupied.
    pub open spec fn spec_has_actor(&self, x: int, y: int) -> bool {
        self.spec_in_bounds(x, y) && self.spec_actor(x, y) is Some
    }

    /// The whole actor grid.
    pub closed spec fn spec_actors_grid(&self) -> Grid<Option<Entity>> {
        self.actors
    }

    /// The whole terrain grid.
    pub closed spec fn spec_terrain_grid(&self) -> Grid<TerrainType> {
        self.terrain_types
    }

    /// The whole feature grid.
    pub closed spec fn spec_feature_grid(&self) -> Grid<FeatureType> {
        self.feature_types
    }

    /// The whole item grid.
    pub closed spec fn spec_items_grid(&self) -> Grid<Vec<u32>> {
        self.item_types
    }

    /// How many actors stand on the map.
    pub open spec fn spec_actor_count(&self) -> nat {
        count_some(self.spec_actors_grid().spec_cells())
    }

    /// The recorded dirty cells, in insertion order.
    pub closed spec fn spec_dirty_seq(&self) -> Seq<UVec2> {
        self.update_tiles@
    }

    /// Whether `(x, y)` awaits a redraw.
    pub open spec fn spec_dirty(&self, x: int, y: int) -> bool {
        dirty_at(self.spec_dirty_seq(), x, y)
    }

    /// Whether the whole map awaits a redraw.
    pub closed spec fn spec_update_all(&self) -> bool {
        self.update_all
    }

    /// Where the play area sits in the world.
    pub closed spec fn spec_world_position(&self) -> WorldPosition {
        self.world_position
    }

    /// The movement mask of the terrain at `(x, y)`; out of bounds blocks.
    pub open spec fn spec_terrain_move_mask(&self, x: int, y: int) -> u8 {
        if self.spec_in_bounds(x, y) {
            spec_terrain_movement(self.spec_terrain(x, y))
        } else {
            MOVEMENT_NONE
        }
    }

    /// The movement mask of the feature at `(x, y)`; out of bounds restricts
    /// nothing, as a cell without a feature does.
    pub open spec fn spec_feature_move_mask(&self, x: int, y: int) -> u8 {
        if self.spec_in_bounds(x, y) {
            spec_feature_movement(self.spec_feature(x, y))
        } else {
            MOVEMENT_ANY
        }
    }

    /// Whether a capability mask may enter the cell at `(x, y)`.
    pub open spec fn spec_can_move_through(&self, x: int, y: int, mask: u8) -> bool {
        self.spec_terrain_move_mask(x, y) & self.spec_feature_move_mask(x, y) & mask != 0
    }

    /// The vision-penetration mask of the terrain at `(x, y)`; out of bounds
    /// lets sight pass.
    pub open spec fn spec_terrain_vision_mask(&self, x: int, y: int) -> u8 {
        if self.spec_in_bounds(x, y) {
            spec_terrain_vision(self.spec_terrain(x, y))
        } else {
            VISION_ANY
        }
    }

    /// The vision-penetration mask of the feature at `(x, y)`.
    pub open spec fn spec_feature_vision_mask(&self, x: int, y: int) -> u8 {
        if self.spec_in_bounds(x, y) {
            spec_feature_vision(self.spec_feature(x, y))
        } else {
            VISION_ANY
        }
    }

    /// Whether a vision mask sees through the cell at `(x, y)`.
    pub open spec fn spec_can_see_through(&self, x: int, y: int, mask: u8) -> bool {
        self.spec_terrain_vision_mask(x, y) & self.spec_feature_vision_mask(x, y) & mask != 0
    }

    /// The allowed-vision mask of the feature at `(x, y)`; out of bounds
    /// there is nothing to see.
    pub open spec fn spec_feature_allowed_vision_mask(&self, x: int, y: int) -> u8 {
        if self.spec_in_bounds(x, y) {
            spec_feature_allowed_vision(self.spec_feature(x, y))
        } else {
            VISION_NONE
        }
    }

    /// Whether a vision mask sees the feature itself at `(x, y)`; terrain
    /// is not consulted, by design.
    pub open spec fn spec_can_see_feature(&self, x: int, y: int, mask: u8) -> bool {
        self.spec_feature_allowed_vision_mask(x, y) & mask != 0
    }

    /// All aspects other than the actor grid agree with `other`.
    pub open spec fn spec_same_except_actors(&self, other: &GameMap) -> bool {
        &&& self.spec_size() == other.spec_size()
        &&& self.spec_terrain_grid() == other.spec_terrain_grid()
        &&& self.spec_feature_grid() == other.spec_feature_grid()
        &&& self.spec_items_grid() == other.spec_items_grid()
        &&& self.spec_dirty_seq() == other.spec_dirty_seq()
        &&& self.spec_update_all() == other.spec_update_all()
        &&& self.spec_world_position() == other.spec_world_position()
    }

    /// Whether the given movement capability mask may enter the cell at
    /// `index`: the terrain's mask, the feature's mask and the actor's mask
    /// must share a bit.
    pub fn can_move_through<P: Point2d>(&self, index: P, movement_component: &Movement) -> (r:
        bool)
        requires
            self.wf(),
        ensures
            r == self.spec_can_move_through(index.spec_x(), index.spec_y(), movement_component.0),
    {
        let terrain = match self.terrain_types.get(index) {
            Some(t) => t.allowed_movement(),
            None => MOVEMENT_NONE,
        };
        let feature = match self.feature_types.get(index) {
            Some(f) => f.allowed_movement(),
            None => MOVEMENT_ANY,
        };
        (terrain & feature & movement_component.0) != 0
    }

    /// Whether the given vision capability mask sees through the cell at
    /// `index`.
    pub fn can_see_through<P: Point2d>(&self, index: P, vision_component: &Vision) -> (r: bool)
        requires
            self.wf(),
        ensures
            r == self.spec_can_see_through(index.spec_x(), index.spec_y(), vision_component.0),
    {
        let terrain = match self.terrain_types.get(index) {
            Some(t) => t.vision_penetrates(),
            None => VISION_ANY,
        };
        let feature = match self.feature_types.get(index) {
            Some(f) => f.vision_penetrates(),
            None => VISION_ANY,
        };
        (terrain & feature & vision_component.0) != 0
    }

    /// Whether the given vision capability mask sees the feature at `index`
    /// itself.
    pub fn can_see_feature<P: Point2d>(&self, index: P, vision_component: &Vision) -> (r: bool)
        requires
            self.wf(),
        ensures
            r == self.spec_can_see_feature(index.spec_x(), index.spec_y(), vision_component.0),
    {
        let feature = match self.feature_types.get(index) {
            Some(f) => f.allowed_vision(),
            None => VISION_NONE,
        };
        (feature & vision_component.0) != 0
    }

    /// Record that the cell at `uv` awaits a redraw.
    #[verifier::loop_isolation(false)]
    fn insert_dirty(&mut self, uv: UVec2)
        requires
            old(self).wf(),
        ensures
            final(self).wf(),
            final(self).spec_size() == old(self).spec_size(),
            final(self).spec_terrain_grid() == old(self).spec_terrain_grid(),
            final(self).spec_feature_grid() == old(self).spec_feature_grid(),
            final(self).spec_items_grid() == old(self).spec_items_grid(),
            final(self).spec_actors_grid() == old(self).spec_actors_grid(),
            final(self).spec_update_all() == old(self).spec_update_all(),
            final(self).spec_world_position() == old(self).spec_world_position(),
            forall|x: int, y: int|
                final(self).spec_dirty(x, y) <==> (old(self).spec_dirty(x, y) || (x == uv.x && y
                    == uv.y)),
    {
        let n = self.update_tiles.len();
        let mut i: usize = 0;
        while i < n
            invariant
                *self == *old(self),
                n == self.update_tiles.len(),
                i <= n,
                forall|j: int| 0 <= j < i ==> self.update_tiles[j] != uv,
            decreases n - i,
        {
            if self.update_tiles[i] == uv {
                proof {
                    assert(old(self).spec_dirty_seq()[i as int].x == uv.x && old(
                        self).spec_dirty_seq()[i as int].y == uv.y);
                }
                return ;
            }
            i += 1;
        }
        self.update_tiles.push(uv);
        proof {
            let s = self.spec_dirty_seq();
            let t = old(self).spec_dirty_seq();
            assert(s == t.push(uv));
            assert forall|x: int, y: int|
                self.spec_dirty(x, y) <==> (old(self).spec_dirty(x, y) || (x == uv.x && y
                    == uv.y)) by {
                if old(self).spec_dirty(x, y) {
                    let j = choose|j: int| 0 <= j < t.len() && t[j].x == x && t[j].y == y;
                    assert(0 <= j < s.len() && s[j].x == x && s[j].y == y);
                    assert(self.spec_dirty(x, y));
                }
                if x == uv.x && y == uv.y {
                    let k = s.len() - 1;
                    assert(0 <= k < s.len() && s[k].x == x && s[k].y == y);
                    assert(self.spec_dirty(x, y));
                }
                if self.spec_dirty(x, y) && !(x == uv.x && y == uv.y) {
                    let j = choose|j: int| 0 <= j < s.len() && s[j].x == x && s[j].y == y;
                    assert(j != s.len() - 1);
                    assert(0 <= j < t.len() && t[j].x == x && t[j].y == y);
                    assert(old(self).spec_dirty(x, y));
                }
            }
        }
    }

    /// Overwrite the terrain category at `index` and mark the cell dirty;
    /// a write out of bounds changes nothing and marks nothing.
    pub fn set_terrain_at<P: Point2d>(&mut self, index: P, terrain_type: TerrainType)
        requires
            old(self).wf(),
        ensures
            final(self).wf(),
            final(self).spec_size() == old(self).spec_size(),
            final(self).spec_feature_grid() == old(self).spec_feature_grid(),
            final(self).spec_items_grid() == old(self).spec_items_grid(),
            final(self).spec_actors_grid() == old(self).spec_actors_grid(),
            final(self).spec_update_all() == old(self).spec_update_all(),
            final(self).spec_world_position() == old(self).spec_world_position(),
            old(self).spec_in_bounds(index.spec_x(), index.spec_y()) ==> {
                &&& final(self).spec_terrain(index.spec_x(), index.spec_y()) == terrain_type
                &&& forall|x: int, y: int|
                    final(self).spec_dirty(x, y) <==> (old(self).spec_dirty(x, y) || (x
                        == index.spec_x() && y == index.spec_y()))
            },
            forall|x: int, y: int|
                old(self).spec_in_bounds(x, y) && !(x == index.spec_x() && y == index.spec_y())
                    ==> final(self).spec_terrain(x, y) == old(self).spec_terrain(x, y),
            !old(self).spec_in_bounds(index.spec_x(), index.spec_y()) ==> final(
                self).spec_dirty_seq() == old(self).spec_dirty_seq() && final(
                self).spec_terrain_grid() == old(self).spec_terrain_grid(),
    {
        let valid = index.is_valid(self.size);
        self.terrain_types.set(index, terrain_type);
        if valid {
            let uv = index.as_uvec2();
            self.insert_dirty(uv);
        }
    }

    /// Overwrite the feature category at `index` and mark the cell dirty;
    /// a write out of bounds changes nothing and marks nothing.
    pub fn set_feature_at<P: Point2d>(&mut self, index: P, feature_type: FeatureType)
        requires
            old(self).wf(),
        ensures
            final(self).wf(),
            final(self).spec_size() == old(self).spec_size(),
            final(self).spec_terrain_grid() == old(self).spec_terrain_grid(),
            final(self).spec_items_grid() == old(self).spec_items_grid(),
            final(self).spec_actors_grid() == old(self).spec_actors_grid(),
            final(self).spec_update_all() == old(self).spec_update_all(),
            final(self).spec_world_position() == old(self).spec_world_position(),
            old(self).spec_in_bounds(index.spec_x(), index.spec_y()) ==> {
                &&& final(self).spec_feature(index.spec_x(), index.spec_y()) == feature_type
                &&& forall|x: int, y: int|
                    final(self).spec_dirty(x, y) <==> (old(self).spec_dirty(x, y) || (x
                        == index.spec_x() && y == index.spec_y()))
            },
            forall|x: int, y: int|
                old(self).spec_in_bounds(x, y) && !(x == index.spec_x() && y == index.spec_y())
                    ==> final(self).spec_feature(x, y) == old(self).spec_feature(x, y),
            !old(self).spec_in_bounds(index.spec_x(), index.spec_y()) ==> final(
                self).spec_dirty_seq() == old(self).spec_dirty_seq() && final(
                self).spec_feature_grid() == old(self).spec_feature_grid(),
    {
        let valid = index.is_valid(self.size);
        self.feature_types.set(index, feature_type);
        if valid {
            let uv = index.as_uvec2();
            self.insert_dirty(uv);
        }
    }

    /// Whether the cell at `index` is occupied.
    pub fn has_actor<P: Point2d>(&mut self, index: P) -> (r: bool)
        requires
            old(self).wf(),
        ensures
            *final(self) == *old(self),
            r == old(self).spec_has_actor(index.spec_x(), index.spec_y()),
    {
        match self.actors.get(index) {
            Some(slot) => slot.is_some(),
            None => false,
        }
    }

    /// Put an actor on the cell at `index`, replacing any occupant;
    /// a no-op out of bounds.
    pub fn add_actor<P: Point2d>(&mut self, index: P, actor: Entity)
        requires
            old(self).wf(),
        ensures
            final(self).wf(),
            final(self).spec_same_except_actors(old(self)),
            old(self).spec_in_bounds(index.spec_x(), index.spec_y()) ==> final(self).spec_actor(
                index.spec_x(), index.spec_y()) == Some(actor),
            forall|x: int, y: int|
                old(self).spec_in_bounds(x, y) && !(x == index.spec_x() && y == index.spec_y())
                    ==> final(self).spec_actor(x, y) == old(self).spec_actor(x, y),
            !old(self).spec_in_bounds(index.spec_x(), index.spec_y()) ==> final(
                self).spec_actors_grid() == old(self).spec_actors_grid(),
            old(self).spec_in_bounds(index.spec_x(), index.spec_y()) ==> final(
                self).spec_actors_grid().spec_cells() == old(self).spec_actors_grid().spec_cells(
            ).update(index.spec_y() * old(self).spec_actors_grid().spec_width() + index.spec_x(),
            Some(actor)),
            final(self).spec_actors_grid().spec_width() == old(
                self).spec_actors_grid().spec_width(),
            final(self).spec_actors_grid().spec_height() == old(
                self).spec_actors_grid().spec_height(),
    {
        self.actors.set(index, Some(actor));
    }

    /// Clear the cell at `index`; a no-op out of bounds.
    pub fn remove_actor<P: Point2d>(&mut self, index: P)
        requires
            old(self).wf(),
        ensures
            final(self).wf(),
            final(self).spec_same_except_actors(old(self)),
            old(self).spec_in_bounds(index.spec_x(), index.spec_y()) ==> final(self).spec_actor(
                index.spec_x(), index.spec_y()) is None,
            forall|x: int, y: int|
                old(self).spec_in_bounds(x, y) && !(x == index.spec_x() && y == index.spec_y())
                    ==> final(self).spec_actor(x, y) == old(self).spec_actor(x, y),
            !old(self).spec_in_bounds(index.spec_x(), index.spec_y()) ==> final(
                self).spec_actors_grid() == old(self).spec_actors_grid(),
            old(self).spec_in_bounds(index.spec_x(), index.spec_y()) ==> final(
                self).spec_actors_grid().spec_cells() == old(self).spec_actors_grid().spec_cells(
            ).update(index.spec_y() * old(self).spec_actors_grid().spec_width() + index.spec_x(),
            None::<Entity>),
            final(self).spec_actors_grid().spec_width() == old(
                self).spec_actors_grid().spec_width(),
            final(self).spec_actors_grid().spec_height() == old(
                self).spec_actors_grid().spec_height(),
    {
        self.actors.set(index, None);
    }

    /// The occupant of the cell at `index`, or nothing for an empty or
    /// out-of-bounds cell.
    pub fn get_actor<P: Point2d>(&self, index: P) -> (r: Option<Entity>)
        requires
            self.wf(),
        ensures
            self.spec_in_bounds(index.spec_x(), index.spec_y()) ==> r == self.spec_actor(
                index.spec_x(), index.spec_y()),
            !self.spec_in_bounds(index.spec_x(), index.spec_y()) ==> r is None,
    {
        match self.actors.get(index) {
            Some(e) => *e,
            None => None,
        }
    }

    /// Build a map from generated terrain data: every raw cell value
    /// decodes to its terrain category, features and items and actors start
    /// empty, and the whole map is marked for redraw. The pass-through data
    /// carried by the pipeline lands in the map unchanged.
    pub fn from_gen_data(data: crate::map_gen::MapGenData<MapPassThroughData>) -> (m: GameMap)
        requires
            data.wf(),
            data.spec_size().x <= i32::MAX,
            data.spec_size().y <= i32::MAX,
            data.spec_size().x as int * data.spec_size().y as int <= usize::MAX,
        ensures
            m.wf(),
            m.spec_size() == data.spec_size(),
            forall|x: int, y: int|
                m.spec_in_bounds(x, y) ==> m.spec_terrain(x, y) == TerrainType::spec_from_u32(
                    data.spec_grid().spec_cell(x, y)),
            forall|x: int, y: int|
                m.spec_in_bounds(x, y) ==> m.spec_feature(x, y) == FeatureType::Empty,
            forall|x: int, y: int| m.spec_in_bounds(x, y) ==> m.spec_actor(x, y) is None,
            forall|x: int, y: int|
                m.spec_in_bounds(x, y) ==> m.spec_items_grid().spec_cell(x, y)@ == Seq::<
                    u32,
                >::empty(),
            m.spec_actor_count() == 0,
            m.spec_dirty_seq() == Seq::<UVec2>::empty(),
            m.spec_update_all(),
            m.spec_world_position() == data.spec_user_data().world_position,
    {
        let size = data.size();
        let user = *data.user_data();
        let mut terrain_types: Grid<TerrainType> = Grid::new_fill(size, TerrainType::Wall);
        let mut y: u32 = 0;
        while y < size.y
            invariant
                data.wf(),
                size == data.spec_size(),
                size.x <= i32::MAX,
                size.y <= i32::MAX,
                y <= size.y,
                terrain_types.wf(),
                terrain_types.spec_width() == size.x as int,
                terrain_types.spec_height() == size.y as int,
                forall|a: int, b: int|
                    0 <= a < size.x && 0 <= b < y ==> terrain_types.spec_cell(a, b)
                        == TerrainType::spec_from_u32(data.spec_grid().spec_cell(a, b)),
            decreases size.y - y,
        {
            let mut x: u32 = 0;
            while x < size.x
                invariant
                    data.wf(),
                    size == data.spec_size(),
                    size.x <= i32::MAX,
                    size.y <= i32::MAX,
                    y < size.y,
                    x <= size.x,
                    terrain_types.wf(),
                    terrain_types.spec_width() == size.x as int,
                    terrain_types.spec_height() == size.y as int,
                    forall|a: int, b: int|
                        0 <= a < size.x && 0 <= b < y ==> terrain_types.spec_cell(a, b)
                            == TerrainType::spec_from_u32(data.spec_grid().spec_cell(a, b)),
                    forall|a: int|
                        0 <= a < x ==> terrain_types.spec_cell(a, y as int)
                            == TerrainType::spec_from_u32(data.spec_grid().spec_cell(a, y as int)),
                decreases size.x - x,
            {
                let p = IVec2 { x: x as i32, y: y as i32 };
                let v = match data.terrain_grid().get(p) {
                    Some(raw) => *raw,
                    None => 0,
                };
                terrain_types.set(p, TerrainType::from_u32(v));
                x += 1;
            }
            y += 1;
        }
        let count: usize = (size.x as usize) * (size.y as usize);
        let mut item_cells: Vec<Vec<u32>> = Vec::new();
        let mut i: usize = 0;
        while i < count
            invariant
                i <= count,
                item_cells.len() == i,
                forall|j: int| 0 <= j < i ==> (#[trigger] item_cells[j])@ == Seq::<u32>::empty(),
            decreases count - i,
        {
            item_cells.push(Vec::new());
            i += 1;
        }
        let actors: Grid<Option<Entity>> = Grid::new_fill(size, None);
        let m = GameMap {
            size,
            world_position: user.world_position,
            random: user.random,
            terrain_types,
            feature_types: Grid::new_fill(size, FeatureType::Empty),
            item_types: Grid::from_vec(size, item_cells),
            actors,
            terrain_tileset_id: user.terrain_tileset_id,
            feature_tileset_id: user.feature_tileset_id,
            item_tileset_id: user.item_tileset_id,
            terrain_layer_entity: user.terrain_layer_entity,
            feature_layer_entity: user.feature_layer_entity,
            item_layer_entity: user.item_layer_entity,
            update_tiles: Vec::new(),
            update_all: true,
        };
        proof {
            lemma_count_some_all_none(m.spec_actors_grid().spec_cells());
            assert(m.spec_dirty_seq() =~= Seq::<UVec2>::empty());
            assert forall|x: int, y: int| m.spec_in_bounds(x, y) implies m.spec_items_grid(
            ).spec_cell(x, y)@ == Seq::<u32>::empty() by {
                assert(0 <= y * size.x as int + x < count as int) by (nonlinear_arith)
                    requires
                        0 <= x < size.x as int,
                        0 <= y < size.y as int,
                        count as int == size.x as int * size.y as int,
                ;
            }
        }
        m
    }

    /// Relocate the occupant of `from` to `to`. If `to` is occupied or out
    /// of bounds, or `from` holds nobody, the call is a complete no-op;
    /// callers that need to react must check success themselves. The total
    /// number of actors on the map never changes.
    pub fn move_actor<P: Point2d, Q: Point2d>(&mut self, from: P, to: Q)
        requires
            old(self).wf(),
        ensures
            final(self).wf(),
            final(self).spec_same_except_actors(old(self)),
            old(self).spec_has_actor(to.spec_x(), to.spec_y()) ==> final(self).spec_actors_grid()
                == old(self).spec_actors_grid(),
            !old(self).spec_in_bounds(to.spec_x(), to.spec_y()) || !old(self).spec_has_actor(
                from.spec_x(), from.spec_y()) ==> final(self).spec_actors_grid() == old(
                self).spec_actors_grid(),
            old(self).spec_in_bounds(to.spec_x(), to.spec_y()) && !old(self).spec_has_actor(
                to.spec_x(), to.spec_y()) && old(self).spec_has_actor(from.spec_x(), from.spec_y())
                ==> {
                &&& final(self).spec_actor(from.spec_x(), from.spec_y()) is None
                &&& final(self).spec_actor(to.spec_x(), to.spec_y()) == old(self).spec_actor(
                    from.spec_x(), from.spec_y())
                &&& forall|x: int, y: int|
                    old(self).spec_in_bounds(x, y) && !(x == from.spec_x() && y == from.spec_y())
                        && !(x == to.spec_x() && y == to.spec_y()) ==> final(self).spec_actor(x, y)
                        == old(self).spec_actor(x, y)
            },
            final(self).spec_actor_count() == old(self).spec_actor_count(),
    {
        if !to.is_valid(self.size) {
            // Completing the move would drop the occupant off the map and
            // change the actor count.
            return ;
        }
        if self.has_actor(to) {
            return ;
        }
        if let Some(actor) = self.get_actor(from) {
            let ghost s = self.spec_actors_grid().spec_cells();
            let ghost w = self.spec_actors_grid().spec_width();
            let ghost fx = from.spec_x();
            let ghost fy = from.spec_y();
            let ghost tx = to.spec_x();
            let ghost ty = to.spec_y();
            proof {
                self.spec_actors_grid().lemma_cell_index(fx, fy);
                self.spec_actors_grid().lemma_cell_index(tx, ty);
            }
            self.remove_actor(from);
            self.add_actor(to, actor);
            proof {
                lemma_count_some_update(s, fy * w + fx, None::<Entity>);
                lemma_count_some_update(s.update(fy * w + fx, None::<Entity>), ty * w + tx, Some(
                    actor));
                final(self).spec_actors_grid().lemma_cell_index(fx, fy);
                final(self).spec_actors_grid().lemma_cell_index(tx, ty);
            }
        }
    }

    /// The map's size.
    pub fn size(&self) -> (r: UVec2)
        ensures
            r == self.spec_size(),
    {
        self.size
    }

    /// Where the play area sits in the world.
    pub fn world_position(&self) -> (r: WorldPosition)
        ensures
            r == self.spec_world_position(),
    {
        self.world_position
    }

    /// The cells awaiting a redraw, for the renderer to consume.
    pub fn update_tiles(&self) -> (r: &Vec<UVec2>)
        ensures
            r@ == self.spec_dirty_seq(),
    {
        &self.update_tiles
    }

    /// Whether the whole map awaits a redraw.
    pub fn update_all(&self) -> (r: bool)
        ensures
            r == self.spec_update_all(),
    {
        self.update_all
    }

    /// Forget all redraw obligations, after the renderer has consumed them.
    pub fn clear_updates(&mut self)
        requires
            old(self).wf(),
        ensures
            final(self).wf(),
            final(self).spec_dirty_seq() == Seq::<UVec2>::empty(),
            !final(self).spec_update_all(),
            final(self).spec_size() == old(self).spec_size(),
            final(self).spec_terrain_grid() == old(self).spec_terrain_grid(),
            final(self).spec_feature_grid() == old(self).spec_feature_grid(),
            final(self).spec_items_grid() == old(self).spec_items_grid(),
            final(self).spec_actors_grid() == old(self).spec_actors_grid(),
            final(self).spec_world_position() == old(self).spec_world_position(),
    {
        self.update_tiles.clear();
        self.update_all = false;
        proof {
            assert(self.spec_dirty_seq() =~= Seq::<UVec2>::empty());
        }
    }
}

} // verus!
