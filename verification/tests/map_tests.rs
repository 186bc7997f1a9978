use atrl_core::actor::Entity;
use atrl_core::map::{GameMap, MapPassThroughData};
use atrl_core::map_gen::MapGenData;
use atrl_core::masks::{Movement, Vision, MOVEMENT_ANY, MOVEMENT_WALK, VISION_NORMAL};
use atrl_core::point::{IVec2, UVec2, WorldPosition};
use atrl_core::random::Random;
use atrl_core::terrain::{FeatureType, TerrainType};

fn pass_data() -> MapPassThroughData {
    MapPassThroughData {
        world_position: WorldPosition { x: 0, y: 0, z: 0 },
        random: Random::new(7),
        terrain_tileset_id: 0,
        feature_tileset_id: 1,
        item_tileset_id: 2,
        terrain_layer_entity: Entity::new(100, 0),
        feature_layer_entity: Entity::new(101, 0),
        item_layer_entity: Entity::new(102, 0),
    }
}

fn blank_map(width: u32, height: u32) -> GameMap {
    // A fresh generation state decodes to all-wall terrain.
    let data = MapGenData::new(
        UVec2 { x: width, y: height },
        Random::new(1),
        pass_data(),
    );
    GameMap::from_gen_data(data)
}

#[test]
fn example_two_cell_map() {
    // A 2x1 grid: (0,0) is Wall (movement mask none), (1,0) is Floor
    // (movement mask any); an actor that can walk is blocked by the wall
    // and admitted by the floor.
    let mut map = blank_map(2, 1);
    map.set_terrain_at(IVec2::new(1, 0), TerrainType::Floor);
    let walk = Movement(MOVEMENT_WALK);
    assert_eq!(map.can_move_through(IVec2::new(0, 0), &walk), false);
    assert_eq!(map.can_move_through(IVec2::new(1, 0), &walk), true);
}

#[test]
fn movement_mask_intersection() {
    // Traversability is exactly terrain mask & feature mask & actor mask.
    let mut map = blank_map(3, 3);
    map.set_terrain_at(IVec2::new(1, 1), TerrainType::Floor);
    map.set_feature_at(IVec2::new(1, 1), FeatureType::DoorClosed);
    let walk = Movement(MOVEMENT_WALK);
    // A closed door masks movement to none even over floor.
    assert!(!map.can_move_through(IVec2::new(1, 1), &walk));
    map.set_feature_at(IVec2::new(1, 1), FeatureType::DoorOpen);
    assert!(map.can_move_through(IVec2::new(1, 1), &walk));
    // The zero capability mask never passes.
    assert!(!map.can_move_through(IVec2::new(1, 1), &Movement(0)));
    // The full capability mask passes wherever any bit would.
    assert!(map.can_move_through(IVec2::new(1, 1), &Movement(MOVEMENT_ANY)));
}

#[test]
fn out_of_bounds_blocks_movement_but_not_sight() {
    let map = blank_map(2, 2);
    let walk = Movement(MOVEMENT_WALK);
    let normal = Vision(VISION_NORMAL);
    assert!(!map.can_move_through(IVec2::new(-1, 0), &walk));
    assert!(!map.can_move_through(IVec2::new(0, 5), &walk));
    // Out of bounds the vision queries default to unobstructed.
    assert!(map.can_see_through(IVec2::new(-1, 0), &normal));
    // ... but there is no feature to see out there.
    assert!(!map.can_see_feature(IVec2::new(-1, 0), &normal));
}

#[test]
fn vision_queries() {
    let mut map = blank_map(2, 1);
    let normal = Vision(VISION_NORMAL);
    // Walls block sight; floors do not.
    assert!(!map.can_see_through(IVec2::new(0, 0), &normal));
    map.set_terrain_at(IVec2::new(1, 0), TerrainType::Floor);
    assert!(map.can_see_through(IVec2::new(1, 0), &normal));
    // An empty cell offers no feature to see; a door can be seen without
    // consulting the terrain behind it.
    assert!(!map.can_see_feature(IVec2::new(0, 0), &normal));
    map.set_feature_at(IVec2::new(0, 0), FeatureType::DoorClosed);
    assert!(map.can_see_feature(IVec2::new(0, 0), &normal));
}

#[test]
fn move_actor_rejected_when_occupied() {
    // Moving onto an occupied cell leaves the actor grid unchanged.
    let mut map = blank_map(3, 1);
    let a = Entity::new(1, 0);
    let b = Entity::new(2, 0);
    map.add_actor(IVec2::new(0, 0), a);
    map.add_actor(IVec2::new(1, 0), b);
    map.move_actor(IVec2::new(0, 0), IVec2::new(1, 0));
    assert_eq!(map.get_actor(IVec2::new(0, 0)), Some(a));
    assert_eq!(map.get_actor(IVec2::new(1, 0)), Some(b));
    assert_eq!(map.get_actor(IVec2::new(2, 0)), None);
}

#[test]
fn move_actor_relocates_into_empty_cell() {
    let mut map = blank_map(3, 1);
    let a = Entity::new(1, 0);
    map.add_actor(IVec2::new(0, 0), a);
    map.move_actor(IVec2::new(0, 0), IVec2::new(2, 0));
    assert_eq!(map.get_actor(IVec2::new(0, 0)), None);
    assert_eq!(map.get_actor(IVec2::new(2, 0)), Some(a));
}

#[test]
fn move_actor_from_empty_cell_is_a_no_op() {
    let mut map = blank_map(3, 1);
    let a = Entity::new(1, 0);
    map.add_actor(IVec2::new(0, 0), a);
    map.move_actor(IVec2::new(1, 0), IVec2::new(2, 0));
    assert_eq!(map.get_actor(IVec2::new(0, 0)), Some(a));
    assert_eq!(map.get_actor(IVec2::new(1, 0)), None);
    assert_eq!(map.get_actor(IVec2::new(2, 0)), None);
}

#[test]
fn move_actor_never_drops_an_actor_off_the_map() {
    let mut map = blank_map(2, 1);
    let a = Entity::new(1, 0);
    map.add_actor(IVec2::new(1, 0), a);
    map.move_actor(IVec2::new(1, 0), IVec2::new(2, 0));
    assert_eq!(map.get_actor(IVec2::new(1, 0)), Some(a));
}

#[test]
fn add_remove_has_actor() {
    let mut map = blank_map(2, 2);
    let a = Entity::new(9, 3);
    assert!(!map.has_actor(IVec2::new(1, 1)));
    map.add_actor(IVec2::new(1, 1), a);
    assert!(map.has_actor(IVec2::new(1, 1)));
    assert_eq!(map.get_actor(IVec2::new(1, 1)), Some(a));
    map.remove_actor(IVec2::new(1, 1));
    assert!(!map.has_actor(IVec2::new(1, 1)));
    // Out-of-bounds cells hold nobody and accept nobody.
    map.add_actor(IVec2::new(5, 5), a);
    assert!(!map.has_actor(IVec2::new(5, 5)));
}

#[test]
fn setting_terrain_marks_the_cell_dirty() {
    let mut map = blank_map(2, 2);
    map.clear_updates();
    assert!(map.update_tiles().is_empty());
    assert!(!map.update_all());
    map.set_terrain_at(IVec2::new(1, 0), TerrainType::Water);
    assert_eq!(map.update_tiles().as_slice(), &[UVec2 { x: 1, y: 0 }]);
    // Marking the same cell twice records it once.
    map.set_terrain_at(IVec2::new(1, 0), TerrainType::Floor);
    assert_eq!(map.update_tiles().len(), 1);
    // An out-of-bounds write changes nothing and marks nothing.
    map.set_feature_at(IVec2::new(7, 7), FeatureType::DoorOpen);
    assert_eq!(map.update_tiles().len(), 1);
}

#[test]
fn from_gen_data_carries_pass_through_values() {
    let map = blank_map(4, 3);
    assert_eq!(map.size(), UVec2 { x: 4, y: 3 });
    assert_eq!(map.world_position(), WorldPosition { x: 0, y: 0, z: 0 });
    assert!(map.update_all());
    assert_eq!(map.get_actor(IVec2::new(0, 0)), None);
}

#[test]
fn terrain_decodes_from_raw_values() {
    assert_eq!(TerrainType::from_u32(0), TerrainType::Wall);
    assert_eq!(TerrainType::from_u32(1), TerrainType::Floor);
    assert_eq!(TerrainType::from_u32(2), TerrainType::Floor);
    assert_eq!(TerrainType::from_u32(3), TerrainType::Water);
    assert_eq!(TerrainType::from_u32(4), TerrainType::Wall);
}
