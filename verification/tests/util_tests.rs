use atrl_core::actor::{AIComponent, AIType, Entity};
use atrl_core::grid::Grid;
use atrl_core::tile_map::{TileMap, TileType};
use atrl_core::ai::{attack_action, ActionState, AttackDecision};
use atrl_core::action::ActionType;
use atrl_core::canvas::Canvas;
use atrl_core::game_state::{AssetLoadState, ConstructState, GameState, UiState};
use atrl_core::map::MapPassThroughData;
use atrl_core::map_manager::{AtrlError, GameContext, MapManager, GRID_HEIGHT, GRID_WIDTH};
use atrl_core::masks::{MovementType, VisionType, MOVEMENT_ANY, MOVEMENT_WALK, VISION_ANY,
    VISION_BLIND, VISION_NOT_BLIND};
use atrl_core::point::{IVec2, Point2d, PointIterRowMajor, UVec2, WorldPosition};
use atrl_core::progress::{check_loaded_assets, Progress};
use atrl_core::random::Random;
use atrl_core::range::{get_range_bounds, map_range, map_range_u32, RangeBound};
use atrl_core::timer::{PlayerTimer, Timer, REPEAT_DURATION_MS};

#[test]
fn capability_masks_and_composites() {
    assert_eq!(MovementType::Walk.as_u8(), 1);
    assert_eq!(MovementType::Swim.as_u8(), 2);
    assert_eq!(MovementType::Fly.as_u8(), 4);
    assert_eq!(MOVEMENT_ANY, 255);
    assert_eq!(VisionType::Blind.as_u8(), VISION_BLIND);
    assert_eq!(VisionType::Normal.as_u8(), 2);
    assert_eq!(VisionType::Infrared.as_u8(), 4);
    assert_eq!(VisionType::XRay.as_u8(), 8);
    // "Everything but blindness" is the complement of the blind bit.
    assert_eq!(VISION_NOT_BLIND, !VISION_BLIND);
    assert_eq!(VISION_NOT_BLIND, 254);
    assert_eq!(VISION_ANY, 255);
}

#[test]
fn ai_component_constructors() {
    assert_eq!(AIComponent::human().ai_type, AIType::Human);
    assert_eq!(AIComponent::scared().ai_type, AIType::Scared);
    assert_eq!(AIComponent::aggressive().ai_type, AIType::Aggressive);
    assert_eq!(AIComponent::new(AIType::Human).preferred_action, None);
}

#[test]
fn attack_action_decisions() {
    let ai = IVec2::new(0, 0);
    let near = IVec2::new(1, 1);
    let far = IVec2::new(5, 5);
    // An actor that already prefers something is left alone.
    let d = attack_action(ActionState::Executing, Some(ActionType::Wait), ai, near);
    assert_eq!(d.preferred_action, Some(ActionType::Wait));
    assert_eq!(d.state, ActionState::Executing);
    // Terminal states are left alone.
    let d = attack_action(ActionState::Success, None, ai, near);
    assert_eq!(d.state, ActionState::Success);
    assert_eq!(d.preferred_action, None);
    // Cancellation fails the behavior and clears the target visuals.
    let d = attack_action(ActionState::Cancelled, None, ai, near);
    assert_eq!(
        d,
        AttackDecision {
            state: ActionState::Failure,
            preferred_action: None,
            clear_visualizer: true,
            mark_target: false,
        }
    );
    // A fresh engagement in range attacks and marks its target.
    let d = attack_action(ActionState::Init, None, ai, near);
    assert_eq!(
        d,
        AttackDecision {
            state: ActionState::Executing,
            preferred_action: Some(ActionType::Attack(near)),
            clear_visualizer: false,
            mark_target: true,
        }
    );
    // Out of range the behavior fails and prefers closing the distance.
    let d = attack_action(ActionState::Executing, None, ai, far);
    assert_eq!(
        d,
        AttackDecision {
            state: ActionState::Failure,
            preferred_action: Some(ActionType::Movement(far)),
            clear_visualizer: false,
            mark_target: false,
        }
    );
}

#[test]
fn game_state_flow() {
    let mut s = GameState::Initializing;
    let mut seen = Vec::new();
    while let Some(n) = s.next() {
        seen.push(n);
        s = n;
        if seen.len() > 10 {
            break;
        }
    }
    assert_eq!(
        seen,
        vec![
            GameState::AssetLoad(AssetLoadState::Load),
            GameState::Ui(UiState::MainMenu),
            GameState::Construct(ConstructState::Construct),
            GameState::Construct(ConstructState::Setup),
            GameState::InGame,
            GameState::Ui(UiState::MainMenu),
            GameState::Construct(ConstructState::Construct),
            GameState::Construct(ConstructState::Setup),
            GameState::InGame,
            GameState::Ui(UiState::MainMenu),
            GameState::Construct(ConstructState::Construct),
        ]
    );
    assert_eq!(GameState::AssetLoad(AssetLoadState::LoadFailure).next(), Some(GameState::Quit));
    assert_eq!(GameState::Quit.next(), None);
    assert_eq!(GameState::Dead.next(), Some(GameState::Ui(UiState::MainMenu)));
}

#[test]
fn asset_loading_gate() {
    // No counter: never done.
    assert!(!check_loaded_assets(true, None));
    // Work outstanding: not done even after the splash.
    assert!(!check_loaded_assets(true, Some(Progress { done: 3, total: 10 })));
    // Complete but the splash still runs: not yet.
    assert!(!check_loaded_assets(false, Some(Progress { done: 10, total: 10 })));
    // Complete and splashed: done.
    assert!(check_loaded_assets(true, Some(Progress { done: 10, total: 10 })));
    // A counter that never received work counts as complete.
    assert!(check_loaded_assets(true, Some(Progress { done: 0, total: 0 })));
}

#[test]
fn timers_tick_finish_and_reset() {
    let mut t = Timer::new(100);
    assert!(!t.finished());
    t.tick(60);
    assert!(!t.finished());
    t.tick(60);
    assert!(t.finished());
    t.reset();
    assert!(!t.finished());
    let p = PlayerTimer::default();
    assert_eq!(p.0.duration_ms, REPEAT_DURATION_MS);
    assert!(!p.0.finished());
}

#[test]
fn range_mapping() {
    assert_eq!(map_range(5, (0, 10), (0, 100)), 50);
    assert_eq!(map_range(10, (0, 10), (100, 200)), 200);
    assert_eq!(map_range_u32(5, (0, 10), (0, 100)), 50);
    assert_eq!(map_range_u32(0, (0, 10), (40, 60)), 40);
    assert_eq!(map_range_u32(u32::MAX, (0, u32::MAX), (0, 7)), 7);
    // Endpoints map exactly, descending ranges work, and a value outside
    // the source range extrapolates.
    assert_eq!(map_range_u32(5, (10, 0), (0, 100)), 50);
    assert_eq!(map_range_u32(10, (10, 0), (0, 100)), 0);
    assert_eq!(map_range_u32(0, (10, 0), (0, 100)), 100);
    assert_eq!(map_range(15, (0, 10), (0, 100)), 150);
    assert_eq!(map_range(-5, (0, 10), (0, 100)), -50);
}

#[test]
fn range_bounds_resolution() {
    // An excluded start stands for itself; any other start falls back.
    assert_eq!(
        get_range_bounds((RangeBound::Excluded(3), RangeBound::Included(9)), 0, 100),
        (3, 9)
    );
    assert_eq!(
        get_range_bounds((RangeBound::Included(3), RangeBound::Excluded(9)), 0, 100),
        (0, 9)
    );
    assert_eq!(
        get_range_bounds::<i32>((RangeBound::Unbounded, RangeBound::Unbounded), 0, 100),
        (0, 100)
    );
}

#[test]
fn canvas_put_and_get() {
    let mut canvas = Canvas::new(UVec2 { x: 10, y: 5 });
    canvas.put(IVec2::new(1, 1), '*');
    canvas.put(IVec2::new(2, 2), '*');
    canvas.put(IVec2::new(2, 2), '#');
    assert_eq!(canvas.get(IVec2::new(1, 1)), Some('*'));
    assert_eq!(canvas.get(IVec2::new(2, 2)), Some('#'));
    assert_eq!(canvas.get(IVec2::new(0, 0)), Some(' '));
    assert_eq!(canvas.get(IVec2::new(10, 0)), None);
    assert_eq!(canvas.size(), UVec2 { x: 10, y: 5 });
}

#[test]
fn point_iteration_is_row_major() {
    let mut it = PointIterRowMajor::new(UVec2 { x: 2, y: 2 });
    assert_eq!(it.next(), Some(IVec2::new(0, 0)));
    assert_eq!(it.next(), Some(IVec2::new(1, 0)));
    assert_eq!(it.next(), Some(IVec2::new(0, 1)));
    assert_eq!(it.next(), Some(IVec2::new(1, 1)));
    assert_eq!(it.next(), None);
    assert_eq!(it.next(), None);
    let mut empty = PointIterRowMajor::new(UVec2 { x: 0, y: 3 });
    assert_eq!(empty.next(), None);
}

#[test]
fn point_conversions() {
    let p = IVec2::new(3, 4);
    assert_eq!(p.x(), 3);
    assert_eq!(p.y(), 4);
    assert_eq!(p.as_array(), [3, 4]);
    assert_eq!(p.as_uvec2(), UVec2 { x: 3, y: 4 });
    assert_eq!(p.as_index(10), 43);
    assert!(p.is_valid(UVec2 { x: 5, y: 5 }));
    assert!(!p.is_valid(UVec2 { x: 4, y: 4 }));
    assert!(!IVec2::new(-1, 0).is_valid(UVec2 { x: 4, y: 4 }));
    let u = UVec2 { x: 7, y: 2 };
    assert_eq!(u.as_ivec2(), IVec2::new(7, 2));
}

#[test]
fn random_draws_stay_in_range() {
    let mut rng = Random::new(42);
    for _ in 0..100 {
        let v = rng.range_u32(10, 20);
        assert!((10..20).contains(&v));
    }
    // The stream is deterministic for a seed.
    let mut a = Random::new(5);
    let mut b = Random::new(5);
    for _ in 0..10 {
        assert_eq!(a.next_u32(), b.next_u32());
    }
}

#[test]
fn map_manager_validates_caches_and_admits() {
    let ctx = GameContext {
        world_min: WorldPosition { x: -1, y: -1, z: 0 },
        world_max: WorldPosition { x: 1, y: 1, z: 0 },
    };
    let mut manager = MapManager::new();
    let outside = WorldPosition { x: 2, y: 0, z: 0 };
    assert_eq!(
        manager.get_or_generate(&ctx, outside, Entity::new(50, 0)),
        Err(AtrlError::InvalidWorldPosition(2, 0, 0))
    );
    let home = WorldPosition { x: 0, y: 0, z: 0 };
    let first = Entity::new(51, 0);
    assert_eq!(manager.get_or_generate(&ctx, home, first), Ok(first));
    // A second ask for the same position returns the cached handle, not the
    // fresh one.
    assert_eq!(manager.get_or_generate(&ctx, home, Entity::new(52, 0)), Ok(first));
}

#[test]
fn tile_types_and_tile_maps() {
    assert!(TileType::Wall.is_wall());
    assert!(!TileType::Wall.is_floor());
    assert!(!TileType::Wall.is_walkable());
    assert!(TileType::Floor.is_floor());
    assert!(TileType::Floor.is_walkable());
    assert!(TileType::DownStairs.is_walkable());
    assert!(!TileType::DownStairs.is_floor());
    assert_eq!(TileType::default(), TileType::Wall);

    let blank = TileMap::new(UVec2 { x: 2, y: 2 });
    assert_eq!(blank.size(), UVec2 { x: 2, y: 2 });
    assert_eq!(blank.tile_at(IVec2::new(1, 1)), Some(TileType::Wall));
    assert_eq!(blank.tile_at(IVec2::new(2, 0)), None);

    let mut tiles: Grid<TileType> = Grid::new_fill(UVec2 { x: 2, y: 1 }, TileType::Wall);
    tiles.set(IVec2::new(1, 0), TileType::Floor);
    let map = TileMap::new_with_tiles(UVec2 { x: 2, y: 1 }, tiles);
    assert_eq!(map.tile_at(IVec2::new(0, 0)), Some(TileType::Wall));
    assert_eq!(map.tile_at(IVec2::new(1, 0)), Some(TileType::Floor));
}

#[test]
fn generated_maps_have_the_standard_size() {
    let wp = WorldPosition { x: 1, y: 0, z: 0 };
    let pass = MapPassThroughData {
        world_position: WorldPosition { x: 0, y: 0, z: 0 },
        random: Random::new(3),
        terrain_tileset_id: 0,
        feature_tileset_id: 0,
        item_tileset_id: 0,
        terrain_layer_entity: Entity::new(100, 0),
        feature_layer_entity: Entity::new(101, 0),
        item_layer_entity: Entity::new(102, 0),
    };
    let map = MapManager::generate_map(9, wp, pass);
    assert_eq!(map.size(), UVec2 { x: GRID_WIDTH, y: GRID_HEIGHT });
    assert_eq!(map.world_position(), wp);
}
