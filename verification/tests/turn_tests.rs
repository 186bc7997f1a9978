use atrl_core::action::{ActionQueue, ActionType, ATTACK_TIME, TURN_TIME, WAIT_TIME};
use atrl_core::actor::{AIComponent, AIType, Actor, Entity};
use atrl_core::map::{GameMap, MapPassThroughData};
use atrl_core::map_gen::MapGenData;
use atrl_core::masks::{Movement, MOVEMENT_WALK};
use atrl_core::point::{IVec2, UVec2, WorldPosition};
use atrl_core::random::Random;
use atrl_core::scheduler::TurnManager;
use atrl_core::terrain::TerrainType;
use atrl_core::turn::{in_attack_range, perform_action, perform_turns, AttackEvent, StepResult};

fn pass_data() -> MapPassThroughData {
    MapPassThroughData {
        world_position: WorldPosition { x: 0, y: 0, z: 0 },
        random: Random::new(7),
        terrain_tileset_id: 0,
        feature_tileset_id: 0,
        item_tileset_id: 0,
        terrain_layer_entity: Entity::new(100, 0),
        feature_layer_entity: Entity::new(101, 0),
        item_layer_entity: Entity::new(102, 0),
    }
}

fn open_map(width: u32, height: u32) -> GameMap {
    let data = MapGenData::new(
        UVec2 { x: width, y: height },
        Random::new(1),
        pass_data(),
    );
    let mut map = GameMap::from_gen_data(data);
    for y in 0..height {
        for x in 0..width {
            map.set_terrain_at(IVec2::new(x as i32, y as i32), TerrainType::Floor);
        }
    }
    map
}

fn player(entity: Entity, x: i32, y: i32) -> Actor {
    Actor {
        entity,
        is_player: true,
        ai: None,
        movement: Movement(MOVEMENT_WALK),
        position: IVec2::new(x, y),
    }
}

fn ai_actor(entity: Entity, x: i32, y: i32, preferred: Option<ActionType>) -> Actor {
    let mut component = AIComponent::new(AIType::Aggressive);
    component.preferred_action = preferred;
    Actor {
        entity,
        is_player: false,
        ai: Some(component),
        movement: Movement(MOVEMENT_WALK),
        position: IVec2::new(x, y),
    }
}

#[test]
fn scheduler_orders_by_time_then_insertion() {
    // Two actors at time 0 and 5: the earlier one is due first. After it
    // acts for 10 (new time 10) and the other twice for 3 and 10, selection
    // goes A, B, B, A.
    let a = Entity::new(1, 0);
    let b = Entity::new(2, 0);
    let mut tm = TurnManager::new();
    tm.add_entity(a);
    tm.add_entity(b);
    // Advance B to time 5.
    assert_eq!(tm.start_entity_turn(), Some(a));
    assert_eq!(tm.start_entity_turn(), Some(b));
    tm.end_entity_turn(b, 5);
    tm.add_entity(a); // A back at time 0.

    assert_eq!(tm.start_entity_turn(), Some(a));
    tm.end_entity_turn(a, 10); // A now at 10.
    assert_eq!(tm.start_entity_turn(), Some(b)); // 5 < 10
    tm.end_entity_turn(b, 3); // B now at 8.
    assert_eq!(tm.start_entity_turn(), Some(b)); // 8 < 10
    tm.end_entity_turn(b, 10); // B now at 18.
    assert_eq!(tm.start_entity_turn(), Some(a)); // 10 < 18
}

#[test]
fn scheduler_breaks_ties_by_insertion_order() {
    let a = Entity::new(1, 0);
    let b = Entity::new(2, 0);
    let mut tm = TurnManager::new();
    tm.add_entity(a);
    tm.add_entity(b);
    assert_eq!(tm.due_entity(), Some(a));
    assert_eq!(tm.start_entity_turn(), Some(a));
    // Re-inserting at an unchanged time goes behind the tie.
    tm.end_entity_turn(a, 0);
    assert_eq!(tm.start_entity_turn(), Some(b));
    assert_eq!(tm.start_entity_turn(), Some(a));
    assert_eq!(tm.start_entity_turn(), None);
}

#[test]
fn scheduler_remove_entity() {
    let a = Entity::new(1, 0);
    let b = Entity::new(2, 0);
    let mut tm = TurnManager::new();
    tm.add_entity(a);
    tm.add_entity(b);
    tm.remove_entity(a);
    assert_eq!(tm.len(), 1);
    assert_eq!(tm.start_entity_turn(), Some(b));
    assert_eq!(tm.start_entity_turn(), None);
}

#[test]
fn wait_always_resolves_at_base_cost() {
    let mut map = open_map(2, 2);
    let mut actors = vec![player(Entity::new(1, 0), 0, 0)];
    let mut attacks: Vec<AttackEvent> = Vec::new();
    let r = perform_action(0, ActionType::Wait, &mut actors, &mut map, &mut attacks);
    assert_eq!(r, Ok(WAIT_TIME));
    assert!(attacks.is_empty());
}

#[test]
fn movement_executes_or_substitutes_wait() {
    let mut map = open_map(3, 1);
    let e = Entity::new(1, 0);
    map.add_actor(IVec2::new(0, 0), e);
    let mut actors = vec![player(e, 0, 0)];
    let mut attacks: Vec<AttackEvent> = Vec::new();
    // A free, passable neighbour: the move happens and costs its base time.
    let r = perform_action(
        0,
        ActionType::Movement(IVec2::new(1, 0)),
        &mut actors,
        &mut map,
        &mut attacks,
    );
    assert_eq!(r, Ok(TURN_TIME));
    assert_eq!(actors[0].position, IVec2::new(1, 0));
    assert_eq!(map.get_actor(IVec2::new(0, 0)), None);
    assert_eq!(map.get_actor(IVec2::new(1, 0)), Some(e));
    // Out of bounds is rejected with a `Wait` substitute, changing nothing.
    let r = perform_action(
        0,
        ActionType::Movement(IVec2::new(3, 0)),
        &mut actors,
        &mut map,
        &mut attacks,
    );
    assert_eq!(r, Err(ActionType::Wait));
    assert_eq!(actors[0].position, IVec2::new(1, 0));
    // An occupied target is rejected too.
    let other = Entity::new(2, 0);
    map.add_actor(IVec2::new(2, 0), other);
    let r = perform_action(
        0,
        ActionType::Movement(IVec2::new(2, 0)),
        &mut actors,
        &mut map,
        &mut attacks,
    );
    assert_eq!(r, Err(ActionType::Wait));
}

#[test]
fn movement_delta_substitutes_absolute_movement() {
    let mut map = open_map(3, 3);
    let mut actors = vec![player(Entity::new(1, 0), 1, 1)];
    let mut attacks: Vec<AttackEvent> = Vec::new();
    let r = perform_action(
        0,
        ActionType::MovementDelta(IVec2::new(1, -1)),
        &mut actors,
        &mut map,
        &mut attacks,
    );
    assert_eq!(r, Err(ActionType::Movement(IVec2::new(2, 0))));
}

#[test]
fn attack_in_range_or_substitute_movement() {
    let mut map = open_map(5, 5);
    let e = Entity::new(1, 0);
    let mut actors = vec![ai_actor(e, 1, 1, None)];
    let mut attacks: Vec<AttackEvent> = Vec::new();
    // Adjacent (diagonal) target: the attack lands and is reported.
    let r = perform_action(
        0,
        ActionType::Attack(IVec2::new(2, 2)),
        &mut actors,
        &mut map,
        &mut attacks,
    );
    assert_eq!(r, Ok(ATTACK_TIME));
    assert_eq!(
        attacks.as_slice(),
        &[AttackEvent { attacker: e, target: IVec2::new(2, 2) }]
    );
    // A distant target substitutes movement toward it.
    let r = perform_action(
        0,
        ActionType::Attack(IVec2::new(4, 4)),
        &mut actors,
        &mut map,
        &mut attacks,
    );
    assert_eq!(r, Err(ActionType::Movement(IVec2::new(4, 4))));
    assert_eq!(attacks.len(), 1);
}

#[test]
fn in_attack_range_is_one_step_each_axis() {
    assert!(in_attack_range(IVec2::new(0, 0), IVec2::new(1, 1)));
    assert!(in_attack_range(IVec2::new(0, 0), IVec2::new(0, 0)));
    assert!(in_attack_range(IVec2::new(0, 0), IVec2::new(-1, 0)));
    assert!(!in_attack_range(IVec2::new(0, 0), IVec2::new(2, 0)));
    assert!(!in_attack_range(IVec2::new(0, 0), IVec2::new(0, -2)));
}

#[test]
fn step_halts_on_an_empty_schedule() {
    let mut tm = TurnManager::new();
    let mut queue = ActionQueue::new();
    let mut map = open_map(2, 2);
    let mut actors: Vec<Actor> = Vec::new();
    let mut attacks: Vec<AttackEvent> = Vec::new();
    let r = perform_turns(&mut tm, &mut queue, &mut map, &mut actors, &mut attacks);
    assert_eq!(r, StepResult::Halted);
}

#[test]
fn step_suspends_without_any_change() {
    // The due actor is the player and nothing is queued: the schedule, the
    // queue and all actor positions stay exactly as they were.
    let p = Entity::new(1, 0);
    let n = Entity::new(2, 0);
    let mut tm = TurnManager::new();
    tm.add_entity(p);
    tm.add_entity(n);
    let mut queue = ActionQueue::new();
    let mut map = open_map(3, 1);
    map.add_actor(IVec2::new(0, 0), p);
    map.add_actor(IVec2::new(1, 0), n);
    let mut actors = vec![
        player(p, 0, 0),
        ai_actor(n, 1, 0, Some(ActionType::Wait)),
    ];
    let before = actors.clone();
    let mut attacks: Vec<AttackEvent> = Vec::new();

    let r = perform_turns(&mut tm, &mut queue, &mut map, &mut actors, &mut attacks);

    assert_eq!(r, StepResult::Suspended);
    assert_eq!(tm.len(), 2);
    assert_eq!(tm.due_entity(), Some(p));
    assert!(queue.is_empty());
    assert_eq!(actors, before);
    assert_eq!(map.get_actor(IVec2::new(0, 0)), Some(p));
    assert_eq!(map.get_actor(IVec2::new(1, 0)), Some(n));
    assert!(attacks.is_empty());
    // The next call continues exactly where this one left off.
    let r = perform_turns(&mut tm, &mut queue, &mut map, &mut actors, &mut attacks);
    assert_eq!(r, StepResult::Suspended);
}

#[test]
fn step_runs_a_player_turn_and_clears_preferences() {
    let p = Entity::new(1, 0);
    let n = Entity::new(2, 0);
    let mut tm = TurnManager::new();
    tm.add_entity(p);
    let mut queue = ActionQueue::new();
    queue.add_action(ActionType::Movement(IVec2::new(1, 0)));
    let mut map = open_map(3, 1);
    map.add_actor(IVec2::new(0, 0), p);
    let mut actors = vec![
        player(p, 0, 0),
        ai_actor(n, 2, 0, Some(ActionType::Wait)),
    ];
    let mut attacks: Vec<AttackEvent> = Vec::new();

    let r = perform_turns(&mut tm, &mut queue, &mut map, &mut actors, &mut attacks);

    assert_eq!(r, StepResult::PlayerActed(TURN_TIME));
    assert!(queue.is_empty());
    assert_eq!(actors[0].position, IVec2::new(1, 0));
    assert_eq!(map.get_actor(IVec2::new(1, 0)), Some(p));
    // Completing a player turn clears every AI preference.
    assert_eq!(actors[1].ai.unwrap().preferred_action, None);
}

#[test]
fn step_retries_until_wait_succeeds() {
    // The player's queued attack is out of range, which substitutes a move;
    // the move is blocked by a wall, which substitutes a wait; the wait
    // succeeds. One turn, one cost, within a single step.
    let p = Entity::new(1, 0);
    let data = MapGenData::new(UVec2 { x: 4, y: 1 }, Random::new(1), pass_data());
    let mut map = GameMap::from_gen_data(data); // all walls
    map.add_actor(IVec2::new(0, 0), p);
    let mut tm = TurnManager::new();
    tm.add_entity(p);
    let mut queue = ActionQueue::new();
    queue.add_action(ActionType::Attack(IVec2::new(3, 0)));
    let mut actors = vec![player(p, 0, 0)];
    let mut attacks: Vec<AttackEvent> = Vec::new();

    let r = perform_turns(&mut tm, &mut queue, &mut map, &mut actors, &mut attacks);

    assert_eq!(r, StepResult::PlayerActed(WAIT_TIME));
    assert_eq!(actors[0].position, IVec2::new(0, 0));
    assert!(attacks.is_empty());
}

#[test]
fn step_chains_ai_turns_until_control_returns() {
    // Two AI actors with preferences and a player behind them: both AI act
    // (their preferences are consumed), then the player suspends the step.
    let p = Entity::new(1, 0);
    let m1 = Entity::new(2, 0);
    let m2 = Entity::new(3, 0);
    let mut tm = TurnManager::new();
    tm.add_entity(m1);
    tm.add_entity(m2);
    let mut queue = ActionQueue::new();
    let mut map = open_map(5, 1);
    map.add_actor(IVec2::new(0, 0), p);
    map.add_actor(IVec2::new(2, 0), m1);
    map.add_actor(IVec2::new(4, 0), m2);
    let mut actors = vec![
        player(p, 0, 0),
        ai_actor(m1, 2, 0, Some(ActionType::Movement(IVec2::new(3, 0)))),
        ai_actor(m2, 4, 0, Some(ActionType::Wait)),
    ];
    tm.add_entity(p);
    let mut attacks: Vec<AttackEvent> = Vec::new();

    let r = perform_turns(&mut tm, &mut queue, &mut map, &mut actors, &mut attacks);

    assert_eq!(r, StepResult::Suspended);
    assert_eq!(actors[1].position, IVec2::new(3, 0));
    assert_eq!(map.get_actor(IVec2::new(3, 0)), Some(m1));
    assert_eq!(actors[1].ai.unwrap().preferred_action, None);
    assert_eq!(actors[2].ai.unwrap().preferred_action, None);
    assert_eq!(tm.len(), 3);
}

#[test]
fn step_idles_an_ai_actor_with_nothing_to_do() {
    let m = Entity::new(2, 0);
    let mut tm = TurnManager::new();
    tm.add_entity(m);
    let mut queue = ActionQueue::new();
    let mut map = open_map(2, 1);
    let mut actors = vec![ai_actor(m, 0, 0, None)];
    let mut attacks: Vec<AttackEvent> = Vec::new();
    let r = perform_turns(&mut tm, &mut queue, &mut map, &mut actors, &mut attacks);
    assert_eq!(r, StepResult::Idled(m));
    // Rescheduled at an unchanged time: still due, still schedulable.
    assert_eq!(tm.len(), 1);
    assert_eq!(tm.due_entity(), Some(m));
}

#[test]
fn step_skips_an_actor_that_cannot_act() {
    let ghost_actor = Entity::new(9, 9);
    let mut tm = TurnManager::new();
    tm.add_entity(ghost_actor);
    let mut queue = ActionQueue::new();
    let mut map = open_map(2, 1);
    let mut actors: Vec<Actor> = Vec::new();
    let mut attacks: Vec<AttackEvent> = Vec::new();
    let r = perform_turns(&mut tm, &mut queue, &mut map, &mut actors, &mut attacks);
    // Dropped from the schedule without being rescheduled.
    assert_eq!(r, StepResult::Skipped(ghost_actor));
    assert_eq!(tm.len(), 0);
}

#[test]
fn action_queue_is_first_in_first_out() {
    let mut queue = ActionQueue::new();
    assert!(queue.is_empty());
    assert_eq!(queue.get_action(), None);
    queue.add_action(ActionType::Wait);
    queue.add_action(ActionType::Movement(IVec2::new(1, 0)));
    assert_eq!(queue.get_action(), Some(ActionType::Wait));
    assert_eq!(queue.get_action(), Some(ActionType::Movement(IVec2::new(1, 0))));
    assert_eq!(queue.get_action(), None);
}

#[test]
fn base_time_costs() {
    assert_eq!(ActionType::Wait.get_base_time_to_perform(), WAIT_TIME);
    assert_eq!(
        ActionType::Attack(IVec2::new(0, 0)).get_base_time_to_perform(),
        ATTACK_TIME
    );
    assert_eq!(
        ActionType::Movement(IVec2::new(0, 0)).get_base_time_to_perform(),
        TURN_TIME
    );
    assert_eq!(
        ActionType::MovementDelta(IVec2::new(0, 1)).get_base_time_to_perform(),
        TURN_TIME
    );
}

#[test]
fn scheduler_charges_exactly_the_resolved_cost() {
    // An actor processed with a successful action of positive cost is
    // rescheduled at its prior time plus that cost: after the player's
    // 1000-cost wait, a fresh actor added at the current time precedes it.
    let p = Entity::new(1, 0);
    let late = Entity::new(2, 0);
    let mut tm = TurnManager::new();
    tm.add_entity(p);
    let mut queue = ActionQueue::new();
    queue.add_action(ActionType::Wait);
    let mut map = open_map(2, 1);
    map.add_actor(IVec2::new(0, 0), p);
    let mut actors = vec![player(p, 0, 0)];
    let mut attacks: Vec<AttackEvent> = Vec::new();
    let r = perform_turns(&mut tm, &mut queue, &mut map, &mut actors, &mut attacks);
    assert_eq!(r, StepResult::PlayerActed(WAIT_TIME));
    // The player now sits at time 1000; an actor added at the clock (the
    // just-finished turn's time, 0) comes up first.
    tm.add_entity(late);
    assert_eq!(tm.start_entity_turn(), Some(late));
    assert_eq!(tm.start_entity_turn(), Some(p));
}
