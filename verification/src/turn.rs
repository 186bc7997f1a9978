//! The action-resolution engine and the per-step turn loop.
//!
//! `perform_action` either executes one candidate action and reports its
//! base time cost, or reports a substitute action to retry with — never
//! both. Every substitute has a strictly smaller rank than what it
//! replaces, and `Wait` (rank zero) always succeeds, so retry chains are
//! finite. `perform_turns` runs one simulation step over explicit state
//! handed in by the caller: the schedule, the player's action queue, the
//! map, and one record per living actor.

use vstd::prelude::*;
use crate::action::{action_rank, spec_base_time, ActionQueue, ActionType, ATTACK_TIME, TURN_TIME,
    WAIT_TIME};
use crate::actor::{Actor, AIComponent, Entity};
use crate::map::GameMap;
use crate::point::{IVec2, Position};
use crate::scheduler::{first_after, spec_next_time, ScheduleEntry, TurnManager};

verus! {

/// How one simulation step ended. Each step processes at most one actor's
/// turn to completion; AI turns chain within the step until control must
/// return to the caller.
#[derive(Clone, Copy, Debug, PartialEq, Eq, Structural)]
pub enum StepResult {
    /// The player completed an action that cost this much time.
    PlayerActed(u32),
    /// The due actor is the player and no action is queued; nothing changed,
    /// and the step resumes here once input arrives.
    Suspended,
    /// The due AI actor had no preferred action; it was rescheduled at an
    /// unchanged time. A recoverable anomaly.
    Idled(Entity),
    /// The due actor cannot act at all; it was dropped from the schedule.
    Skipped(Entity),
    /// No actor awaits a turn: a fatal invariant violation, since the
    /// player must always be schedulable.
    Halted,
}

/// The first index whose record carries `e`, or -1 when none does.
pub open spec fn actor_index_of(s: Seq<Actor>, e: Entity) -> int
    decreases s.len(),
{
    if s.len() == 0 {
        -1
    } else if s[0].entity == e {
        0
    } else if actor_index_of(s.drop_first(), e) < 0 {
        -1
    } else {
        1 + actor_index_of(s.drop_first(), e)
    }
}

/// Where the exec scan stops is exactly `actor_index_of`.
proof fn lemma_actor_index_char(s: Seq<Actor>, e: Entity, i: int)
    requires
        0 <= i <= s.len(),
        forall|j: int| 0 <= j < i ==> s[j].entity != e,
        i < s.len() ==> s[i].entity == e,
    ensures
        actor_index_of(s, e) == if i == s.len() {
            -1int
        } else {
            i
        },
    decreases s.len(),
{
    if s.len() > 0 {
        let d = s.drop_first();
        if i == 0 {
        } else {
            assert forall|j: int| 0 <= j < i - 1 implies d[j].entity != e by {
                assert(d[j] == s[j + 1]);
            }
            if i - 1 < d.len() {
                assert(d[i - 1] == s[i]);
            }
            lemma_actor_index_char(d, e, i - 1);
        }
    }
}

/// The first actor record carrying `e`, if any.
fn find_actor(actors: &Vec<Actor>, e: Entity) -> (r: Option<usize>)
    ensures
        r matches Some(i) ==> actor_index_of(actors@, e) == i && i < actors@.len() && actors@[
            i as int].entity == e,
        r is None ==> actor_index_of(actors@, e) == -1,
{
    let n = actors.len();
    let mut i: usize = 0;
    while i < n
        invariant
            n == actors@.len(),
            i <= n,
            forall|j: int| 0 <= j < i ==> actors@[j].entity != e,
        decreases n - i,
    {
        if actors[i].entity == e {
            proof {
                lemma_actor_index_char(actors@, e, i as int);
            }
            return Some(i);
        }
        i += 1;
    }
    proof {
        lemma_actor_index_char(actors@, e, n as int);
    }
    None
}

/// Whether an actor has a preferred action pending.
pub open spec fn has_preferred(a: Actor) -> bool {
    a.ai matches Some(c) && c.preferred_action is Some
}

/// How many actors have a preferred action pending; each AI turn taken
/// within a step consumes one, which bounds the step.
pub open spec fn count_preferred(s: Seq<Actor>) -> nat
    decreases s.len(),
{
    if s.len() == 0 {
        0
    } else {
        (if has_preferred(s[0]) {
            1nat
        } else {
            0nat
        }) + count_preferred(s.drop_first())
    }
}

proof fn lemma_count_preferred_update(s: Seq<Actor>, i: int, v: Actor)
    requires
        0 <= i < s.len(),
    ensures
        count_preferred(s.update(i, v)) == count_preferred(s) + (if has_preferred(v) {
            1int
        } else {
            0int
        }) - (if has_preferred(s[i]) {
            1int
        } else {
            0int
        }),
    decreases s.len(),
{
    let t = s.update(i, v);
    if i == 0 {
        assert(t.drop_first() =~= s.drop_first());
    } else {
        assert(t.drop_first() =~= s.drop_first().update(i - 1, v));
        lemma_count_preferred_update(s.drop_first(), i - 1, v);
    }
}

proof fn lemma_count_preferred_pointwise(s: Seq<Actor>, t: Seq<Actor>)
    requires
        s.len() == t.len(),
        forall|k: int| 0 <= k < s.len() ==> has_preferred(s[k]) == has_preferred(#[trigger] t[k]),
    ensures
        count_preferred(s) == count_preferred(t),
    decreases s.len(),
{
    if s.len() > 0 {
        assert forall|k: int|
            0 <= k < s.drop_first().len() implies has_preferred(s.drop_first()[k])
            == has_preferred(#[trigger] t.drop_first()[k]) by {
            assert(s.drop_first()[k] == s[k + 1] && t.drop_first()[k] == t[k + 1]);
        }
        lemma_count_preferred_pointwise(s.drop_first(), t.drop_first());
    }
}

proof fn lemma_prefix_trans(a: Seq<AttackEvent>, b: Seq<AttackEvent>, c: Seq<AttackEvent>)
    requires
        a.is_prefix_of(b),
        b.is_prefix_of(c),
    ensures
        a.is_prefix_of(c),
{
    assert(a =~= c.subrange(0, a.len() as int));
}

/// Law: retry substitution terminates. A chain of actions in which each is
/// the substitute of the one before (so its rank is strictly smaller, as
/// `perform_action` guarantees of every substitute) is never longer than
/// the first rank plus one; `Wait`, at rank zero, has no substitute and
/// always resolves successfully.
pub proof fn lemma_retry_chain_bounded(chain: Seq<ActionType>)
    requires
        chain.len() > 0,
        forall|k: int|
            0 <= k < chain.len() - 1 ==> action_rank(#[trigger] chain[k + 1]) < action_rank(
                chain[k]),
    ensures
        chain.len() <= action_rank(chain[0]) + 1,
    decreases chain.len(),
{
    if chain.len() > 1 {
        let d = chain.drop_first();
        assert forall|k: int|
            0 <= k < d.len() - 1 implies action_rank(#[trigger] d[k + 1]) < action_rank(d[k]) by {
            assert(d[k] == chain[k + 1] && d[k + 1] == chain[k + 2]);
        }
        lemma_retry_chain_bounded(d);
        assert(action_rank(chain[1]) < action_rank(chain[0]));
    }
}

/// A successful attack, reported to the actor-state collaborator that owns
/// health: the core only validates range and charges time.
#[derive(Clone, Copy, Debug, PartialEq, Eq, Structural)]
pub struct AttackEvent {
    pub attacker: Entity,
    pub target: Position,
}

/// Two positions are within striking distance: at most one cell apart on
/// each axis.
pub open spec fn spec_in_attack_range(a: Position, b: Position) -> bool {
    &&& -1 <= a.x - b.x <= 1
    &&& -1 <= a.y - b.y <= 1
}

/// Whether a defender at `b` is within striking distance of an attacker
/// at `a`.
pub fn in_attack_range(a: Position, b: Position) -> (r: bool)
    ensures
        r == spec_in_attack_range(a, b),
{
    let dx = (a.x as i64) - (b.x as i64);
    let dy = (a.y as i64) - (b.y as i64);
    -1 <= dx && dx <= 1 && -1 <= dy && dy <= 1
}

/// Whether the delta target `p + d` fits the coordinate type.
pub open spec fn spec_delta_fits(p: Position, d: IVec2) -> bool {
    &&& i32::MIN <= p.x + d.x <= i32::MAX
    &&& i32::MIN <= p.y + d.y <= i32::MAX
}

/// Resolve one candidate action for the actor at `actor_index`: execute it
/// and return its base time cost, or return a substitute action of strictly
/// smaller rank to retry with, changing nothing.
///
/// A `Movement` is rejected unless its target cell passes the map's
/// permission query for this actor's capabilities and is unoccupied; the
/// substitute is `Wait`. A `MovementDelta` always substitutes the absolute
/// `Movement` it stands for (or `Wait` if the target coordinate does not
/// fit). An `Attack` out of striking range substitutes `Movement` toward
/// the same target. `Wait` always succeeds.
pub fn perform_action(
    actor_index: usize,
    action: ActionType,
    actors: &mut Vec<Actor>,
    map: &mut GameMap,
    attacks: &mut Vec<AttackEvent>,
) -> (r: Result<u32, ActionType>)
    requires
        old(map).wf(),
        actor_index < old(actors).len(),
    ensures
        final(map).wf(),
        final(actors).len() == old(actors).len(),
        r matches Err(sub) ==> action_rank(sub) < action_rank(action) && final(actors)@ == old(
            actors)@ && *final(map) == *old(map) && final(attacks)@ == old(attacks)@,
        r matches Ok(c) ==> c == spec_base_time(action),
        action is Wait ==> r == Ok::<u32, ActionType>(WAIT_TIME) && final(actors)@ == old(actors)@
            && *final(map) == *old(map) && final(attacks)@ == old(attacks)@,
        action matches ActionType::Movement(p) ==> {
            &&& (r is Ok <==> old(map).spec_can_move_through(p.x as int, p.y as int, old(
                actors)[actor_index as int].movement.0) && !old(map).spec_has_actor(p.x as int,
                p.y as int))
            &&& (r is Err ==> r == Err::<u32, ActionType>(ActionType::Wait))
            &&& (r is Ok ==> {
                let me = old(actors)[actor_index as int];
                &&& final(actors)@ == old(actors)@.update(actor_index as int, (Actor {
                    position: p,
                    ..me
                }))
                &&& final(map).spec_same_except_actors(old(map))
                &&& final(map).spec_actor_count() == old(map).spec_actor_count()
                &&& (old(map).spec_has_actor(me.position.x as int, me.position.y as int) ==> {
                    &&& final(map).spec_actor(me.position.x as int, me.position.y as int) is None
                    &&& final(map).spec_actor(p.x as int, p.y as int) == old(map).spec_actor(
                        me.position.x as int, me.position.y as int)
                })
                &&& (!old(map).spec_has_actor(me.position.x as int, me.position.y as int) ==> final(
                    map).spec_actors_grid() == old(map).spec_actors_grid())
                &&& final(attacks)@ == old(attacks)@
            })
        },
        action matches ActionType::MovementDelta(d) ==> {
            let me = old(actors)[actor_index as int];
            &&& r is Err
            &&& (spec_delta_fits(me.position, d) ==> r == Err::<u32, ActionType>(
                ActionType::Movement(IVec2 {
                    x: (me.position.x + d.x) as i32,
                    y: (me.position.y + d.y) as i32,
                })))
            &&& (!spec_delta_fits(me.position, d) ==> r == Err::<u32, ActionType>(ActionType::Wait))
        },
        action matches ActionType::Attack(p) ==> {
            let me = old(actors)[actor_index as int];
            &&& (r is Ok <==> spec_in_attack_range(me.position, p))
            &&& (r is Err ==> r == Err::<u32, ActionType>(ActionType::Movement(p)))
            &&& (r is Ok ==> final(attacks)@ == old(attacks)@.push(AttackEvent {
                attacker: me.entity,
                target: p,
            }) && final(actors)@ == old(actors)@ && *final(map) == *old(map))
        },
{
    match action {
        ActionType::Wait => Ok(WAIT_TIME),
        ActionType::Movement(p) => {
            let me = actors[actor_index];
            let passable = map.can_move_through(p, &me.movement);
            let occupied = map.has_actor(p);
            if passable && !occupied {
                proof {
                    // A passable cell is in bounds: out of bounds the
                    // terrain mask is zero and zero intersects nothing.
                    let fm = map.spec_feature_move_mask(p.x as int, p.y as int);
                    let mv = me.movement.0;
                    assert(0u8 & fm & mv == 0) by (bit_vector);
                    assert(map.spec_in_bounds(p.x as int, p.y as int));
                }
                map.move_actor(me.position, p);
                actors[actor_index].position = p;
                proof {
                    assert(actors@ =~= old(actors)@.update(actor_index as int, (Actor {
                        position: p,
                        ..old(actors)[actor_index as int]
                    })));
                }
                Ok(TURN_TIME)
            } else {
                Err(ActionType::Wait)
            }
        },
        ActionType::MovementDelta(d) => {
            let me = actors[actor_index];
            let nx = (me.position.x as i64) + (d.x as i64);
            let ny = (me.position.y as i64) + (d.y as i64);
            if (i32::MIN as i64) <= nx && nx <= (i32::MAX as i64) && (i32::MIN as i64) <= ny && ny
                <= (i32::MAX as i64) {
                Err(ActionType::Movement(IVec2 { x: nx as i32, y: ny as i32 }))
            } else {
                Err(ActionType::Wait)
            }
        },
        ActionType::Attack(p) => {
            let me = actors[actor_index];
            if in_attack_range(me.position, p) {
                attacks.push(AttackEvent { attacker: me.entity, target: p });
                Ok(ATTACK_TIME)
            } else {
                Err(ActionType::Movement(p))
            }
        },
    }
}

/// Resolve and retry until an action succeeds, starting from `first`;
/// return the base cost of the action that ultimately succeeded. Rejected
/// attempts consume no time and change nothing; each substitute's rank is
/// strictly smaller, which bounds the chain.
#[verifier::loop_isolation(false)]
fn resolve_with_retries(
    actor_index: usize,
    first: ActionType,
    actors: &mut Vec<Actor>,
    map: &mut GameMap,
    attacks: &mut Vec<AttackEvent>,
) -> (cost: u32)
    requires
        old(map).wf(),
        actor_index < old(actors).len(),
    ensures
        final(map).wf(),
        final(actors)@.len() == old(actors)@.len(),
        cost == WAIT_TIME || cost == TURN_TIME || cost == ATTACK_TIME,
        forall|k: int|
            0 <= k < old(actors)@.len() && k != actor_index ==> final(actors)@[k] == old(actors)@[
                k],
        final(actors)@[actor_index as int].entity == old(actors)@[actor_index as int].entity,
        final(actors)@[actor_index as int].is_player == old(actors)@[
            actor_index as int].is_player,
        final(actors)@[actor_index as int].ai == old(actors)@[actor_index as int].ai,
        final(actors)@[actor_index as int].movement == old(actors)@[actor_index as int].movement,
        final(map).spec_same_except_actors(old(map)),
        final(map).spec_actor_count() == old(map).spec_actor_count(),
        old(attacks)@.is_prefix_of(final(attacks)@),
    {
    let mut action = first;
    loop
        invariant
            map.wf(),
            actors@.len() == old(actors)@.len(),
            forall|k: int|
                0 <= k < old(actors)@.len() && k != actor_index ==> actors@[k] == old(actors)@[k],
            actors@[actor_index as int].entity == old(actors)@[actor_index as int].entity,
            actors@[actor_index as int].is_player == old(actors)@[actor_index as int].is_player,
            actors@[actor_index as int].ai == old(actors)@[actor_index as int].ai,
            actors@[actor_index as int].movement == old(actors)@[actor_index as int].movement,
            map.spec_same_except_actors(old(map)),
            map.spec_actor_count() == old(map).spec_actor_count(),
            old(attacks)@.is_prefix_of(attacks@),
        decreases action_rank(action),
    {
        let ghost pre_attacks = attacks@;
        match perform_action(actor_index, action, actors, map, attacks) {
            Ok(time_spent) => {
                proof {
                    lemma_prefix_trans(old(attacks)@, pre_attacks, attacks@);
                }
                return time_spent;
            },
            Err(substitute) => {
                action = substitute;
            },
        }
    }
}

/// Whether the due actor of `entries` is the player but `queue` holds
/// nothing for it: the step must suspend until input arrives.
pub open spec fn spec_due_suspend(
    entries: Seq<ScheduleEntry>,
    actors: Seq<Actor>,
    queue: Seq<ActionType>,
) -> bool {
    entries.len() > 0 && queue.len() == 0 && {
        let i = actor_index_of(actors, entries[0].actor);
        0 <= i && actors[i].is_player
    }
}

/// Whether the due actor of `entries` lacks what it needs to act at all:
/// no record, or neither player control nor AI data.
pub open spec fn spec_due_skip(entries: Seq<ScheduleEntry>, actors: Seq<Actor>) -> bool {
    entries.len() > 0 && {
        let i = actor_index_of(actors, entries[0].actor);
        i < 0 || (!actors[i].is_player && actors[i].ai is None)
    }
}

/// Whether the due actor of `entries` is an AI actor whose preferred-action
/// slot is empty.
pub open spec fn spec_due_idle(entries: Seq<ScheduleEntry>, actors: Seq<Actor>) -> bool {
    entries.len() > 0 && {
        let i = actor_index_of(actors, entries[0].actor);
        0 <= i && !actors[i].is_player && (actors[i].ai matches Some(c) && c.preferred_action
            is None)
    }
}

/// Whether the due actor of `entries` is the player with an action queued.
pub open spec fn spec_due_player_ready(
    entries: Seq<ScheduleEntry>,
    actors: Seq<Actor>,
    queue: Seq<ActionType>,
) -> bool {
    entries.len() > 0 && queue.len() > 0 && {
        let i = actor_index_of(actors, entries[0].actor);
        0 <= i && actors[i].is_player
    }
}

/// Whether the due actor of `entries` is an AI actor with a preferred
/// action pending: the one case in which the step processes the turn and
/// carries on to the next due actor.
pub open spec fn spec_due_ai_ready(entries: Seq<ScheduleEntry>, actors: Seq<Actor>) -> bool {
    entries.len() > 0 && {
        let i = actor_index_of(actors, entries[0].actor);
        0 <= i && !actors[i].is_player && (actors[i].ai matches Some(c) && c.preferred_action
            is Some)
    }
}

/// Clear every actor's preferred-action slot, forcing the AI collaborator
/// to compute fresh preferences next cycle.
fn clear_preferred_actions(actors: &mut Vec<Actor>)
    ensures
        final(actors)@.len() == old(actors)@.len(),
        forall|k: int|
            0 <= k < old(actors)@.len() ==> {
                let a = old(actors)@[k];
                let b = #[trigger] final(actors)@[k];
                &&& b.entity == a.entity
                &&& b.is_player == a.is_player
                &&& b.movement == a.movement
                &&& b.position == a.position
                &&& (a.ai is None ==> b.ai is None)
                &&& (a.ai matches Some(c) ==> b.ai == Some(AIComponent {
                    ai_type: c.ai_type,
                    preferred_action: None,
                }))
            },
        forall|k: int|
            0 <= k < final(actors)@.len() ==> ((#[trigger] final(actors)@[k].ai) matches Some(c)
                ==> c.preferred_action is None),
{
    let n = actors.len();
    let mut i: usize = 0;
    while i < n
        invariant
            n == actors@.len(),
            actors@.len() == old(actors)@.len(),
            i <= n,
            forall|k: int| i <= k < n ==> actors@[k] == old(actors)@[k],
            forall|k: int|
                0 <= k < i ==> {
                    let a = old(actors)@[k];
                    let b = #[trigger] actors@[k];
                    &&& b.entity == a.entity
                    &&& b.is_player == a.is_player
                    &&& b.movement == a.movement
                    &&& b.position == a.position
                    &&& (a.ai is None ==> b.ai is None)
                    &&& (a.ai matches Some(c) ==> b.ai == Some(AIComponent {
                        ai_type: c.ai_type,
                        preferred_action: None,
                    }))
                },
        decreases n - i,
    {
        let a = actors[i];
        if let Some(c) = a.ai {
            actors[i].ai = Some(AIComponent { ai_type: c.ai_type, preferred_action: None });
        }
        i += 1;
    }
}

/// Run one simulation step: hand the due actor its turn, resolve its action
/// against the map (retrying substitutes within the same turn), charge the
/// cost of the action that succeeded, and continue with the next due actor
/// until control must return to the caller.
///
/// The step returns without touching anything when it halts (empty
/// schedule) or suspends (player due, empty queue) — in particular a
/// suspended step leaves schedule, queue and actor positions exactly as
/// they were, and the next call resumes there. An actor that cannot act is
/// dropped from the schedule; an AI actor with nothing to do is rescheduled
/// at an unchanged time. After the player acts, every AI preferred-action
/// slot is cleared.
#[verifier::loop_isolation(false)]
#[verifier::rlimit(60)]
pub fn perform_turns(
    turn_manager: &mut TurnManager,
    action_queue: &mut ActionQueue,
    map: &mut GameMap,
    actors: &mut Vec<Actor>,
    attacks: &mut Vec<AttackEvent>,
) -> (r: StepResult)
    requires
        old(turn_manager).wf(),
        old(map).wf(),
    ensures
        final(turn_manager).wf(),
        final(map).wf(),
        final(actors)@.len() == old(actors)@.len(),
        old(attacks)@.is_prefix_of(final(attacks)@),
        final(turn_manager).spec_entries().len() == old(turn_manager).spec_entries().len() - (
        if r is Skipped {
            1int
        } else {
            0int
        }),
        old(turn_manager).spec_entries().len() == 0 <==> r is Halted,
        r is Halted ==> *final(turn_manager) == *old(turn_manager) && *final(action_queue) == *old(
            action_queue) && *final(map) == *old(map) && final(actors)@ == old(actors)@ && final(
            attacks)@ == old(attacks)@,
        spec_due_suspend(old(turn_manager).spec_entries(), old(actors)@, old(
            action_queue).spec_actions()) ==> r is Suspended && *final(turn_manager) == *old(
            turn_manager) && *final(action_queue) == *old(action_queue) && *final(map) == *old(map)
            && final(actors)@ == old(actors)@ && final(attacks)@ == old(attacks)@,
        spec_due_skip(old(turn_manager).spec_entries(), old(actors)@) ==> {
            &&& r == StepResult::Skipped(old(turn_manager).spec_entries()[0].actor)
            &&& final(turn_manager).spec_entries() == old(turn_manager).spec_entries().drop_first()
            &&& final(turn_manager).spec_time() == old(turn_manager).spec_entries()[0].time
            &&& *final(action_queue) == *old(action_queue)
            &&& *final(map) == *old(map)
            &&& final(actors)@ == old(actors)@
            &&& final(attacks)@ == old(attacks)@
        },
        spec_due_idle(old(turn_manager).spec_entries(), old(actors)@) ==> {
            let t0 = old(turn_manager).spec_entries()[0].time;
            let rest = old(turn_manager).spec_entries().drop_first();
            &&& r == StepResult::Idled(old(turn_manager).spec_entries()[0].actor)
            &&& final(turn_manager).spec_time() == t0
            &&& final(turn_manager).spec_entries() == rest.insert(first_after(rest, t0),
                (ScheduleEntry { actor: old(turn_manager).spec_entries()[0].actor, time: t0 }))
            &&& *final(action_queue) == *old(action_queue)
            &&& *final(map) == *old(map)
            &&& final(actors)@ == old(actors)@
            &&& final(attacks)@ == old(attacks)@
        },
        spec_due_player_ready(old(turn_manager).spec_entries(), old(actors)@, old(
            action_queue).spec_actions()) ==> {
            let t0 = old(turn_manager).spec_entries()[0].time;
            let rest = old(turn_manager).spec_entries().drop_first();
            &&& r matches StepResult::PlayerActed(c) && {
                let nt = spec_next_time(t0, c);
                &&& (c == WAIT_TIME || c == TURN_TIME || c == ATTACK_TIME)
                &&& final(turn_manager).spec_time() == t0
                &&& final(turn_manager).spec_entries() == rest.insert(first_after(rest, nt),
                    (ScheduleEntry {
                        actor: old(turn_manager).spec_entries()[0].actor,
                        time: nt,
                    }))
            }
            &&& forall|k: int|
                0 <= k < final(actors)@.len() ==> ((#[trigger] final(actors)@[k].ai) matches Some(
                    c) ==> c.preferred_action is None)
        },
        r is PlayerActed ==> final(action_queue).spec_actions() == old(
            action_queue).spec_actions().drop_first(),
        !(r is PlayerActed) ==> *final(action_queue) == *old(action_queue),
        // Each outcome is justified by the state the step leaves behind, so
        // a step cannot claim an outcome it did not reach.
        r is Suspended ==> spec_due_suspend(final(turn_manager).spec_entries(), final(actors)@,
            final(action_queue).spec_actions()),
        r matches StepResult::Idled(e) ==> {
            let i = actor_index_of(final(actors)@, e);
            &&& 0 <= i < final(actors)@.len()
            &&& !final(actors)@[i].is_player
            &&& (final(actors)@[i].ai matches Some(c) && c.preferred_action is None)
        },
        r matches StepResult::Skipped(e) ==> {
            let i = actor_index_of(final(actors)@, e);
            i < 0 || (!final(actors)@[i].is_player && final(actors)@[i].ai is None)
        },
        r matches StepResult::PlayerActed(c) ==> (c == WAIT_TIME || c == TURN_TIME || c
            == ATTACK_TIME),
        r is PlayerActed ==> forall|k: int|
            0 <= k < final(actors)@.len() ==> ((#[trigger] final(actors)@[k].ai) matches Some(c)
                ==> c.preferred_action is None),
{
    loop
        invariant
            turn_manager.wf(),
            map.wf(),
            actors@.len() == old(actors)@.len(),
            turn_manager.spec_entries().len() == old(turn_manager).spec_entries().len(),
            *action_queue == *old(action_queue),
            old(attacks)@.is_prefix_of(attacks@),
            (*turn_manager == *old(turn_manager) && *map == *old(map) && actors@ == old(actors)@
                && attacks@ == old(attacks)@) || spec_due_ai_ready(old(
                turn_manager).spec_entries(), old(actors)@),
        decreases count_preferred(actors@),
    {
        let due = turn_manager.due_entity();
        let entity = match due {
            None => {
                return StepResult::Halted;
            },
            Some(e) => e,
        };
        let idx = match find_actor(actors, entity) {
            None => {
                let _ = turn_manager.start_entity_turn();
                return StepResult::Skipped(entity);
            },
            Some(i) => i,
        };
        let a = actors[idx];
        if a.is_player {
            match action_queue.get_action() {
                None => {
                    return StepResult::Suspended;
                },
                Some(first) => {
                    let _ = turn_manager.start_entity_turn();
                    let cost = resolve_with_retries(idx, first, actors, map, attacks);
                    turn_manager.end_entity_turn(entity, cost);
                    clear_preferred_actions(actors);
                    return StepResult::PlayerActed(cost);
                },
            }
        } else {
            match a.ai {
                None => {
                    let _ = turn_manager.start_entity_turn();
                    return StepResult::Skipped(entity);
                },
                Some(component) => {
                    match component.preferred_action {
                        None => {
                            let _ = turn_manager.start_entity_turn();
                            turn_manager.end_entity_turn(entity, 0);
                            return StepResult::Idled(entity);
                        },
                        Some(first) => {
                            let ghost pre = actors@;
                            let ghost pre_attacks = attacks@;
                            let _ = turn_manager.start_entity_turn();
                            actors[idx].ai = Some(AIComponent {
                                ai_type: component.ai_type,
                                preferred_action: None,
                            });
                            proof {
                                lemma_count_preferred_update(pre, idx as int, actors@[idx as int]);
                            }
                            let ghost consumed = actors@;
                            let cost = resolve_with_retries(idx, first, actors, map, attacks);
                            turn_manager.end_entity_turn(entity, cost);
                            proof {
                                lemma_count_preferred_pointwise(consumed, actors@);
                                lemma_prefix_trans(old(attacks)@, pre_attacks, attacks@);
                            }
                        },
                    }
                },
            }
        }
    }
}

} // verus!
