//! Opaque actor handles and the per-actor data the turn engine reads.
//!
//! The core never dereferences actor state through a handle; it only stores
//! and compares handles. What a turn needs of an actor — whether it is the
//! player, its AI data, its movement capabilities and its position — is
//! handed to the step function as plain records, one per living actor.

use vstd::prelude::*;
use crate::action::ActionType;
use crate::masks::Movement;
use crate::point::Position;

verus! {

/// An opaque handle to an actor (or any other externally-owned object):
/// an index and a generation, so that a recycled index is distinguishable
/// from the object that used to hold it.
#[derive(Clone, Copy, Debug, PartialEq, Eq, Structural, Hash)]
pub struct Entity {
    pub index: u32,
    pub generation: u32,
}

impl Entity {
    pub fn new(index: u32, generation: u32) -> (r: Entity)
        ensures
            r.index == index,
            r.generation == generation,
    {
        Entity { index, generation }
    }
}

/// The temperament an AI actor's behavior tree runs under.
#[derive(Clone, Copy, Debug, PartialEq, Eq, Structural)]
pub enum AIType {
    Human,
    Scared,
    Aggressive,
}

/// The AI-facing data of one actor: its temperament, and the slot the
/// behavior system writes a preferred action into before each tick. The
/// core reads the slot, clears it once consumed, and clears every slot
/// whenever the player completes a turn.
#[derive(Clone, Copy, Debug, PartialEq, Eq, Structural)]
pub struct AIComponent {
    pub ai_type: AIType,
    pub preferred_action: Option<ActionType>,
}

impl AIComponent {
    pub fn new(ai_type: AIType) -> (r: AIComponent)
        ensures
            r.ai_type == ai_type,
            r.preferred_action is None,
    {
        AIComponent { ai_type, preferred_action: None }
    }

    pub fn human() -> (r: AIComponent)
        ensures
            r.ai_type == AIType::Human,
            r.preferred_action is None,
    {
        AIComponent { ai_type: AIType::Human, preferred_action: None }
    }

    pub fn scared() -> (r: AIComponent)
        ensures
            r.ai_type == AIType::Scared,
            r.preferred_action is None,
    {
        AIComponent { ai_type: AIType::Scared, preferred_action: None }
    }

    pub fn aggressive() -> (r: AIComponent)
        ensures
            r.ai_type == AIType::Aggressive,
            r.preferred_action is None,
    {
        AIComponent { ai_type: AIType::Aggressive, preferred_action: None }
    }
}

/// Everything the turn engine reads or writes of one living actor.
#[derive(Clone, Copy, Debug, PartialEq, Eq, Structural)]
pub struct Actor {
    /// The handle the actor-lifecycle collaborator knows this actor by.
    pub entity: Entity,
    /// Whether this actor is driven by player input.
    pub is_player: bool,
    /// The AI data, absent for actors that cannot act on their own.
    pub ai: Option<AIComponent>,
    /// The actor's movement capability mask.
    pub movement: Movement,
    /// Where the actor stands.
    pub position: Position,
}

} // verus!
