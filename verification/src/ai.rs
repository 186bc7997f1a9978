//! The attack behavior's decision logic.
//!
//! The behavior system runs per-actor protocol states; this module decides,
//! from one actor's protocol state, pending preference, and the two
//! positions involved, what the next state and preferred action are and
//! what should happen to the actor's target visualizer. The caller applies
//! the decision to its own storage and visuals.

use vstd::prelude::*;
use crate::action::ActionType;
use crate::point::Position;
use crate::turn::{in_attack_range, spec_in_attack_range};

verus! {

/// Marker for actors whose current behavior is attacking; storage for
/// multi-turn attacks would live here.
#[derive(Clone, Copy, Debug, Default, PartialEq, Eq, Structural)]
pub struct AttackActor;

/// The protocol states a behavior action moves through.
#[derive(Clone, Copy, Debug, PartialEq, Eq, Structural)]
pub enum ActionState {
    Init,
    Requested,
    Executing,
    Cancelled,
    Success,
    Failure,
}

/// What the caller must apply after one attack decision.
#[derive(Clone, Copy, Debug, PartialEq, Eq, Structural)]
pub struct AttackDecision {
    /// The protocol state to store back.
    pub state: ActionState,
    /// The preferred action to store back.
    pub preferred_action: Option<ActionType>,
    /// Clear the actor's target visualizer.
    pub clear_visualizer: bool,
    /// Point the target visualizer at the target.
    pub mark_target: bool,
}

/// What `attack_action` decides; cancellation clears the in-progress
/// preference and the visual target state, a terminal or already-preferring
/// actor is left alone, and an engaged actor attacks in range or moves
/// toward the player otherwise.
pub open spec fn spec_attack_action(
    state: ActionState,
    preferred_action: Option<ActionType>,
    ai_position: Position,
    player_position: Position,
) -> AttackDecision {
    if preferred_action is Some {
        AttackDecision { state, preferred_action, clear_visualizer: false, mark_target: false }
    } else {
        match state {
            ActionState::Success | ActionState::Failure => AttackDecision {
                state,
                preferred_action,
                clear_visualizer: false,
                mark_target: false,
            },
            ActionState::Cancelled => AttackDecision {
                state: ActionState::Failure,
                preferred_action: None,
                clear_visualizer: true,
                mark_target: false,
            },
            _ => {
                let mark = state is Init || state is Requested;
                if spec_in_attack_range(ai_position, player_position) {
                    AttackDecision {
                        state: ActionState::Executing,
                        preferred_action: Some(ActionType::Attack(player_position)),
                        clear_visualizer: false,
                        mark_target: mark,
                    }
                } else {
                    AttackDecision {
                        state: ActionState::Failure,
                        preferred_action: Some(ActionType::Movement(player_position)),
                        clear_visualizer: false,
                        mark_target: mark,
                    }
                }
            },
        }
    }
}

/// Decide one actor's attack step. An actor that already has a preferred
/// action, or whose state is terminal, is left alone. A cancelled attack
/// fails and clears its target visuals. Otherwise the actor engages: within
/// striking range it attacks the player's position, else it fails this
/// behavior and prefers moving toward the player; a freshly engaged actor
/// (`Init` or `Requested`) additionally marks its target.
pub fn attack_action(
    state: ActionState,
    preferred_action: Option<ActionType>,
    ai_position: Position,
    player_position: Position,
) -> (r: AttackDecision)
    ensures
        r == spec_attack_action(state, preferred_action, ai_position, player_position),
{
    if preferred_action.is_some() {
        return AttackDecision {
            state,
            preferred_action,
            clear_visualizer: false,
            mark_target: false,
        };
    }
    match state {
        ActionState::Success | ActionState::Failure => AttackDecision {
            state,
            preferred_action,
            clear_visualizer: false,
            mark_target: false,
        },
        ActionState::Cancelled => AttackDecision {
            state: ActionState::Failure,
            preferred_action: None,
            clear_visualizer: true,
            mark_target: false,
        },
        _ => {
            let mark = match state {
                ActionState::Init | ActionState::Requested => true,
                _ => false,
            };
            if in_attack_range(ai_position, player_position) {
                AttackDecision {
                    state: ActionState::Executing,
                    preferred_action: Some(ActionType::Attack(player_position)),
                    clear_visualizer: false,
                    mark_target: mark,
                }
            } else {
                AttackDecision {
                    state: ActionState::Failure,
                    preferred_action: Some(ActionType::Movement(player_position)),
                    clear_visualizer: false,
                    mark_target: mark,
                }
            }
        },
    }
}

} // verus!
