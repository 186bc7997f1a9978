//! The action model: what an actor can do and what it costs.
//!
//! Each action variant carries a fixed base time cost; the scheduler charges
//! the cost of the action that ultimately succeeds. The `ActionQueue`
//! buffers externally-submitted player actions first-in first-out.

use vstd::prelude::*;
use crate::point::{IVec2, Position};

verus! {

/// Base cost of a movement action.
pub const TURN_TIME: u32 = 1000;

/// Base cost of a wait action.
pub const WAIT_TIME: u32 = 1000;

/// Base cost of an attack action.
pub const ATTACK_TIME: u32 = 1000;

/// One thing an actor can do with its turn.
#[derive(Clone, Copy, Debug, PartialEq, Eq, Structural)]
pub enum ActionType {
    Wait,
    Attack(Position),
    Movement(Position),
    MovementDelta(IVec2),
}

/// The fixed base time cost of an action variant.
pub open spec fn spec_base_time(a: ActionType) -> u32 {
    match a {
        ActionType::Wait => WAIT_TIME,
        ActionType::Attack(_) => ATTACK_TIME,
        ActionType::Movement(_) => TURN_TIME,
        ActionType::MovementDelta(_) => TURN_TIME,
    }
}

/// How far an action is from the always-resolvable `Wait`: every retry
/// substitution strictly lowers the rank, so retry chains are finite.
pub open spec fn action_rank(a: ActionType) -> nat {
    match a {
        ActionType::Wait => 0,
        ActionType::Movement(_) => 1,
        ActionType::Attack(_) => 2,
        ActionType::MovementDelta(_) => 2,
    }
}

impl ActionType {
    pub fn get_base_time_to_perform(&self) -> (r: u32)
        ensures
            r == spec_base_time(*self),
    {
        match self {
            ActionType::Wait => WAIT_TIME,
            ActionType::Attack(_) => ATTACK_TIME,
            ActionType::Movement(_) => TURN_TIME,
            ActionType::MovementDelta(_) => TURN_TIME,
        }
    }
}

/// A first-in first-out buffer of externally-submitted actions; input
/// handling pushes, the scheduler pops.
pub struct ActionQueue {
    actions: Vec<ActionType>,
}

impl ActionQueue {
    /// The buffered actions, oldest first.
    pub closed spec fn spec_actions(&self) -> Seq<ActionType> {
        self.actions@
    }

    pub fn new() -> (r: ActionQueue)
        ensures
            r.spec_actions() == Seq::<ActionType>::empty(),
    {
        let r = ActionQueue { actions: Vec::new() };
        proof {
            assert(r.spec_actions() =~= Seq::<ActionType>::empty());
        }
        r
    }

    /// Append an action behind everything already buffered.
    pub fn add_action(&mut self, action: ActionType)
        ensures
            final(self).spec_actions() == old(self).spec_actions().push(action),
    {
        self.actions.push(action);
    }

    /// Remove and return the oldest buffered action, if any.
    pub fn get_action(&mut self) -> (r: Option<ActionType>)
        ensures
            old(self).spec_actions().len() == 0 ==> r is None && *final(self) == *old(self),
            old(self).spec_actions().len() > 0 ==> r == Some(old(self).spec_actions()[0]) && final(
                self).spec_actions() == old(self).spec_actions().drop_first(),
    {
        if self.actions.len() == 0 {
            return None;
        }
        let a = self.actions.remove(0);
        proof {
            assert(self.spec_actions() =~= old(self).spec_actions().drop_first());
        }
        Some(a)
    }

    /// Whether anything is buffered.
    pub fn is_empty(&self) -> (r: bool)
        ensures
            r == (self.spec_actions().len() == 0),
    {
        self.actions.len() == 0
    }
}

} // verus!
