//! How the outcome of a creep's action in the game settles its state.
use vstd::prelude::*;

use crate::model::ctx::ActionStatus;
use crate::role::work::WorkStep;
use crate::role::{RoleEnum, RoleStatus};
use crate::utils::errorx::ScreepError;
use crate::utils::find::{get_near_site, is_first_nearest, Pos};

verus! {

/// What came of trying an action in the game.
#[derive(Debug, Clone, Copy, PartialEq, Eq, Structural)]
pub enum ActionOutcome {
    /// Nothing to act on was found.
    NoTarget,
    /// The action was taken.
    Done,
    /// The target was out of reach and the creep set off towards it.
    Moved,
    /// The target was out of reach and the creep could not move.
    MoveFailed,
    /// The game refused the action.
    Failed,
}

/// Records the outcome of an action the role allowed: the action becomes
/// the creep's action once it has acted or tried to get there; the step
/// succeeds when it acted or moved, finds nothing to do when there was no
/// target, and fails otherwise.
pub fn settle_action(role: &mut RoleEnum, action: ActionStatus, outcome: ActionOutcome) -> (r: Result<
    Option<()>,
    ScreepError,
>)
    ensures
        match outcome {
            ActionOutcome::NoTarget => r matches Ok(None) && *final(role) == *old(role),
            ActionOutcome::Done | ActionOutcome::Moved => r matches Ok(Some(_)) && *final(role)
                == old(role).with_status(
                RoleStatus { action_status: action, ..old(role).status_spec() },
            ),
            ActionOutcome::MoveFailed => r matches Err(ScreepError::ScreepInner) && *final(role)
                == old(role).with_status(
                RoleStatus { action_status: action, ..old(role).status_spec() },
            ),
            ActionOutcome::Failed => r matches Err(ScreepError::ScreepInner) && *final(role) == *old(
                role,
            ),
        },
{
    match outcome {
        ActionOutcome::NoTarget => Ok(None),
        ActionOutcome::Done => {
            role.change_action(action);
            Ok(Some(()))
        },
        ActionOutcome::Moved => {
            role.change_action(action);
            Ok(Some(()))
        },
        ActionOutcome::MoveFailed => {
            role.change_action(action);
            Err(ScreepError::ScreepInner)
        },
        ActionOutcome::Failed => Err(ScreepError::ScreepInner),
    }
}


/// The action the creep takes for a step of its plan, when its role allows
/// that action now; `None` when the step is to be skipped without acting.
pub fn allowed_action(role: &RoleEnum, step: WorkStep) -> (r: Option<ActionStatus>)
    ensures
        r == if role.allows(step.action_spec()) {
            Some(step.action_spec())
        } else {
            None
        },
{
    let action = step.action();
    if role.check(action) {
        Some(action)
    } else {
        None
    }
}

/// What a creep picking up energy goes for.
#[derive(Debug, Clone, Copy, PartialEq, Eq, Structural)]
pub enum PickTarget {
    /// The tombstone at this index.
    Tombstone(usize),
    /// The dropped resource at this index.
    Drop(usize),
}

/// Where a creep at `creep` picks up energy: the first nearest tombstone if
/// there is one, else the first nearest dropped resource, else nothing.
pub fn pickup_target(tombs: &Vec<Pos>, drops: &Vec<Pos>, creep: Pos) -> (r: Option<PickTarget>)
    ensures
        tombs@.len() > 0 ==> (r matches Some(PickTarget::Tombstone(i)) && is_first_nearest(
            creep,
            tombs@,
            i as int,
        )),
        tombs@.len() == 0 && drops@.len() > 0 ==> (r matches Some(PickTarget::Drop(i)) && is_first_nearest(
            creep,
            drops@,
            i as int,
        )),
        tombs@.len() == 0 && drops@.len() == 0 ==> r is None,
{
    if let Some(i) = get_near_site(creep, tombs) {
        return Some(PickTarget::Tombstone(i));
    }
    match get_near_site(creep, drops) {
        Some(i) => Some(PickTarget::Drop(i)),
        None => None,
    }
}

/// What the turn does after a step of the plan has been tried.
pub enum StepDecision {
    /// Try the step at this index next.
    Next(usize),
    /// The turn is over: a step acted, or no step is left.
    Finished,
    /// The turn ends with this error.
    Abort(ScreepError),
}

/// The turn rule: the first step that acts ends the turn, the first error
/// ends it with that error, and a step that found nothing to do passes on
/// to the next one, until none is left. `i` is the index of the step just
/// tried in `plan`.
pub fn next_step(plan: &Vec<WorkStep>, i: usize, r: Result<Option<()>, ScreepError>) -> (s: StepDecision)
    requires
        i < plan@.len(),
    ensures
        match r {
            Ok(Some(_)) => s is Finished,
            Err(e) => s == StepDecision::Abort(e),
            Ok(None) => if i + 1 < plan@.len() {
                s == StepDecision::Next((i + 1) as usize)
            } else {
                s is Finished
            },
        },
{
    match r {
        Ok(Some(_)) => StepDecision::Finished,
        Err(e) => StepDecision::Abort(e),
        Ok(None) => {
            if plan.len() - i > 1 {
                StepDecision::Next(i + 1)
            } else {
                StepDecision::Finished
            }
        },
    }
}

} // verus!
