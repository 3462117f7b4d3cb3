//! Which cameras the camera systems rotate and reposition.
//!
//! Each system looks up, for each camera, the transform of the entity that the
//! camera targets. The decisions below take the outcomes of those lookups and
//! say what is done to each camera; the rotation and the orbit themselves are
//! the caller's floating point work.
use vstd::prelude::*;

verus! {

/// Outcome of looking up a camera's target.
#[derive(Clone, Copy, Debug, PartialEq, Eq, Structural)]
pub enum TargetLookup {
    /// The camera has no target.
    Untargeted,
    /// The camera has a target whose transform could not be found.
    Unresolved,
    /// The camera has a target with a transform.
    Resolved,
}

/// What the input observer does for one `RotateCamera` event.
#[derive(Clone, Copy, Debug, PartialEq, Eq, Structural)]
pub enum RotationPlan {
    /// The entity that fired the event is not a camera: warn, change nothing.
    WarnNotCamera,
    /// Rotate the camera; it has no target to orbit.
    Rotate,
    /// Rotate the camera, then warn that its target has no transform.
    RotateWarnTarget,
    /// Rotate the camera, then move it on its orbit around the target.
    RotateAndOrbit,
}

/// What the follow pass does to one targeted camera.
#[derive(Clone, Copy, Debug, PartialEq, Eq, Structural)]
pub enum FollowAction {
    /// Leave the camera where it is.
    Keep,
    /// Warn that the target has no transform, leave the camera, go on.
    WarnAndSkip,
    /// Move the camera on its orbit around the target.
    Orbit,
}

/// What the fixed-step pass does to one camera.
#[derive(Clone, Copy, Debug, PartialEq, Eq, Structural)]
pub enum StepAction {
    /// Rotate the camera by the accumulated input.
    Rotate,
    /// Rotate the camera, then move it on its orbit around the target.
    RotateAndOrbit,
    /// Rotate the camera and warn that its target has no transform; the
    /// camera is not moved, and the pass goes on with the next camera.
    RotateAndWarn,
}

/// The input observer's decision.
pub open spec fn rotation_plan(camera_found: bool, target: TargetLookup) -> RotationPlan {
    if !camera_found {
        RotationPlan::WarnNotCamera
    } else {
        match target {
            TargetLookup::Untargeted => RotationPlan::Rotate,
            TargetLookup::Unresolved => RotationPlan::RotateWarnTarget,
            TargetLookup::Resolved => RotationPlan::RotateAndOrbit,
        }
    }
}

/// The follow pass's decision for one camera.
pub open spec fn follow_action(target: TargetLookup) -> FollowAction {
    match target {
        TargetLookup::Untargeted => FollowAction::Keep,
        TargetLookup::Unresolved => FollowAction::WarnAndSkip,
        TargetLookup::Resolved => FollowAction::Orbit,
    }
}

/// The fixed-step pass's decision for one camera that it reaches.
pub open spec fn step_action(target: TargetLookup) -> StepAction {
    match target {
        TargetLookup::Untargeted => StepAction::Rotate,
        TargetLookup::Unresolved => StepAction::RotateAndWarn,
        TargetLookup::Resolved => StepAction::RotateAndOrbit,
    }
}

/// Decides what a `RotateCamera` event does, given whether the entity that
/// fired it is a camera and, if so, what the lookup of its target found.
pub fn plan_rotation(camera_found: bool, target: TargetLookup) -> (plan: RotationPlan)
    ensures
        plan == rotation_plan(camera_found, target),
        !camera_found ==> plan == RotationPlan::WarnNotCamera,
        camera_found ==> plan != RotationPlan::WarnNotCamera,
        camera_found ==> (plan == RotationPlan::Rotate <==> target == TargetLookup::Untargeted),
        camera_found ==> (plan == RotationPlan::RotateWarnTarget <==> target
            == TargetLookup::Unresolved),
        camera_found ==> (plan == RotationPlan::RotateAndOrbit <==> target
            == TargetLookup::Resolved),
{
    if !camera_found {
        RotationPlan::WarnNotCamera
    } else {
        match target {
            TargetLookup::Untargeted => RotationPlan::Rotate,
            TargetLookup::Unresolved => RotationPlan::RotateWarnTarget,
            TargetLookup::Resolved => RotationPlan::RotateAndOrbit,
        }
    }
}

/// Decides, for each camera of the follow pass in order, what is done to it.
/// A camera whose target cannot be found is skipped; the pass goes on.
pub fn plan_follow(targets: &Vec<TargetLookup>) -> (actions: Vec<FollowAction>)
    ensures
        actions.len() == targets.len(),
        forall|i: int| 0 <= i < targets.len() ==> actions[i] == follow_action(#[trigger] targets[i]),
        forall|i: int|
            0 <= i < targets.len() ==> {
                &&& (#[trigger] actions[i] == FollowAction::Orbit <==> targets[i]
                    == TargetLookup::Resolved)
                &&& (actions[i] == FollowAction::WarnAndSkip <==> targets[i]
                    == TargetLookup::Unresolved)
                &&& (actions[i] == FollowAction::Keep <==> targets[i] == TargetLookup::Untargeted)
            },
{
    let mut actions: Vec<FollowAction> = Vec::new();
    let n: usize = targets.len();
    for i in 0..n
        invariant
            n == targets.len(),
            actions.len() == i,
            forall|j: int| 0 <= j < i ==> actions[j] == follow_action(#[trigger] targets[j]),
    {
        let action = match targets[i] {
            TargetLookup::Untargeted => FollowAction::Keep,
            TargetLookup::Unresolved => FollowAction::WarnAndSkip,
            TargetLookup::Resolved => FollowAction::Orbit,
        };
        actions.push(action);
    }
    actions
}

/// Decides, for each camera of the fixed-step pass in order, what is done to
/// it. Every camera is rotated by its own accumulated input; a camera whose
/// target cannot be found is not moved, and the pass goes on.
pub fn plan_fixed_step(targets: &Vec<TargetLookup>) -> (actions: Vec<StepAction>)
    ensures
        actions.len() == targets.len(),
        forall|i: int| 0 <= i < targets.len() ==> actions[i] == step_action(#[trigger] targets[i]),
        forall|i: int|
            0 <= i < targets.len() ==> {
                &&& (#[trigger] actions[i] == StepAction::RotateAndOrbit <==> targets[i]
                    == TargetLookup::Resolved)
                &&& (actions[i] == StepAction::RotateAndWarn <==> targets[i]
                    == TargetLookup::Unresolved)
                &&& (actions[i] == StepAction::Rotate <==> targets[i] == TargetLookup::Untargeted)
            },
{
    let mut actions: Vec<StepAction> = Vec::new();
    let n: usize = targets.len();
    for i in 0..n
        invariant
            n == targets.len(),
            actions.len() == i,
            forall|j: int| 0 <= j < i ==> actions[j] == step_action(#[trigger] targets[j]),
    {
        let action = match targets[i] {
            TargetLookup::Untargeted => StepAction::Rotate,
            TargetLookup::Unresolved => StepAction::RotateAndWarn,
            TargetLookup::Resolved => StepAction::RotateAndOrbit,
        };
        actions.push(action);
    }
    actions
}

/// An event fired by an entity that is not a camera is only warned about,
/// whatever its target lookup; an event on a camera always rotates it, and
/// orbits exactly when its target resolved, warning exactly when it did not.
pub proof fn lemma_rotation_plan_intent(target: TargetLookup)
    ensures
        rotation_plan(false, target) == RotationPlan::WarnNotCamera,
        rotation_plan(true, target) != RotationPlan::WarnNotCamera,
        rotation_plan(true, target) == RotationPlan::RotateAndOrbit <==> target
            == TargetLookup::Resolved,
        rotation_plan(true, target) == RotationPlan::RotateWarnTarget <==> target
            == TargetLookup::Unresolved,
        rotation_plan(true, target) == RotationPlan::Rotate <==> target == TargetLookup::Untargeted,
{
}

/// In the follow pass a camera is moved exactly when its target resolved, and
/// warned about exactly when its target has no transform.
pub proof fn lemma_follow_action_intent(target: TargetLookup)
    ensures
        follow_action(target) == FollowAction::Orbit <==> target == TargetLookup::Resolved,
        follow_action(target) == FollowAction::WarnAndSkip <==> target == TargetLookup::Unresolved,
        follow_action(target) == FollowAction::Keep <==> target == TargetLookup::Untargeted,
{
}

/// In the fixed-step pass every camera is rotated; it is also moved exactly
/// when its target resolved, and warned about exactly when its target has no
/// transform.
pub proof fn lemma_step_action_intent(target: TargetLookup)
    ensures
        step_action(target) == StepAction::RotateAndOrbit <==> target == TargetLookup::Resolved,
        step_action(target) == StepAction::RotateAndWarn <==> target == TargetLookup::Unresolved,
        step_action(target) == StepAction::Rotate <==> target == TargetLookup::Untargeted,
{
}

} // verus!
