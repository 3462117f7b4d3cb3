use bevy_enhanced_camera::passes::{
    plan_fixed_step, plan_follow, plan_rotation, FollowAction, RotationPlan, StepAction,
    TargetLookup,
};

#[test]
fn rotation_plan_covers_every_case() {
    assert_eq!(plan_rotation(false, TargetLookup::Resolved), RotationPlan::WarnNotCamera);
    assert_eq!(plan_rotation(true, TargetLookup::Untargeted), RotationPlan::Rotate);
    assert_eq!(plan_rotation(true, TargetLookup::Unresolved), RotationPlan::RotateWarnTarget);
    assert_eq!(plan_rotation(true, TargetLookup::Resolved), RotationPlan::RotateAndOrbit);
}

#[test]
fn follow_pass_skips_missing_targets_and_goes_on() {
    let targets = vec![
        TargetLookup::Resolved,
        TargetLookup::Unresolved,
        TargetLookup::Resolved,
        TargetLookup::Untargeted,
    ];
    assert_eq!(
        plan_follow(&targets),
        vec![FollowAction::Orbit, FollowAction::WarnAndSkip, FollowAction::Orbit, FollowAction::Keep]
    );
}

#[test]
fn fixed_step_skips_missing_targets_and_goes_on() {
    let targets = vec![
        TargetLookup::Untargeted,
        TargetLookup::Resolved,
        TargetLookup::Unresolved,
        TargetLookup::Resolved,
        TargetLookup::Untargeted,
    ];
    assert_eq!(
        plan_fixed_step(&targets),
        vec![
            StepAction::Rotate,
            StepAction::RotateAndOrbit,
            StepAction::RotateAndWarn,
            StepAction::RotateAndOrbit,
            StepAction::Rotate,
        ]
    );
}

#[test]
fn fixed_step_handles_every_camera() {
    let targets = vec![TargetLookup::Resolved, TargetLookup::Untargeted];
    assert_eq!(plan_fixed_step(&targets), vec![StepAction::RotateAndOrbit, StepAction::Rotate]);
    assert_eq!(plan_fixed_step(&vec![]), vec![]);
    assert_eq!(plan_fixed_step(&vec![TargetLookup::Unresolved]), vec![StepAction::RotateAndWarn]);
}
