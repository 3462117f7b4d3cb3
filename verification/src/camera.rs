//! Settings of an enhanced camera.
//!
//! Angles and distances are of the scalar type `S` (`f32` in a Bevy app): the
//! library stores and copies them, and never computes with them.
use vstd::prelude::*;

use crate::layers::{
    all_layers_in, lemma_ignored_iff_all_layers_ignored, lemma_ignoring_none_admits_every_member,
    mask_admits, CameraQueryFilter, NO_LAYERS,
};

verus! {

/// How the camera handles collisions.
#[derive(Clone, Copy, Debug, PartialEq)]
pub struct CameraPhysicsConfig<S> {
    /// How large to make the radius of the spherecast that prevents the
    /// camera from phasing through the environment.
    pub spherecast_radius: S,
    /// Which layers the camera should ignore and phase through. An object will
    /// only be ignored if *all* of its layers are ignored here (not just one).
    pub ignore_layers: u32,
}

impl<S> CameraPhysicsConfig<S> {
    /// The default collision handling for a spherecast of the given radius:
    /// no layer is ignored.
    pub fn new(spherecast_radius: S) -> (c: Self)
        ensures
            c.spherecast_radius == spherecast_radius,
            c.ignore_layers == NO_LAYERS,
    {
        CameraPhysicsConfig { spherecast_radius, ignore_layers: NO_LAYERS }
    }
}

/// A camera that rotates by input and orbits its target.
#[derive(Clone, Copy, Debug, PartialEq)]
pub struct EnhancedCamera<S> {
    /// Maximum pitch (vertical angle) magnitude in radians.
    pub max_pitch: S,
    /// Maximum distance to follow target by.
    pub follow_dist: S,
    /// Determines how to handle collisions. Phases through everything when
    /// `None`.
    pub physics_config: Option<CameraPhysicsConfig<S>>,
}

impl<S> EnhancedCamera<S> {
    /// `self` with its physics configuration, if it has one, ignoring exactly
    /// the layers `layers`; a camera without physics is returned as it is.
    pub open spec fn with_ignored_layers(self, layers: u32) -> Self {
        match self.physics_config {
            Some(cfg) => EnhancedCamera {
                max_pitch: self.max_pitch,
                follow_dist: self.follow_dist,
                physics_config: Some(
                    CameraPhysicsConfig { spherecast_radius: cfg.spherecast_radius, ignore_layers: layers },
                ),
            },
            None => self,
        }
    }

    /// The mask of the query that stops the camera at obstacles: none for a
    /// camera that phases through everything, else the complement of its
    /// ignored layers.
    pub open spec fn obstruction_mask(self) -> Option<u32> {
        match self.physics_config {
            Some(cfg) => Some(!cfg.ignore_layers),
            None => None,
        }
    }

    /// Whether the camera is stopped by a collider that is a member of the
    /// layers `memberships`.
    pub open spec fn obstructed_by(self, memberships: u32) -> bool {
        match self.obstruction_mask() {
            Some(mask) => mask_admits(mask, memberships),
            None => false,
        }
    }

    /// A camera with the default collision handling: a spherecast of radius
    /// `spherecast_radius` that ignores no layer.
    pub fn new(max_pitch: S, follow_dist: S, spherecast_radius: S) -> (c: Self)
        ensures
            c.max_pitch == max_pitch,
            c.follow_dist == follow_dist,
            c.physics_config == Some(
                CameraPhysicsConfig { spherecast_radius, ignore_layers: NO_LAYERS },
            ),
    {
        EnhancedCamera {
            max_pitch,
            follow_dist,
            physics_config: Some(CameraPhysicsConfig::new(spherecast_radius)),
        }
    }

    /// Returns a camera with no physics configuration, which will phase
    /// through all colliders; its angles and distances are the given ones.
    pub fn noclip(max_pitch: S, follow_dist: S) -> (c: Self)
        ensures
            c.max_pitch == max_pitch,
            c.follow_dist == follow_dist,
            c.physics_config is None,
    {
        EnhancedCamera { max_pitch, follow_dist, physics_config: None }
    }

    /// Makes the camera ignore the collision layers `layers`, replacing the
    /// ones it ignored before. A camera without physics configuration is
    /// returned unchanged.
    pub fn which_ignores_physics_layers(self, layers: u32) -> (c: Self)
        ensures
            c == self.with_ignored_layers(layers),
            c.max_pitch == self.max_pitch,
            c.follow_dist == self.follow_dist,
            c.physics_config is Some <==> self.physics_config is Some,
            self.physics_config matches Some(before) ==> c.physics_config == Some(
                CameraPhysicsConfig { spherecast_radius: before.spherecast_radius, ignore_layers: layers },
            ),
    {
        let EnhancedCamera { max_pitch, follow_dist, physics_config } = self;
        match physics_config {
            Some(cfg) => EnhancedCamera {
                max_pitch,
                follow_dist,
                physics_config: Some(
                    CameraPhysicsConfig { spherecast_radius: cfg.spherecast_radius, ignore_layers: layers },
                ),
            },
            None => EnhancedCamera { max_pitch, follow_dist, physics_config: None },
        }
    }

    /// The filter of the spatial query that keeps the camera from passing
    /// through colliders, or `None` when the camera phases through everything.
    pub fn obstruction_filter(&self) -> (f: Option<CameraQueryFilter>)
        ensures
            match f {
                Some(filter) => self.obstruction_mask() == Some(filter.mask),
                None => self.obstruction_mask() is None,
            },
            f is None <==> self.physics_config is None,
            self.physics_config matches Some(cfg) ==> f == Some(
                CameraQueryFilter { mask: !cfg.ignore_layers },
            ),
    {
        match &self.physics_config {
            Some(cfg) => Some(CameraQueryFilter::ignoring(cfg.ignore_layers)),
            None => None,
        }
    }
}

/// Setting the ignored layers twice is the same as setting them once to the
/// second value.
pub proof fn lemma_last_ignored_layers_win<S>(camera: EnhancedCamera<S>, first: u32, second: u32)
    ensures
        camera.with_ignored_layers(first).with_ignored_layers(second)
            == camera.with_ignored_layers(second),
{
}

/// Setting ignored layers changes nothing on a camera without physics.
pub proof fn lemma_ignoring_layers_without_physics_is_no_op<S>(camera: EnhancedCamera<S>, layers: u32)
    requires
        camera.physics_config is None,
    ensures
        camera.with_ignored_layers(layers) == camera,
{
}

/// A camera without physics configuration phases through every collider.
pub proof fn lemma_no_physics_phases_through_everything<S>(camera: EnhancedCamera<S>, memberships: u32)
    requires
        camera.physics_config is None,
    ensures
        camera.obstruction_mask() is None,
        !camera.obstructed_by(memberships),
{
}

/// A camera with physics that ignores `layers` is stopped by a collider
/// exactly when the collider is a member of some layer outside `layers`: it is
/// ignored only if all of its layers are ignored.
pub proof fn lemma_ignored_exactly_when_all_layers_ignored<S>(
    camera: EnhancedCamera<S>,
    layers: u32,
    memberships: u32,
)
    requires
        camera.physics_config is Some,
    ensures
        camera.with_ignored_layers(layers).obstructed_by(memberships) <==> !all_layers_in(
            memberships,
            layers,
        ),
{
    lemma_ignored_iff_all_layers_ignored(layers, memberships);
}

/// A camera with the default physics configuration is stopped by every
/// collider that belongs to at least one layer.
pub proof fn lemma_default_physics_obstructed_by_every_member<S>(
    camera: EnhancedCamera<S>,
    memberships: u32,
)
    requires
        camera.physics_config matches Some(cfg) && cfg.ignore_layers == NO_LAYERS,
    ensures
        camera.obstructed_by(memberships) <==> memberships != 0,
{
    lemma_ignoring_none_admits_every_member(memberships);
}

} // verus!
