//! Collision layers that the camera's obstruction query takes into account.
use vstd::prelude::*;

use avian3d::prelude::{CollisionLayers, LayerMask, SpatialQueryFilter};
use bevy::ecs::entity::Entity;

verus! {

/// The empty set of collision layers (bit `i` stands for layer `i`).
pub const NO_LAYERS: u32 = 0;

/// The set of all 32 collision layers.
pub const ALL_LAYERS: u32 = 0xffff_ffff;

/// Whether a spatial query whose layer mask is `mask` takes into account a
/// collider that is a member of the layers `memberships`: they share a layer.
pub open spec fn mask_admits(mask: u32, memberships: u32) -> bool {
    memberships & mask != 0
}

/// Whether every layer of `memberships` is one of `ignored`.
pub open spec fn all_layers_in(memberships: u32, ignored: u32) -> bool {
    memberships & ignored == memberships
}

/// Complement of a layer mask, through avian3d's `impl Not for LayerMask`,
/// whose body is `Self(!self.0)`: claimed to flip every one of the 32 bits.
#[verifier::external_body]
fn layer_mask_not(bits: u32) -> (r: u32)
    ensures
        r == !bits,
{
    (!LayerMask(bits)).0
}

/// avian3d's `SpatialQueryFilter::from_mask(mask)` followed by
/// `SpatialQueryFilter::test` on a collider with the memberships `memberships`.
/// Claimed: the result is whether the memberships and the mask share a layer.
/// The source tests that the entity is not excluded (a filter made by
/// `from_mask` excludes none) and that
/// `CollisionLayers::new(ALL, mask).interacts_with(CollisionLayers::new(memberships, ALL))`,
/// which is `ALL & ALL != 0 && memberships & mask != 0`.
#[verifier::external_body]
fn query_filter_test(mask: u32, memberships: u32) -> (r: bool)
    ensures
        r == mask_admits(mask, memberships),
{
    SpatialQueryFilter::from_mask(LayerMask(mask))
        .test(Entity::PLACEHOLDER, CollisionLayers::new(LayerMask(memberships), LayerMask::ALL))
}

/// The layer mask of the spatial query that keeps a camera from passing
/// through colliders: it holds every layer that the camera does not ignore.
#[derive(Clone, Copy, Debug, PartialEq, Eq, Structural)]
pub struct CameraQueryFilter {
    pub mask: u32,
}

impl CameraQueryFilter {
    /// The filter of a camera that ignores the layers `ignore_layers`: its
    /// mask is their complement.
    pub fn ignoring(ignore_layers: u32) -> (f: CameraQueryFilter)
        ensures
            f.mask == !ignore_layers,
    {
        CameraQueryFilter { mask: layer_mask_not(ignore_layers) }
    }

    /// Whether the query takes into account a collider that is a member of the
    /// layers `memberships`.
    pub fn admits(&self, memberships: u32) -> (r: bool)
        ensures
            r == mask_admits(self.mask, memberships),
    {
        query_filter_test(self.mask, memberships)
    }
}

/// A camera that ignores the layers `ignore_layers` passes through a collider
/// exactly when all of the collider's layers are ignored, not when only some
/// of them are.
pub proof fn lemma_ignored_iff_all_layers_ignored(ignore_layers: u32, memberships: u32)
    ensures
        !mask_admits(!ignore_layers, memberships) <==> all_layers_in(memberships, ignore_layers),
{
    assert((memberships & !ignore_layers == 0) <==> (memberships & ignore_layers == memberships))
        by (bit_vector);
}

/// Ignoring no layers, a camera takes into account every collider that
/// belongs to at least one layer.
pub proof fn lemma_ignoring_none_admits_every_member(memberships: u32)
    ensures
        mask_admits(!NO_LAYERS, memberships) <==> memberships != 0,
{
    assert((memberships & !0u32 != 0) <==> memberships != 0) by (bit_vector);
}

/// Ignoring all layers, a camera passes through every collider.
pub proof fn lemma_ignoring_all_admits_nothing(memberships: u32)
    ensures
        !mask_admits(!ALL_LAYERS, memberships),
{
    assert(memberships & !0xffff_ffffu32 == 0) by (bit_vector);
}

} // verus!
