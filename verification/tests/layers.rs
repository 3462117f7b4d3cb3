use bevy_enhanced_camera::layers::{CameraQueryFilter, ALL_LAYERS, NO_LAYERS};

#[test]
fn filter_mask_is_complement_of_ignored_layers() {
    assert_eq!(CameraQueryFilter::ignoring(0b10).mask, !0b10u32);
    assert_eq!(CameraQueryFilter::ignoring(NO_LAYERS).mask, ALL_LAYERS);
    assert_eq!(CameraQueryFilter::ignoring(ALL_LAYERS).mask, NO_LAYERS);
}

#[test]
fn collider_ignored_only_when_all_layers_ignored() {
    let filter = CameraQueryFilter::ignoring(0b10);
    // Only in the ignored layer: passed through.
    assert!(!filter.admits(0b10));
    // In the ignored layer and another one: still an obstacle.
    assert!(filter.admits(0b11));
    // Not in the ignored layer at all.
    assert!(filter.admits(0b01));
    // In no layer: never an obstacle.
    assert!(!filter.admits(0));
}

#[test]
fn ignoring_no_layers_admits_every_member() {
    let filter = CameraQueryFilter::ignoring(NO_LAYERS);
    assert!(filter.admits(1));
    assert!(filter.admits(1 << 31));
    assert!(filter.admits(ALL_LAYERS));
    assert!(!filter.admits(NO_LAYERS));
}

#[test]
fn ignoring_all_layers_admits_nothing() {
    let filter = CameraQueryFilter::ignoring(ALL_LAYERS);
    assert!(!filter.admits(1));
    assert!(!filter.admits(ALL_LAYERS));
}

#[test]
fn filter_with_given_mask_tests_shared_layers() {
    let filter = CameraQueryFilter { mask: 0b1011 };
    assert!(filter.admits(0b1000));
    assert!(!filter.admits(0b0100));
}
