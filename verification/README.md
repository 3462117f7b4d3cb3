# bevy_enhanced_camera

A first/third person camera for Bevy, driven by bevy_enhanced_input, that
can orbit a target and stop at obstacles using avian3d.

- `src/` is the verified library (Verus):
  - `layers`: the layer mask of the camera's obstruction query and what it
    admits (through avian3d's `LayerMask` and `SpatialQueryFilter`);
  - `camera`: the camera settings (`EnhancedCamera`, `CameraPhysicsConfig`),
    generic over the scalar type of angles and distances;
  - `cursor`: locking and unlocking the cursor;
  - `passes`: which cameras the rotation, follow and fixed-step passes rotate
    or move.
- `app/` is the Bevy plugin: components, observers and systems, which do the
  floating point work and take their decisions from the library.
- `tests/` runs the library on concrete values.
