//! Configuration and decision logic of a first/third person camera for Bevy.
//!
//! The library keeps what the camera decides apart from the floating point
//! work of moving it: which collision layers it phases through, how the cursor
//! is grabbed, and which cameras a pass rotates or repositions.
pub mod camera;
pub mod cursor;
pub mod layers;
pub mod passes;
