//! Grabbing and releasing the cursor on the `LockCursor` and `UnlockCursor`
//! actions.
use vstd::prelude::*;

verus! {

/// How the cursor is held by the window.
#[derive(Clone, Copy, Debug, PartialEq, Eq, Structural)]
pub enum GrabMode {
    /// The cursor can freely leave the window.
    Free,
    /// The cursor is confined to the window area.
    Confined,
    /// The cursor is locked inside the window area to a certain position.
    Locked,
}

/// The part of the window's cursor options that the camera controls.
#[derive(Clone, Copy, Debug, PartialEq, Eq, Structural)]
pub struct CursorState {
    pub grab_mode: GrabMode,
    pub visible: bool,
}

/// The cursor as `lock_cursor` leaves it: locked and hidden.
pub open spec fn locked_cursor() -> CursorState {
    CursorState { grab_mode: GrabMode::Locked, visible: false }
}

/// The cursor as `unlock_cursor` leaves it: free and shown.
pub open spec fn unlocked_cursor() -> CursorState {
    CursorState { grab_mode: GrabMode::Free, visible: true }
}

/// Keeps the cursor from leaving the window: locks it and hides it.
pub fn lock_cursor(cursor: &mut CursorState)
    ensures
        *final(cursor) == locked_cursor(),
{
    cursor.grab_mode = GrabMode::Locked;
    cursor.visible = false;
}

/// Releases the cursor: frees it and shows it.
pub fn unlock_cursor(cursor: &mut CursorState)
    ensures
        *final(cursor) == unlocked_cursor(),
{
    cursor.grab_mode = GrabMode::Free;
    cursor.visible = true;
}

/// Locking keeps the cursor out of sight and unlocking brings it back: the
/// two states differ in both the grab mode and the visibility.
pub proof fn lemma_lock_hides_unlock_shows()
    ensures
        !locked_cursor().visible,
        unlocked_cursor().visible,
        locked_cursor().grab_mode != unlocked_cursor().grab_mode,
{
}

} // verus!
