use bevy_enhanced_camera::cursor::{lock_cursor, unlock_cursor, CursorState, GrabMode};

#[test]
fn lock_cursor_locks_and_hides() {
    let mut cursor = CursorState { grab_mode: GrabMode::Free, visible: true };
    lock_cursor(&mut cursor);
    assert_eq!(cursor, CursorState { grab_mode: GrabMode::Locked, visible: false });
}

#[test]
fn unlock_cursor_frees_and_shows() {
    let mut cursor = CursorState { grab_mode: GrabMode::Confined, visible: false };
    unlock_cursor(&mut cursor);
    assert_eq!(cursor, CursorState { grab_mode: GrabMode::Free, visible: true });
}

#[test]
fn lock_then_unlock_round_trip() {
    let mut cursor = CursorState { grab_mode: GrabMode::Free, visible: true };
    let start = cursor;
    lock_cursor(&mut cursor);
    lock_cursor(&mut cursor);
    assert_eq!(cursor.grab_mode, GrabMode::Locked);
    assert!(!cursor.visible);
    unlock_cursor(&mut cursor);
    assert_eq!(cursor, start);
}
