use jgame::mouse::{cursor_pos, set_mouse_focused, CursorAction, MouseState};

#[test]
fn default_is_unfocused_with_anchor_pending() {
    let m = MouseState::default();
    assert!(m.first_mouse);
    assert!(!m.mouse_focused);
}

#[test]
fn unfocused_cursor_is_ignored() {
    let mut m = MouseState::default();
    assert_eq!(cursor_pos(&mut m), CursorAction::Ignore);
    assert_eq!(m, MouseState::default());
}

#[test]
fn first_focused_move_reanchors_then_not() {
    let mut m = MouseState::default();
    set_mouse_focused(true, &mut m);
    assert_eq!(m, MouseState { first_mouse: true, mouse_focused: true });
    assert_eq!(cursor_pos(&mut m), CursorAction::Turn { reset_anchor: true });
    assert_eq!(m, MouseState { first_mouse: false, mouse_focused: true });
    assert_eq!(cursor_pos(&mut m), CursorAction::Turn { reset_anchor: false });
    assert_eq!(cursor_pos(&mut m), CursorAction::Turn { reset_anchor: false });
}

#[test]
fn release_resets_anchor() {
    let mut m = MouseState { first_mouse: false, mouse_focused: true };
    set_mouse_focused(false, &mut m);
    assert_eq!(m, MouseState { first_mouse: true, mouse_focused: false });
    set_mouse_focused(true, &mut m);
    assert_eq!(cursor_pos(&mut m), CursorAction::Turn { reset_anchor: true });
}

#[test]
fn focusing_twice_keeps_anchor_state() {
    let mut m = MouseState { first_mouse: false, mouse_focused: true };
    set_mouse_focused(true, &mut m);
    assert_eq!(m, MouseState { first_mouse: false, mouse_focused: true });
}
