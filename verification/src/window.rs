use vstd::prelude::*;

use crate::controls::{controls_after, handle_controls, JControls};
use crate::input::{Action, InputEvent, Key, MouseButton};
use crate::mouse::{
    cursor_action, cursor_after, cursor_pos, focus_after, set_mouse_focused, CursorAction,
    MouseState,
};

verus! {

/// Everything the window events change: the held movement keys and the
/// mouse-look state.
#[derive(Clone, Copy, Debug, PartialEq, Eq, Structural)]
pub struct GameInput {
    pub controls: JControls,
    pub mouse: MouseState,
}

impl Default for GameInput {
    /// No key held; mouse unfocused, with the anchor pending.
    fn default() -> (g: Self)
        ensures
            !g.controls.f && !g.controls.b && !g.controls.r && !g.controls.l,
            g.mouse == (MouseState { first_mouse: true, mouse_focused: false }),
    {
        GameInput {
            controls: JControls { f: false, b: false, r: false, l: false },
            mouse: MouseState { first_mouse: true, mouse_focused: false },
        }
    }
}

/// What the window must do after an event: close, capture (hide and lock)
/// the cursor, and what a cursor event does with the camera (`Ignore` for
/// every other event).
#[derive(Clone, Copy, Debug, PartialEq, Eq, Structural)]
pub struct EventResponse {
    pub close_window: bool,
    pub capture_cursor: bool,
    pub cursor: CursorAction,
}

/// A left-button press focuses the mouse.
pub open spec fn is_left_press(event: InputEvent) -> bool {
    event == InputEvent::MouseButton(MouseButton::Left, Action::Press)
}

/// Any event of the Escape key closes the window, whatever its action.
pub open spec fn is_escape(event: InputEvent) -> bool {
    event matches InputEvent::Key(Key::Escape, _)
}

/// The mouse-look state after an event.
pub open spec fn mouse_after_event(m: MouseState, event: InputEvent) -> MouseState {
    if is_left_press(event) {
        focus_after(m, true)
    } else if event == InputEvent::CursorPos {
        cursor_after(m)
    } else {
        m
    }
}

/// The response to an event in a mouse-look state.
pub open spec fn response_to(m: MouseState, event: InputEvent) -> EventResponse {
    EventResponse {
        close_window: is_escape(event),
        capture_cursor: is_left_press(event),
        cursor: if event == InputEvent::CursorPos {
            cursor_action(m)
        } else {
            CursorAction::Ignore
        },
    }
}

/// Handles one window event: records it in the movement controls, then
/// closes on Escape, focuses the mouse on a left click and decides what a
/// cursor move does.
pub fn respond_to_event(input: &mut GameInput, event: InputEvent) -> (r: EventResponse)
    ensures
        final(input).controls == controls_after(old(input).controls, event),
        final(input).mouse == mouse_after_event(old(input).mouse, event),
        r == response_to(old(input).mouse, event),
        old(input).mouse.reachable() ==> final(input).mouse.reachable(),
        event != InputEvent::MouseButton(MouseButton::Left, Action::Press) && event
            != InputEvent::CursorPos ==> final(input).mouse == old(input).mouse,
        event == InputEvent::MouseButton(MouseButton::Left, Action::Press) ==> final(input).mouse
            == (MouseState { first_mouse: old(input).mouse.first_mouse, mouse_focused: true }),
        r.close_window <==> (event matches InputEvent::Key(Key::Escape, _)),
        r.capture_cursor <==> event == InputEvent::MouseButton(MouseButton::Left, Action::Press),
        event != InputEvent::CursorPos ==> r.cursor == CursorAction::Ignore,
        event == InputEvent::CursorPos ==> r.cursor == (if old(input).mouse.mouse_focused {
            CursorAction::Turn { reset_anchor: old(input).mouse.first_mouse }
        } else {
            CursorAction::Ignore
        }),
{
    handle_controls(&mut input.controls, event);
    match event {
        InputEvent::Key(Key::Escape, _) => EventResponse {
            close_window: true,
            capture_cursor: false,
            cursor: CursorAction::Ignore,
        },
        InputEvent::MouseButton(MouseButton::Left, Action::Press) => {
            set_mouse_focused(true, &mut input.mouse);
            EventResponse { close_window: false, capture_cursor: true, cursor: CursorAction::Ignore }
        },
        InputEvent::CursorPos => {
            let cursor = cursor_pos(&mut input.mouse);
            EventResponse { close_window: false, capture_cursor: false, cursor }
        },
        _ => EventResponse {
            close_window: false,
            capture_cursor: false,
            cursor: CursorAction::Ignore,
        },
    }
}

/// Starting unfocused, a left click followed by a cursor move turns the
/// camera from a fresh anchor, and the move after that does not re-anchor.
pub proof fn lemma_click_then_move_reanchors(m: MouseState)
    requires
        m.reachable(),
        !m.mouse_focused,
    ensures
        ({
            let clicked = mouse_after_event(
                m,
                InputEvent::MouseButton(MouseButton::Left, Action::Press),
            );
            let moved = mouse_after_event(clicked, InputEvent::CursorPos);
            &&& response_to(clicked, InputEvent::CursorPos).cursor == (CursorAction::Turn {
                reset_anchor: true,
            })
            &&& response_to(moved, InputEvent::CursorPos).cursor == (CursorAction::Turn {
                reset_anchor: false,
            })
        }),
{
}

/// The window closes on an event exactly when it is an Escape key event,
/// and only a left-button press captures the cursor.
pub proof fn lemma_only_escape_closes(m: MouseState, event: InputEvent)
    ensures
        response_to(m, event).close_window <==> (event matches InputEvent::Key(Key::Escape, _)),
        response_to(m, event).capture_cursor ==> !response_to(m, event).close_window,
{
}

/// Only a left-button press and a cursor move touch the mouse-look state:
/// every other event, a button release among them, leaves it exactly as it
/// was; a left-button press focuses the mouse and keeps the anchor flag.
pub proof fn lemma_mouse_changed_only_by_click_and_move(m: MouseState, event: InputEvent)
    ensures
        event != InputEvent::MouseButton(MouseButton::Left, Action::Press) && event
            != InputEvent::CursorPos ==> mouse_after_event(m, event) == m,
        mouse_after_event(m, InputEvent::MouseButton(MouseButton::Left, Action::Release)) == m,
        mouse_after_event(m, InputEvent::MouseButton(MouseButton::Left, Action::Press))
            == (MouseState { first_mouse: m.first_mouse, mouse_focused: true }),
{
}

/// A left click followed by its release leaves the mouse focused, so the
/// next cursor move turns the camera.
pub proof fn lemma_click_release_keeps_focus(m: MouseState)
    ensures
        ({
            let after = mouse_after_event(
                mouse_after_event(m, InputEvent::MouseButton(MouseButton::Left, Action::Press)),
                InputEvent::MouseButton(MouseButton::Left, Action::Release),
            );
            &&& after.mouse_focused
            &&& response_to(after, InputEvent::CursorPos).cursor matches CursorAction::Turn { .. }
        }),
{
}

} // verus!
