use vstd::prelude::*;

verus! {

/// The mouse-look state: whether the mouse drives the camera, and whether
/// the next cursor event must first re-anchor the last cursor position
/// (so that the first move after focusing turns the camera by nothing).
#[derive(Clone, Copy, Debug, PartialEq, Eq, Structural)]
pub struct MouseState {
    pub first_mouse: bool,
    pub mouse_focused: bool,
}

impl MouseState {
    /// Holds of every state the operations below reach: while the mouse
    /// is not focused, the next focused cursor event re-anchors.
    pub open spec fn reachable(self) -> bool {
        !self.mouse_focused ==> self.first_mouse
    }
}

impl Default for MouseState {
    /// Unfocused, with the anchor pending.
    fn default() -> (m: Self)
        ensures
            m == (MouseState { first_mouse: true, mouse_focused: false }),
            m.reachable(),
    {
        MouseState { first_mouse: true, mouse_focused: false }
    }
}

/// The state after focusing (`tf`) or releasing the mouse: focusing keeps
/// the anchor flag, releasing makes the next focused move re-anchor.
pub open spec fn focus_after(m: MouseState, tf: bool) -> MouseState {
    if tf {
        MouseState { mouse_focused: true, ..m }
    } else {
        MouseState { first_mouse: true, mouse_focused: false }
    }
}

/// Focuses or releases the mouse.
pub fn set_mouse_focused(tf: bool, vars: &mut MouseState)
    ensures
        *final(vars) == focus_after(*old(vars), tf),
        final(vars).reachable(),
        !tf ==> *final(vars) == (MouseState { first_mouse: true, mouse_focused: false }),
        tf ==> *final(vars) == (MouseState {
            first_mouse: old(vars).first_mouse,
            mouse_focused: true,
        }),
{
    if tf {
        vars.mouse_focused = true;
    } else {
        vars.mouse_focused = false;
        vars.first_mouse = true;
    }
}

/// What a cursor event asks of the camera.
#[derive(Clone, Copy, Debug, PartialEq, Eq, Structural)]
pub enum CursorAction {
    /// The mouse is not focused: the event changes nothing.
    Ignore,
    /// Turn the camera by the cursor's offset from the last position
    /// (times the sensitivity), after setting the last position to the
    /// current one when `reset_anchor` holds.
    Turn { reset_anchor: bool },
}

/// The action a cursor event takes in a state.
pub open spec fn cursor_action(m: MouseState) -> CursorAction {
    if m.mouse_focused {
        CursorAction::Turn { reset_anchor: m.first_mouse }
    } else {
        CursorAction::Ignore
    }
}

/// The state after a cursor event: a focused event clears the anchor flag.
pub open spec fn cursor_after(m: MouseState) -> MouseState {
    if m.mouse_focused {
        MouseState { first_mouse: false, ..m }
    } else {
        m
    }
}

/// Decides what a cursor event does with the camera, and records it.
pub fn cursor_pos(vars: &mut MouseState) -> (action: CursorAction)
    ensures
        action == cursor_action(*old(vars)),
        *final(vars) == cursor_after(*old(vars)),
        old(vars).reachable() ==> final(vars).reachable(),
        !old(vars).mouse_focused ==> action == CursorAction::Ignore && *final(vars) == *old(vars),
        old(vars).mouse_focused ==> action == (CursorAction::Turn {
            reset_anchor: old(vars).first_mouse,
        }) && *final(vars) == (MouseState { first_mouse: false, mouse_focused: true }),
{
    if vars.mouse_focused {
        let reset_anchor = vars.first_mouse;
        vars.first_mouse = false;
        CursorAction::Turn { reset_anchor }
    } else {
        CursorAction::Ignore
    }
}

/// While the mouse is not focused, a cursor event is ignored and leaves
/// the state unchanged.
pub proof fn lemma_unfocused_cursor_ignored(m: MouseState)
    requires
        !m.mouse_focused,
    ensures
        cursor_action(m) == CursorAction::Ignore,
        cursor_after(m) == m,
{
}

/// After the mouse is released and focused again, the first cursor event
/// re-anchors, whatever the state was before.
pub proof fn lemma_refocus_reanchors(m: MouseState)
    ensures
        cursor_action(focus_after(focus_after(m, false), true))
            == (CursorAction::Turn { reset_anchor: true }),
{
}

/// In every reachable state, focusing the mouse makes the next cursor event
/// re-anchor unless the mouse was already focused.
pub proof fn lemma_focus_from_unfocused_reanchors(m: MouseState)
    requires
        m.reachable(),
        !m.mouse_focused,
    ensures
        cursor_action(focus_after(m, true)) == (CursorAction::Turn { reset_anchor: true }),
{
}

/// Once the mouse is focused, every cursor event after the first turns the
/// camera without re-anchoring.
pub proof fn lemma_later_moves_do_not_reanchor(m: MouseState)
    requires
        m.mouse_focused,
    ensures
        cursor_action(cursor_after(m)) == (CursorAction::Turn { reset_anchor: false }),
        cursor_after(cursor_after(m)) == cursor_after(m),
{
}

/// Focusing an already focused mouse changes nothing.
pub proof fn lemma_focus_idempotent(m: MouseState, tf: bool)
    ensures
        focus_after(focus_after(m, tf), tf) == focus_after(m, tf),
{
}

/// Releasing the mouse, from any state, leaves it unfocused with the
/// anchor pending; focusing it, from any state, leaves it focused and
/// keeps the anchor flag.
pub proof fn lemma_focus_and_release(m: MouseState)
    ensures
        focus_after(m, false) == (MouseState { first_mouse: true, mouse_focused: false }),
        focus_after(m, true) == (MouseState { first_mouse: m.first_mouse, mouse_focused: true }),
{
}

/// A cursor event on a focused mouse turns the camera, re-anchoring
/// exactly when the anchor was pending, and leaves the anchor cleared; on
/// an unfocused mouse it does nothing.
pub proof fn lemma_cursor_event(m: MouseState)
    ensures
        m.mouse_focused ==> cursor_action(m) == (CursorAction::Turn { reset_anchor: m.first_mouse })
            && cursor_after(m) == (MouseState { first_mouse: false, mouse_focused: true }),
        !m.mouse_focused ==> cursor_action(m) == CursorAction::Ignore && cursor_after(m) == m,
{
}

} // verus!
