use vstd::prelude::*;

verus! {

/// The keyboard keys the scene reacts to; every other key is `Other`.
#[derive(Clone, Copy, Debug, PartialEq, Eq, Structural)]
pub enum Key {
    W,
    A,
    S,
    D,
    Escape,
    Other,
}

/// What happened to a key or a mouse button.
#[derive(Clone, Copy, Debug, PartialEq, Eq, Structural)]
pub enum Action {
    Release,
    Press,
    Repeat,
}

/// The mouse buttons the scene tells apart.
#[derive(Clone, Copy, Debug, PartialEq, Eq, Structural)]
pub enum MouseButton {
    Left,
    Other,
}

/// A window event, reduced to what the scene's logic reads of it.
/// The cursor's coordinates are not carried: they only feed the camera
/// arithmetic, which the caller performs.
#[derive(Clone, Copy, Debug, PartialEq, Eq, Structural)]
pub enum InputEvent {
    Key(Key, Action),
    MouseButton(MouseButton, Action),
    CursorPos,
    Other,
}

/// A key counts as held after it is pressed or while it repeats.
pub open spec fn is_held(action: Action) -> bool {
    action == Action::Press || action == Action::Repeat
}

/// Whether an action leaves the key held.
pub fn action_holds(action: Action) -> (held: bool)
    ensures
        held == is_held(action),
{
    match action {
        Action::Press => true,
        Action::Repeat => true,
        Action::Release => false,
    }
}

} // verus!
