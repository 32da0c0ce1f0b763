use jgame::controls::{handle_controls, player_respond_to_controls, JControls, MoveAxis, MoveStep};
use jgame::input::{Action, InputEvent, Key, MouseButton};

fn none() -> JControls {
    JControls::default()
}

#[test]
fn default_has_no_key_held() {
    let c = none();
    assert!(!c.f && !c.b && !c.r && !c.l);
}

#[test]
fn press_each_movement_key() {
    let mut c = none();
    handle_controls(&mut c, InputEvent::Key(Key::W, Action::Press));
    assert_eq!(c, JControls { f: true, b: false, r: false, l: false });
    handle_controls(&mut c, InputEvent::Key(Key::S, Action::Press));
    assert_eq!(c, JControls { f: true, b: true, r: false, l: false });
    handle_controls(&mut c, InputEvent::Key(Key::D, Action::Press));
    assert_eq!(c, JControls { f: true, b: true, r: true, l: false });
    handle_controls(&mut c, InputEvent::Key(Key::A, Action::Press));
    assert_eq!(c, JControls { f: true, b: true, r: true, l: true });
}

#[test]
fn repeat_holds_and_release_clears() {
    let mut c = none();
    handle_controls(&mut c, InputEvent::Key(Key::A, Action::Repeat));
    assert!(c.l);
    handle_controls(&mut c, InputEvent::Key(Key::A, Action::Release));
    assert!(!c.l);
}

#[test]
fn release_undoes_press() {
    let start = JControls { f: false, b: true, r: false, l: true };
    let mut c = start;
    handle_controls(&mut c, InputEvent::Key(Key::W, Action::Press));
    assert!(c.f);
    handle_controls(&mut c, InputEvent::Key(Key::W, Action::Release));
    assert_eq!(c, start);
}

#[test]
fn same_event_twice_is_once() {
    let mut once = JControls { f: true, b: false, r: true, l: false };
    handle_controls(&mut once, InputEvent::Key(Key::D, Action::Release));
    let mut twice = JControls { f: true, b: false, r: true, l: false };
    handle_controls(&mut twice, InputEvent::Key(Key::D, Action::Release));
    handle_controls(&mut twice, InputEvent::Key(Key::D, Action::Release));
    assert_eq!(once, twice);
}

#[test]
fn other_events_change_nothing() {
    let start = JControls { f: true, b: false, r: true, l: false };
    let mut c = start;
    handle_controls(&mut c, InputEvent::Key(Key::Escape, Action::Press));
    handle_controls(&mut c, InputEvent::Key(Key::Other, Action::Release));
    handle_controls(&mut c, InputEvent::MouseButton(MouseButton::Left, Action::Press));
    handle_controls(&mut c, InputEvent::CursorPos);
    handle_controls(&mut c, InputEvent::Other);
    assert_eq!(c, start);
}

#[test]
fn idle_frame_does_not_move() {
    let plan = player_respond_to_controls(&none());
    assert!(plan.steps.is_empty());
    assert!(!plan.recalculate);
}

#[test]
fn each_key_moves_along_its_axis() {
    let forward = player_respond_to_controls(&JControls { f: true, b: false, r: false, l: false });
    assert_eq!(forward.steps, vec![MoveStep { axis: MoveAxis::Direction, add: true }]);
    assert!(forward.recalculate);
    let back = player_respond_to_controls(&JControls { f: false, b: true, r: false, l: false });
    assert_eq!(back.steps, vec![MoveStep { axis: MoveAxis::Direction, add: false }]);
    let right = player_respond_to_controls(&JControls { f: false, b: false, r: true, l: false });
    assert_eq!(right.steps, vec![MoveStep { axis: MoveAxis::Right, add: false }]);
    let left = player_respond_to_controls(&JControls { f: false, b: false, r: false, l: true });
    assert_eq!(left.steps, vec![MoveStep { axis: MoveAxis::Right, add: true }]);
    assert!(left.recalculate);
}

#[test]
fn all_keys_move_in_fixed_order() {
    let plan = player_respond_to_controls(&JControls { f: true, b: true, r: true, l: true });
    assert_eq!(
        plan.steps,
        vec![
            MoveStep { axis: MoveAxis::Direction, add: true },
            MoveStep { axis: MoveAxis::Direction, add: false },
            MoveStep { axis: MoveAxis::Right, add: false },
            MoveStep { axis: MoveAxis::Right, add: true },
        ]
    );
    assert!(plan.recalculate);
}

#[test]
fn right_and_left_oppose() {
    let plan = player_respond_to_controls(&JControls { f: false, b: false, r: true, l: true });
    assert_eq!(
        plan.steps,
        vec![
            MoveStep { axis: MoveAxis::Right, add: false },
            MoveStep { axis: MoveAxis::Right, add: true },
        ]
    );
}

#[test]
fn last_key_event_decides_each_flag() {
    let events = [
        InputEvent::Key(Key::W, Action::Press),
        InputEvent::Key(Key::A, Action::Press),
        InputEvent::Key(Key::S, Action::Repeat),
        InputEvent::CursorPos,
        InputEvent::Key(Key::W, Action::Release),
        InputEvent::Key(Key::Other, Action::Press),
        InputEvent::Key(Key::S, Action::Repeat),
        InputEvent::MouseButton(MouseButton::Left, Action::Press),
        InputEvent::Key(Key::W, Action::Repeat),
        InputEvent::Key(Key::A, Action::Release),
    ];
    let mut c = JControls::default();
    for e in events {
        handle_controls(&mut c, e);
    }
    assert_eq!(c, JControls { f: true, b: true, r: false, l: false });
}

#[test]
fn flag_without_events_keeps_start() {
    let mut c = JControls { f: false, b: false, r: true, l: false };
    for e in [InputEvent::Key(Key::W, Action::Press), InputEvent::Key(Key::W, Action::Release)] {
        handle_controls(&mut c, e);
    }
    assert_eq!(c, JControls { f: false, b: false, r: true, l: false });
}
