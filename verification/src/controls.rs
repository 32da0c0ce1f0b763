use vstd::prelude::*;

use crate::input::{action_holds, is_held, Action, InputEvent, Key, MouseButton};

verus! {

/// Which of the four movement keys are held: forward (W), back (S),
/// right (D) and left (A).
#[derive(Clone, Copy, Debug, PartialEq, Eq, Structural)]
pub struct JControls {
    pub f: bool,
    pub b: bool,
    pub r: bool,
    pub l: bool,
}

/// No key is held.
pub open spec fn no_controls() -> JControls {
    JControls { f: false, b: false, r: false, l: false }
}

impl Default for JControls {
    fn default() -> (c: Self)
        ensures
            c == no_controls(),
    {
        JControls { f: false, b: false, r: false, l: false }
    }
}

/// The controls after one window event: a W, S, D or A key event sets
/// that key's flag to whether the key is now held; every other event
/// leaves the controls as they were.
pub open spec fn controls_after(c: JControls, event: InputEvent) -> JControls {
    match event {
        InputEvent::Key(Key::W, a) => JControls { f: is_held(a), ..c },
        InputEvent::Key(Key::S, a) => JControls { b: is_held(a), ..c },
        InputEvent::Key(Key::D, a) => JControls { r: is_held(a), ..c },
        InputEvent::Key(Key::A, a) => JControls { l: is_held(a), ..c },
        _ => c,
    }
}

/// Records a window event in the movement controls.
pub fn handle_controls(controls: &mut JControls, event: InputEvent)
    ensures
        *final(controls) == controls_after(*old(controls), event),
        event matches InputEvent::Key(Key::W, a) ==> *final(controls) == (JControls {
            f: a == Action::Press || a == Action::Repeat,
            ..*old(controls)
        }),
        event matches InputEvent::Key(Key::S, a) ==> *final(controls) == (JControls {
            b: a == Action::Press || a == Action::Repeat,
            ..*old(controls)
        }),
        event matches InputEvent::Key(Key::D, a) ==> *final(controls) == (JControls {
            r: a == Action::Press || a == Action::Repeat,
            ..*old(controls)
        }),
        event matches InputEvent::Key(Key::A, a) ==> *final(controls) == (JControls {
            l: a == Action::Press || a == Action::Repeat,
            ..*old(controls)
        }),
        !(event matches InputEvent::Key(Key::W, _)) && !(event matches InputEvent::Key(Key::S, _))
            && !(event matches InputEvent::Key(Key::D, _)) && !(event matches InputEvent::Key(
            Key::A,
            _,
        )) ==> *final(controls) == *old(controls),
{
    match event {
        InputEvent::Key(key, action) => {
            let held = action_holds(action);
            match key {
                Key::W => { controls.f = held; },
                Key::S => { controls.b = held; },
                Key::D => { controls.r = held; },
                Key::A => { controls.l = held; },
                _ => {},
            }
        },
        _ => {},
    }
}

/// The camera vector a movement step follows.
#[derive(Clone, Copy, Debug, PartialEq, Eq, Structural)]
pub enum MoveAxis {
    /// The view direction, flattened onto the ground.
    Direction,
    /// The camera's right vector, flattened onto the ground.
    Right,
}

/// One movement step: the position moves along `axis` times the frame
/// time, added when `add` holds and subtracted otherwise.
#[derive(Clone, Copy, Debug, PartialEq, Eq, Structural)]
pub struct MoveStep {
    pub axis: MoveAxis,
    pub add: bool,
}

/// What a frame does with the held keys: the steps, in the order they are
/// applied, and whether the camera matrices are then recomputed.
pub struct MovePlan {
    pub steps: Vec<MoveStep>,
    pub recalculate: bool,
}

pub open spec fn step_if(held: bool, axis: MoveAxis, add: bool) -> Seq<MoveStep> {
    if held {
        seq![MoveStep { axis, add }]
    } else {
        Seq::empty()
    }
}

/// The steps for the held keys, in the order forward, back, right, left:
/// forward adds the direction, back subtracts it, right subtracts the
/// right vector and left adds it.
pub open spec fn planned_steps(c: JControls) -> Seq<MoveStep> {
    step_if(c.f, MoveAxis::Direction, true)
        + step_if(c.b, MoveAxis::Direction, false)
        + step_if(c.r, MoveAxis::Right, false)
        + step_if(c.l, MoveAxis::Right, true)
}

/// Whether any movement key is held.
pub open spec fn any_held(c: JControls) -> bool {
    c.f || c.b || c.r || c.l
}

/// The number of movement keys held.
pub open spec fn held_count(c: JControls) -> int {
    (if c.f { 1int } else { 0 }) + (if c.b { 1int } else { 0 }) + (if c.r { 1int } else { 0 }) + (
    if c.l { 1int } else { 0 })
}

/// Each held key contributes its own fixed step, whatever the other keys:
/// W a step along the direction that adds, S one that subtracts, D one
/// along the right vector that subtracts, A one that adds; there is one
/// step per held key and none for a key not held.
pub proof fn lemma_each_key_its_own_step(c: JControls)
    ensures
        planned_steps(c).contains(MoveStep { axis: MoveAxis::Direction, add: true }) == c.f,
        planned_steps(c).contains(MoveStep { axis: MoveAxis::Direction, add: false }) == c.b,
        planned_steps(c).contains(MoveStep { axis: MoveAxis::Right, add: false }) == c.r,
        planned_steps(c).contains(MoveStep { axis: MoveAxis::Right, add: true }) == c.l,
        planned_steps(c).len() == held_count(c),
{
    let s = planned_steps(c);
    let fw = MoveStep { axis: MoveAxis::Direction, add: true };
    let bw = MoveStep { axis: MoveAxis::Direction, add: false };
    let rt = MoveStep { axis: MoveAxis::Right, add: false };
    let lt = MoveStep { axis: MoveAxis::Right, add: true };
    let n0: int = step_if(c.f, MoveAxis::Direction, true).len() as int;
    let n1: int = n0 + step_if(c.b, MoveAxis::Direction, false).len();
    let n2: int = n1 + step_if(c.r, MoveAxis::Right, false).len();
    assert(forall|i: int| 0 <= i < n0 ==> s[i] == fw);
    assert(forall|i: int| n0 <= i < n1 ==> s[i] == bw);
    assert(forall|i: int| n1 <= i < n2 ==> s[i] == rt);
    assert(forall|i: int| n2 <= i < s.len() ==> s[i] == lt);
    if c.f {
        assert(s[0] == fw);
    }
    if c.b {
        assert(s[n0] == bw);
    }
    if c.r {
        assert(s[n1] == rt);
    }
    if c.l {
        assert(s[n2] == lt);
    }
}

/// Decides how the player moves this frame from the held keys.
pub fn player_respond_to_controls(controls: &JControls) -> (plan: MovePlan)
    ensures
        plan.steps@ == planned_steps(*controls),
        plan.recalculate == any_held(*controls),
        plan.steps@.contains(MoveStep { axis: MoveAxis::Direction, add: true }) == controls.f,
        plan.steps@.contains(MoveStep { axis: MoveAxis::Direction, add: false }) == controls.b,
        plan.steps@.contains(MoveStep { axis: MoveAxis::Right, add: false }) == controls.r,
        plan.steps@.contains(MoveStep { axis: MoveAxis::Right, add: true }) == controls.l,
        plan.steps@.len() == held_count(*controls),
        plan.recalculate == (controls.f || controls.b || controls.r || controls.l),
{
    let mut steps: Vec<MoveStep> = Vec::new();
    if controls.f {
        steps.push(MoveStep { axis: MoveAxis::Direction, add: true });
    }
    let ghost s1 = steps@;
    if controls.b {
        steps.push(MoveStep { axis: MoveAxis::Direction, add: false });
    }
    let ghost s2 = steps@;
    if controls.r {
        steps.push(MoveStep { axis: MoveAxis::Right, add: false });
    }
    let ghost s3 = steps@;
    if controls.l {
        steps.push(MoveStep { axis: MoveAxis::Right, add: true });
    }
    assert(s1 =~= step_if(controls.f, MoveAxis::Direction, true));
    assert(s2 =~= s1 + step_if(controls.b, MoveAxis::Direction, false));
    assert(s3 =~= s2 + step_if(controls.r, MoveAxis::Right, false));
    assert(steps@ =~= s3 + step_if(controls.l, MoveAxis::Right, true));
    proof {
        lemma_each_key_its_own_step(*controls);
    }
    MovePlan { steps, recalculate: controls.f || controls.b || controls.r || controls.l }
}

/// Applying the same event twice leaves the controls as applying it once.
pub proof fn lemma_event_idempotent(c: JControls, event: InputEvent)
    ensures
        controls_after(controls_after(c, event), event) == controls_after(c, event),
{
}

/// Releasing a key that was pressed from a state where it was not held
/// restores the controls to that state.
pub proof fn lemma_release_undoes_press(c: JControls, key: Key)
    requires
        key == Key::W ==> !c.f,
        key == Key::S ==> !c.b,
        key == Key::D ==> !c.r,
        key == Key::A ==> !c.l,
    ensures
        controls_after(
            controls_after(c, InputEvent::Key(key, Action::Press)),
            InputEvent::Key(key, Action::Release),
        ) == c,
{
}

/// A key event changes only the flag of its own key.
pub proof fn lemma_key_event_touches_own_flag(c: JControls, key: Key, a: Action)
    ensures
        ({
            let d = controls_after(c, InputEvent::Key(key, a));
            &&& key != Key::W ==> d.f == c.f
            &&& key != Key::S ==> d.b == c.b
            &&& key != Key::D ==> d.r == c.r
            &&& key != Key::A ==> d.l == c.l
        }),
{
}

/// The camera is recomputed exactly when the frame moves the player.
pub proof fn lemma_recalculate_iff_moving(c: JControls)
    ensures
        any_held(c) <==> planned_steps(c).len() > 0,
        planned_steps(c).len() <= 4,
{
}

/// With no key held, the player does not move.
pub proof fn lemma_idle_plan_is_empty()
    ensures
        planned_steps(no_controls()) =~= Seq::<MoveStep>::empty(),
        !any_held(no_controls()),
{
}

/// Holding forward and back together, or right and left together, gives
/// steps along the same axis in opposite senses.
pub proof fn lemma_opposite_keys_oppose(c: JControls)
    ensures
        (c.f && c.b && !c.r && !c.l) ==> planned_steps(c) =~= seq![
            MoveStep { axis: MoveAxis::Direction, add: true },
            MoveStep { axis: MoveAxis::Direction, add: false },
        ],
        (!c.f && !c.b && c.r && c.l) ==> planned_steps(c) =~= seq![
            MoveStep { axis: MoveAxis::Right, add: false },
            MoveStep { axis: MoveAxis::Right, add: true },
        ],
{
}

/// The controls after a sequence of window events, applied in order.
pub open spec fn controls_after_all(c: JControls, events: Seq<InputEvent>) -> JControls
    decreases events.len(),
{
    if events.len() == 0 {
        c
    } else {
        controls_after(controls_after_all(c, events.drop_last()), events.last())
    }
}

/// The action of the last event of `key` in a sequence, if there is one.
pub open spec fn last_key_action(events: Seq<InputEvent>, key: Key) -> Option<Action>
    decreases events.len(),
{
    if events.len() == 0 {
        None
    } else {
        match events.last() {
            InputEvent::Key(k, a) => if k == key {
                Some(a)
            } else {
                last_key_action(events.drop_last(), key)
            },
            _ => last_key_action(events.drop_last(), key),
        }
    }
}

/// The flag a movement key sets: W forward, S back, D right, A left; other
/// keys have none.
pub open spec fn flag_of(c: JControls, key: Key) -> bool {
    match key {
        Key::W => c.f,
        Key::S => c.b,
        Key::D => c.r,
        Key::A => c.l,
        _ => false,
    }
}

/// Whether a key is one of the four movement keys.
pub open spec fn is_movement_key(key: Key) -> bool {
    key == Key::W || key == Key::S || key == Key::D || key == Key::A
}

/// Over any sequence of events, each movement key's flag is decided by the
/// last event of that key: held after a press or repeat, not held after a
/// release; with no event of that key the flag keeps its starting value.
pub proof fn lemma_last_key_event_decides(c: JControls, events: Seq<InputEvent>, key: Key)
    requires
        is_movement_key(key),
    ensures
        flag_of(controls_after_all(c, events), key) == match last_key_action(events, key) {
            Some(a) => is_held(a),
            None => flag_of(c, key),
        },
    decreases events.len(),
{
    if events.len() > 0 {
        lemma_last_key_event_decides(c, events.drop_last(), key);
    }
}

/// Starting from no key held, a movement key is held after a sequence of
/// events exactly when the sequence has an event of that key and the last
/// one is a press or a repeat.
pub proof fn lemma_held_after_events(events: Seq<InputEvent>, key: Key)
    requires
        is_movement_key(key),
    ensures
        flag_of(controls_after_all(no_controls(), events), key) == (last_key_action(events, key)
            matches Some(a) && is_held(a)),
{
    lemma_last_key_event_decides(no_controls(), events, key);
}

/// A W, S, D or A event sets its key's flag to whether the action is a
/// press or a repeat and leaves the other flags; any other event leaves
/// the controls as they were.
pub proof fn lemma_key_event_sets_flag(c: JControls, key: Key, a: Action)
    ensures
        flag_of(controls_after(c, InputEvent::Key(key, a)), key) == (is_movement_key(key) && (a
            == Action::Press || a == Action::Repeat)),
        !is_movement_key(key) ==> controls_after(c, InputEvent::Key(key, a)) == c,
        controls_after(c, InputEvent::CursorPos) == c,
        controls_after(c, InputEvent::Other) == c,
        forall|b: MouseButton| #[trigger] controls_after(c, InputEvent::MouseButton(b, a)) == c,
{
}

} // verus!
