//! The RemoteDesktop portal calls that each kind of client input turns into.
//!
//! Coordinates are normalized floating-point values that the caller converts; the plans here
//! only say which calls are made, in which order, with which buttons, keys and touch slots,
//! and whether a failed call ends the plan.

use vstd::prelude::*;
use crate::daemon::virtual_monitor::DisplayMode;

verus! {

/// `BTN_LEFT`.
pub const BTN_LEFT: i32 = 272;

/// `BTN_RIGHT`.
pub const BTN_RIGHT: i32 = 273;

/// `KEY_LEFTMETA` (Super).
pub const KEY_LEFTMETA: i32 = 125;

/// `KEY_LEFTCTRL`.
pub const KEY_LEFTCTRL: i32 = 29;

/// `KEY_LEFTALT`.
pub const KEY_LEFTALT: i32 = 56;

/// `KEY_LEFT`.
pub const KEY_LEFT: i32 = 105;

/// `KEY_RIGHT`.
pub const KEY_RIGHT: i32 = 106;

/// Whether a button or key goes down or up.
#[derive(Clone, Copy, Debug, PartialEq, Eq, Structural)]
pub enum KeyState {
    /// Released.
    Released,
    /// Pressed.
    Pressed,
}

/// One RemoteDesktop portal call.
#[derive(Clone, Copy, Debug, PartialEq, Eq, Structural)]
pub enum InputStep {
    /// Absolute pointer motion to the event's position.
    PointerMotion,
    /// A pointer button.
    PointerButton(i32, KeyState),
    /// A keyboard keycode.
    Keycode(i32, KeyState),
    /// A touch contact going down at the event's position.
    TouchDown(u32),
    /// A touch contact moving to the event's position.
    TouchMotion(u32),
    /// A touch contact lifting.
    TouchUp(u32),
    /// Scroll by the event's deltas.
    Axis,
}

/// The calls an input event turns into.
#[derive(Clone, Debug)]
pub struct InputPlan {
    /// The calls, in order.
    pub steps: Vec<InputStep>,
    /// Whether a failed call ends the plan and its error is reported; otherwise failures are
    /// logged and the remaining calls are made.
    pub stop_on_error: bool,
}

/// A touch contact going down: on `Extend` it becomes pointer motion and a left-button press
/// (the touch API rejects every position on a virtual output); on `Mirror` a touch-down.
pub open spec fn touch_down_spec(mode: DisplayMode, slot: u32) -> (Seq<InputStep>, bool) {
    match mode {
        DisplayMode::Extend => (
            seq![InputStep::PointerMotion, InputStep::PointerButton(BTN_LEFT, KeyState::Pressed)],
            true,
        ),
        DisplayMode::Mirror => (seq![InputStep::TouchDown(slot)], false),
    }
}

/// A touch contact moving: pointer motion on `Extend`, touch motion on `Mirror`.
pub open spec fn touch_motion_spec(mode: DisplayMode, slot: u32) -> (Seq<InputStep>, bool) {
    match mode {
        DisplayMode::Extend => (seq![InputStep::PointerMotion], true),
        DisplayMode::Mirror => (seq![InputStep::TouchMotion(slot)], false),
    }
}

/// A touch contact lifting: on `Extend` the pointer moves to the lift-off point before the
/// left button is released (a release lands wherever the pointer is); on `Mirror` a touch-up.
pub open spec fn touch_up_spec(mode: DisplayMode, slot: u32) -> (Seq<InputStep>, bool) {
    match mode {
        DisplayMode::Extend => (
            seq![InputStep::PointerMotion, InputStep::PointerButton(BTN_LEFT, KeyState::Released)],
            true,
        ),
        DisplayMode::Mirror => (seq![InputStep::TouchUp(slot)], false),
    }
}

fn plan(steps: Vec<InputStep>, stop_on_error: bool) -> (r: InputPlan)
    ensures
        r.steps == steps,
        r.stop_on_error == stop_on_error,
{
    InputPlan { steps, stop_on_error }
}

/// The calls for a touch contact going down.
pub fn touch_down_plan(mode: DisplayMode, slot: u32) -> (r: InputPlan)
    ensures
        (r.steps@, r.stop_on_error) == touch_down_spec(mode, slot),
{
    let r = match mode {
        DisplayMode::Extend => plan(
            vec![InputStep::PointerMotion, InputStep::PointerButton(BTN_LEFT, KeyState::Pressed)],
            true,
        ),
        DisplayMode::Mirror => plan(vec![InputStep::TouchDown(slot)], false),
    };
    assert(r.steps@ =~= touch_down_spec(mode, slot).0);
    r
}

/// The calls for a touch contact moving.
pub fn touch_motion_plan(mode: DisplayMode, slot: u32) -> (r: InputPlan)
    ensures
        (r.steps@, r.stop_on_error) == touch_motion_spec(mode, slot),
{
    let r = match mode {
        DisplayMode::Extend => plan(vec![InputStep::PointerMotion], true),
        DisplayMode::Mirror => plan(vec![InputStep::TouchMotion(slot)], false),
    };
    assert(r.steps@ =~= touch_motion_spec(mode, slot).0);
    r
}

/// The calls for a touch contact lifting.
pub fn touch_up_plan(mode: DisplayMode, slot: u32) -> (r: InputPlan)
    ensures
        (r.steps@, r.stop_on_error) == touch_up_spec(mode, slot),
{
    let r = match mode {
        DisplayMode::Extend => plan(
            vec![InputStep::PointerMotion, InputStep::PointerButton(BTN_LEFT, KeyState::Released)],
            true,
        ),
        DisplayMode::Mirror => plan(vec![InputStep::TouchUp(slot)], false),
    };
    assert(r.steps@ =~= touch_up_spec(mode, slot).0);
    r
}

/// A stylus touching down: pointer motion, then a left-button press (a stylus drives the
/// visible cursor, which only the pointer device does).
pub fn stylus_down_plan() -> (r: InputPlan)
    ensures
        r.steps@ == seq![InputStep::PointerMotion, InputStep::PointerButton(BTN_LEFT, KeyState::Pressed)],
        r.stop_on_error,
{
    let r = plan(
        vec![InputStep::PointerMotion, InputStep::PointerButton(BTN_LEFT, KeyState::Pressed)],
        true,
    );
    assert(r.steps@ =~= seq![InputStep::PointerMotion, InputStep::PointerButton(BTN_LEFT, KeyState::Pressed)]);
    r
}

/// A stylus moving: pointer motion.
pub fn stylus_move_plan() -> (r: InputPlan)
    ensures
        r.steps@ == seq![InputStep::PointerMotion],
        r.stop_on_error,
{
    let r = plan(vec![InputStep::PointerMotion], true);
    assert(r.steps@ =~= seq![InputStep::PointerMotion]);
    r
}

/// A stylus lifting: pointer motion to the lift-off point, then the left-button release.
pub fn stylus_up_plan() -> (r: InputPlan)
    ensures
        r.steps@ == seq![InputStep::PointerMotion, InputStep::PointerButton(BTN_LEFT, KeyState::Released)],
        r.stop_on_error,
{
    let r = plan(
        vec![InputStep::PointerMotion, InputStep::PointerButton(BTN_LEFT, KeyState::Released)],
        true,
    );
    assert(r.steps@ =~= seq![InputStep::PointerMotion, InputStep::PointerButton(BTN_LEFT, KeyState::Released)]);
    r
}

/// A right click: release any held left button, move to the position, press and release
/// the right button. Failures are ignored.
pub fn right_click_plan() -> (r: InputPlan)
    ensures
        r.steps@ == seq![
            InputStep::PointerButton(BTN_LEFT, KeyState::Released),
            InputStep::PointerMotion,
            InputStep::PointerButton(BTN_RIGHT, KeyState::Pressed),
            InputStep::PointerButton(BTN_RIGHT, KeyState::Released),
        ],
        !r.stop_on_error,
{
    let r = plan(
        vec![
            InputStep::PointerButton(BTN_LEFT, KeyState::Released),
            InputStep::PointerMotion,
            InputStep::PointerButton(BTN_RIGHT, KeyState::Pressed),
            InputStep::PointerButton(BTN_RIGHT, KeyState::Released),
        ],
        false,
    );
    assert(r.steps@ =~= seq![
        InputStep::PointerButton(BTN_LEFT, KeyState::Released),
        InputStep::PointerMotion,
        InputStep::PointerButton(BTN_RIGHT, KeyState::Pressed),
        InputStep::PointerButton(BTN_RIGHT, KeyState::Released),
    ]);
    r
}

/// The GNOME Overview toggle: release any held left button, then tap Super. Failures are
/// ignored.
pub fn overview_toggle_plan() -> (r: InputPlan)
    ensures
        r.steps@ == seq![
            InputStep::PointerButton(BTN_LEFT, KeyState::Released),
            InputStep::Keycode(KEY_LEFTMETA, KeyState::Pressed),
            InputStep::Keycode(KEY_LEFTMETA, KeyState::Released),
        ],
        !r.stop_on_error,
{
    let r = plan(
        vec![
            InputStep::PointerButton(BTN_LEFT, KeyState::Released),
            InputStep::Keycode(KEY_LEFTMETA, KeyState::Pressed),
            InputStep::Keycode(KEY_LEFTMETA, KeyState::Released),
        ],
        false,
    );
    assert(r.steps@ =~= seq![
        InputStep::PointerButton(BTN_LEFT, KeyState::Released),
        InputStep::Keycode(KEY_LEFTMETA, KeyState::Pressed),
        InputStep::Keycode(KEY_LEFTMETA, KeyState::Released),
    ]);
    r
}

/// GNOME's "switch to workspace on the left/right" shortcut: Ctrl and Alt held around a tap
/// of the arrow key, released in reverse order. Failures are ignored.
pub open spec fn workspace_switch_spec(right: bool) -> Seq<InputStep> {
    let arrow = if right { KEY_RIGHT } else { KEY_LEFT };
    seq![
        InputStep::Keycode(KEY_LEFTCTRL, KeyState::Pressed),
        InputStep::Keycode(KEY_LEFTALT, KeyState::Pressed),
        InputStep::Keycode(arrow, KeyState::Pressed),
        InputStep::Keycode(arrow, KeyState::Released),
        InputStep::Keycode(KEY_LEFTALT, KeyState::Released),
        InputStep::Keycode(KEY_LEFTCTRL, KeyState::Released),
    ]
}

/// The calls for a workspace switch to the right (`right`) or left.
pub fn workspace_switch_plan(right: bool) -> (r: InputPlan)
    ensures
        r.steps@ == workspace_switch_spec(right),
        !r.stop_on_error,
{
    let arrow = if right {
        KEY_RIGHT
    } else {
        KEY_LEFT
    };
    let r = plan(
        vec![
            InputStep::Keycode(KEY_LEFTCTRL, KeyState::Pressed),
            InputStep::Keycode(KEY_LEFTALT, KeyState::Pressed),
            InputStep::Keycode(arrow, KeyState::Pressed),
            InputStep::Keycode(arrow, KeyState::Released),
            InputStep::Keycode(KEY_LEFTALT, KeyState::Released),
            InputStep::Keycode(KEY_LEFTCTRL, KeyState::Released),
        ],
        false,
    );
    assert(r.steps@ =~= workspace_switch_spec(right));
    r
}

/// The number of times each key or button is pressed in a plan, minus the times it is
/// released.
pub open spec fn net_presses(steps: Seq<InputStep>, code: i32, keyboard: bool) -> int
    decreases steps.len(),
{
    if steps.len() == 0 {
        0
    } else {
        let d = match steps.last() {
            InputStep::Keycode(c, s) => if keyboard && c == code {
                if s == KeyState::Pressed { 1int } else { -1int }
            } else {
                0int
            },
            InputStep::PointerButton(c, s) => if !keyboard && c == code {
                if s == KeyState::Pressed { 1int } else { -1int }
            } else {
                0int
            },
            _ => 0int,
        };
        net_presses(steps.drop_last(), code, keyboard) + d
    }
}

/// Keyboard shortcuts leave no key held down: every key pressed by the Overview toggle or a
/// workspace switch is released again within the same plan.
pub proof fn law_shortcuts_release_every_key(right: bool, code: i32)
    ensures
        net_presses(workspace_switch_spec(right), code, true) == 0,
        net_presses(
            seq![
                InputStep::PointerButton(BTN_LEFT, KeyState::Released),
                InputStep::Keycode(KEY_LEFTMETA, KeyState::Pressed),
                InputStep::Keycode(KEY_LEFTMETA, KeyState::Released),
            ],
            code,
            true,
        ) == 0,
{
    reveal_with_fuel(net_presses, 7);
}

/// A touch or stylus contact that goes down and comes up again leaves the left button
/// released: the press of the down plan is matched by the release of the up plan.
pub proof fn law_contact_press_is_released(mode: DisplayMode, slot: u32)
    ensures
        net_presses(touch_down_spec(mode, slot).0 + touch_up_spec(mode, slot).0, BTN_LEFT, false)
            == 0,
{
    reveal_with_fuel(net_presses, 5);
    let s = touch_down_spec(mode, slot).0 + touch_up_spec(mode, slot).0;
    match mode {
        DisplayMode::Extend => {
            assert(s.drop_last() =~= seq![
                InputStep::PointerMotion,
                InputStep::PointerButton(BTN_LEFT, KeyState::Pressed),
                InputStep::PointerMotion,
            ]);
            assert(s.drop_last().drop_last() =~= seq![
                InputStep::PointerMotion,
                InputStep::PointerButton(BTN_LEFT, KeyState::Pressed),
            ]);
            assert(s.drop_last().drop_last().drop_last() =~= seq![InputStep::PointerMotion]);
            assert(s.drop_last().drop_last().drop_last().drop_last() =~= Seq::<InputStep>::empty());
        },
        DisplayMode::Mirror => {
            assert(s.drop_last() =~= seq![InputStep::TouchDown(slot)]);
            assert(s.drop_last().drop_last() =~= Seq::<InputStep>::empty());
        },
    }
}

/// A scroll event: one axis call with the event's deltas. Failures are ignored.
pub fn scroll_plan() -> (r: InputPlan)
    ensures
        r.steps@ == seq![InputStep::Axis],
        !r.stop_on_error,
{
    let r = plan(vec![InputStep::Axis], false);
    assert(r.steps@ =~= seq![InputStep::Axis]);
    r
}

/// The calls of `p` as made for a display with or without a portal session: with one, the
/// plan as it is; without one (before the display is created, or while it is torn down) no
/// call at all, so every input event is a harmless no-op that succeeds.
pub fn for_session(p: InputPlan, has_session: bool) -> (r: InputPlan)
    ensures
        has_session ==> r.steps@ == p.steps@ && r.stop_on_error == p.stop_on_error,
        !has_session ==> r.steps@.len() == 0,
{
    if has_session {
        p
    } else {
        let r = plan(Vec::new(), p.stop_on_error);
        assert(r.steps@.len() == 0);
        r
    }
}

/// On an extended (virtual) output, touch never goes through the portal's touch API, which
/// rejects every position there: a contact going down, moving or lifting only moves the
/// pointer and presses or releases the left button. On a mirrored output it is the touch API
/// with the contact's own slot.
pub proof fn law_touch_routing(slot: u32)
    ensures
        forall|i: int| 0 <= i < touch_down_spec(DisplayMode::Extend, slot).0.len() ==> !(#[trigger] touch_down_spec(DisplayMode::Extend, slot).0[i] is TouchDown),
        forall|i: int| 0 <= i < touch_motion_spec(DisplayMode::Extend, slot).0.len() ==> (#[trigger] touch_motion_spec(DisplayMode::Extend, slot).0[i]) == InputStep::PointerMotion,
        forall|i: int| 0 <= i < touch_up_spec(DisplayMode::Extend, slot).0.len() ==> !(#[trigger] touch_up_spec(DisplayMode::Extend, slot).0[i] is TouchUp),
        touch_down_spec(DisplayMode::Mirror, slot).0 == seq![InputStep::TouchDown(slot)],
        touch_motion_spec(DisplayMode::Mirror, slot).0 == seq![InputStep::TouchMotion(slot)],
        touch_up_spec(DisplayMode::Mirror, slot).0 == seq![InputStep::TouchUp(slot)],
        touch_up_spec(DisplayMode::Extend, slot).0.last() == InputStep::PointerButton(
            BTN_LEFT,
            KeyState::Released,
        ),
        touch_up_spec(DisplayMode::Extend, slot).0[0] == InputStep::PointerMotion,
{
}

} // verus!
