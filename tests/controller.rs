use bevy_chess::cursor::{CursorState, EngageEdges, GrabMode};
use bevy_chess::frame::{control_frame, FrameInput, FramePlan};
use bevy_chess::movement::{axis, move_axes, MoveAxes, MoveKeys};

fn no_keys() -> MoveKeys {
    MoveKeys { forward: false, back: false, left: false, right: false, up: false, down: false }
}

fn edges(just_pressed: bool, just_released: bool) -> EngageEdges {
    EngageEdges { just_pressed, just_released }
}

fn input(e: EngageEdges, ui_wants_pointer: bool, keys: MoveKeys, mouse_moved: bool) -> FrameInput {
    FrameInput { edges: e, ui_wants_pointer, keys, mouse_moved }
}

#[test]
fn released_cursor_is_free_and_visible() {
    let c = CursorState::released();
    assert_eq!(c, CursorState { grab: GrabMode::Free, visible: true });
    assert!(!c.is_engaged());
}

#[test]
fn press_then_release_locks_then_frees() {
    let mut c = CursorState::released();
    c.apply_edges(edges(true, false), false);
    assert_eq!(c.grab, GrabMode::Locked);
    assert!(!c.visible);
    assert!(c.is_engaged());
    c.apply_edges(edges(false, false), false);
    assert_eq!(c.grab, GrabMode::Locked);
    c.apply_edges(edges(false, true), false);
    assert_eq!(c.grab, GrabMode::Free);
    assert!(c.visible);
    assert!(!c.is_engaged());
}

#[test]
fn release_frees_even_under_overlay() {
    let mut c = CursorState { grab: GrabMode::Locked, visible: false };
    c.apply_edges(edges(false, true), true);
    assert_eq!(c, CursorState::released());
}

#[test]
fn press_under_overlay_is_suppressed() {
    let mut c = CursorState::released();
    c.apply_edges(edges(true, false), true);
    assert_eq!(c, CursorState::released());
    let mut confined = CursorState { grab: GrabMode::Confined, visible: true };
    confined.apply_edges(edges(true, false), true);
    assert_eq!(confined, CursorState { grab: GrabMode::Confined, visible: true });
}

#[test]
fn release_and_press_in_one_frame_ends_locked() {
    let mut c = CursorState { grab: GrabMode::Locked, visible: false };
    c.apply_edges(edges(true, true), false);
    assert_eq!(c, CursorState { grab: GrabMode::Locked, visible: false });
    let mut d = CursorState { grab: GrabMode::Locked, visible: false };
    d.apply_edges(edges(true, true), true);
    assert_eq!(d, CursorState::released());
}

#[test]
fn axis_weights() {
    assert_eq!(axis(false, false), 0);
    assert_eq!(axis(true, false), 1);
    assert_eq!(axis(false, true), -1);
    assert_eq!(axis(true, true), 0);
}

#[test]
fn diagonal_keys_weigh_each_axis_once() {
    let keys = MoveKeys { forward: true, right: true, ..no_keys() };
    assert_eq!(move_axes(keys), MoveAxes { forward: 1, right: 1, up: 0 });
    let keys = MoveKeys { back: true, left: true, down: true, ..no_keys() };
    assert_eq!(move_axes(keys), MoveAxes { forward: -1, right: -1, up: -1 });
    let keys = MoveKeys { up: true, ..no_keys() };
    assert_eq!(move_axes(keys), MoveAxes { forward: 0, right: 0, up: 1 });
}

#[test]
fn all_keys_cancel() {
    let keys = MoveKeys { forward: true, back: true, left: true, right: true, up: true, down: true };
    let a = move_axes(keys);
    assert_eq!(a, MoveAxes { forward: 0, right: 0, up: 0 });
    assert!(a.is_zero());
    assert!(!move_axes(MoveKeys { down: true, ..no_keys() }).is_zero());
}

#[test]
fn idle_when_not_engaged() {
    let mut c = CursorState::released();
    let keys = MoveKeys { forward: true, ..no_keys() };
    let p = control_frame(&mut c, input(edges(false, false), false, keys, true));
    assert_eq!(p, FramePlan::Idle);
    assert_eq!(c, CursorState::released());
}

#[test]
fn engaging_press_plans_motion_in_same_frame() {
    let mut c = CursorState::released();
    let keys = MoveKeys { forward: true, right: true, ..no_keys() };
    let p = control_frame(&mut c, input(edges(true, false), false, keys, true));
    assert!(c.is_engaged());
    assert_eq!(
        p,
        FramePlan::Fly { axes: MoveAxes { forward: 1, right: 1, up: 0 }, translate: true, rotate: true }
    );
}

#[test]
fn still_mouse_does_not_rotate() {
    let mut c = CursorState { grab: GrabMode::Locked, visible: false };
    let p = control_frame(&mut c, input(edges(false, false), false, no_keys(), false));
    assert_eq!(
        p,
        FramePlan::Fly { axes: MoveAxes { forward: 0, right: 0, up: 0 }, translate: false, rotate: false }
    );
}

#[test]
fn suppressed_press_stays_idle() {
    let mut c = CursorState::released();
    let keys = MoveKeys { forward: true, ..no_keys() };
    let p = control_frame(&mut c, input(edges(true, false), true, keys, true));
    assert_eq!(p, FramePlan::Idle);
    assert_eq!(c, CursorState::released());
}

#[test]
fn release_frame_is_idle() {
    let mut c = CursorState { grab: GrabMode::Locked, visible: false };
    let keys = MoveKeys { up: true, ..no_keys() };
    let p = control_frame(&mut c, input(edges(false, true), false, keys, true));
    assert_eq!(p, FramePlan::Idle);
    assert_eq!(c, CursorState::released());
}

#[test]
fn opposing_keys_do_not_translate() {
    let mut c = CursorState { grab: GrabMode::Locked, visible: false };
    let keys = MoveKeys { forward: true, back: true, ..no_keys() };
    let p = control_frame(&mut c, input(edges(false, false), false, keys, true));
    assert_eq!(
        p,
        FramePlan::Fly { axes: MoveAxes { forward: 0, right: 0, up: 0 }, translate: false, rotate: true }
    );
}
