use mio_compositor::button_events::{Gesture, PendingFloatingChord};
use mio_compositor::button_step::{
    pointer_motion_step, ActiveConstraint, PointerMotion,
    pointer_button_finish, pointer_button_step, ButtonAction, ButtonEnd, ButtonEvent, ButtonGestureState,
    CameraOutcome, EdgePlacement, WindowDrag,
};
use mio_compositor::direction::Direction;
use mio_compositor::gestures::{PendingCloseClick, PendingPointerClick};
use mio_compositor::mouse::MouseConfig;
use mio_compositor::pointer::{ButtonState, BTN_LEFT, BTN_MIDDLE, BTN_RIGHT};

fn idle() -> ButtonGestureState {
    ButtonGestureState {
        held: 0,
        closing_chord: false,
        floating_chord: None,
        pending_click: None,
        pending_close_click: None,
        edge_placement: None,
        resizing: false,
        suppressed_drag_releases: 0,
        drag: None,
        suppressed_focus_click: false,
        locked: false,
    }
}

fn event(button: u32, state: ButtonState) -> ButtonEvent {
    ButtonEvent {
        button,
        state,
        time_ns: 1_000_000_000,
        near_pending_click: true,
        near_close_click: true,
        near_drag_start: true,
        window: Some(7),
        focused: Some(7),
        focus_allowed: true,
    }
}

#[test]
fn a_left_press_tries_resize_then_hands_on_to_the_camera() {
    let mouse = MouseConfig::default();
    let (state, actions) = pointer_button_step(&idle(), &mouse, &event(BTN_LEFT, ButtonState::Pressed));
    assert_eq!(state.held, 1);
    assert_eq!(actions, vec![ButtonAction::TryGesture(Gesture::ResizeWindow), ButtonAction::HandOn { camera: true }]);
}

#[test]
fn the_move_chord_is_tried_only_with_its_first_button_held() {
    let mouse = MouseConfig::default();
    let held_right = ButtonGestureState { held: 2, ..idle() };
    let (state, actions) = pointer_button_step(&held_right, &mouse, &event(BTN_LEFT, ButtonState::Pressed));
    assert_eq!(state.held, 3);
    assert_eq!(actions, vec![ButtonAction::TryGesture(Gesture::DragWindow), ButtonAction::HandOn { camera: true }]);
}

#[test]
fn a_locked_session_starts_no_gesture() {
    let mouse = MouseConfig::default();
    let locked = ButtonGestureState { locked: true, held: 2, ..idle() };
    let (_, actions) = pointer_button_step(&locked, &mouse, &event(BTN_LEFT, ButtonState::Pressed));
    assert_eq!(actions, vec![ButtonAction::HandOn { camera: false }]);
}

#[test]
fn a_floating_chord_takes_both_releases_and_toggles_once() {
    let mouse = MouseConfig::default();
    let chord = ButtonGestureState {
        held: 6,
        floating_chord: Some(PendingFloatingChord { id: 4, buttons_held: 6 }),
        ..idle()
    };
    let (after_first, first) = pointer_button_step(&chord, &mouse, &event(BTN_MIDDLE, ButtonState::Released));
    assert_eq!(first, vec![ButtonAction::ToggleFloating(4)]);
    let (after_second, second) = pointer_button_step(&after_first, &mouse, &event(BTN_RIGHT, ButtonState::Released));
    assert!(second.is_empty());
    assert_eq!(after_second.floating_chord, None);
    assert_eq!(after_second.held, 0);
}

#[test]
fn ending_a_drag_swallows_the_other_chord_release() {
    let mouse = MouseConfig::default();
    let dragging = ButtonGestureState { held: 3, drag: Some(WindowDrag { id: 9, buttons: 3 }), ..idle() };
    let mut release = event(BTN_LEFT, ButtonState::Released);
    release.near_drag_start = false;
    let (after, actions) = pointer_button_step(&dragging, &mouse, &release);
    assert_eq!(actions, vec![ButtonAction::FinishDrag(9)]);
    assert_eq!(after.drag, None);
    assert_eq!(after.suppressed_drag_releases, 2);
    assert_eq!(after.pending_close_click, None);
    let (last, swallowed) = pointer_button_step(&after, &mouse, &event(BTN_RIGHT, ButtonState::Released));
    assert!(swallowed.is_empty());
    assert_eq!(last.suppressed_drag_releases, 0);
}

#[test]
fn a_short_drag_release_starts_a_close_click() {
    let mouse = MouseConfig::default();
    let dragging = ButtonGestureState { held: 3, drag: Some(WindowDrag { id: 9, buttons: 3 }), ..idle() };
    let (after, _) = pointer_button_step(&dragging, &mouse, &event(BTN_LEFT, ButtonState::Released));
    assert_eq!(
        after.pending_close_click,
        Some(PendingCloseClick { id: 9, deadline_ns: 1_275_000_000, clicks: 1 })
    );
    let (done, actions) = pointer_button_step(&after, &mouse, &event(BTN_RIGHT, ButtonState::Released));
    assert_eq!(actions, vec![ButtonAction::CompleteCloseClick(PendingCloseClick { id: 9, deadline_ns: 1_275_000_000, clicks: 1 })]);
    assert_eq!(done.pending_close_click, None);
}

#[test]
fn edge_placement_and_closing_chord_and_pending_click() {
    let mouse = MouseConfig::default();
    let placing = ButtonGestureState {
        held: 4,
        edge_placement: Some(EdgePlacement { direction: Direction::Left, button: BTN_MIDDLE }),
        ..idle()
    };
    let (after, actions) = pointer_button_step(&placing, &mouse, &event(BTN_MIDDLE, ButtonState::Released));
    assert_eq!(actions, vec![ButtonAction::ApplyPlacement(Direction::Left)]);
    assert_eq!(after.edge_placement, None);

    let closing = ButtonGestureState { held: 3, closing_chord: true, ..idle() };
    let (still, none) = pointer_button_step(&closing, &mouse, &event(BTN_LEFT, ButtonState::Released));
    assert!(none.is_empty() && still.closing_chord);
    let (over, _) = pointer_button_step(&still, &mouse, &event(BTN_RIGHT, ButtonState::Released));
    assert!(!over.closing_chord);

    let click = PendingPointerClick { button: BTN_RIGHT, window: Some(7), deadline_ns: 2, clicks: 1 };
    let waiting = ButtonGestureState { pending_click: Some(click), ..idle() };
    let (replayed, actions) = pointer_button_step(&waiting, &mouse, &event(BTN_RIGHT, ButtonState::Pressed));
    assert_eq!(actions[0], ButtonAction::ReplayPendingClick(click));
    assert_eq!(replayed.pending_click, None);
}

#[test]
fn a_left_press_on_an_unfocused_window_only_focuses_it() {
    let mut press = event(BTN_LEFT, ButtonState::Pressed);
    press.focused = Some(1);
    let (after, finish) = pointer_button_finish(&idle(), &press, CameraOutcome::Forward);
    assert!(finish.focus_under_pointer);
    assert_eq!(finish.end, ButtonEnd::FocusClick);
    assert!(after.suppressed_focus_click);
    let mouse = MouseConfig::default();
    let (done, actions) = pointer_button_step(&after, &mouse, &event(BTN_LEFT, ButtonState::Released));
    assert!(actions.is_empty());
    assert!(!done.suppressed_focus_click);

    let (_, forward) = pointer_button_finish(&idle(), &event(BTN_LEFT, ButtonState::Pressed), CameraOutcome::Forward);
    assert_eq!(forward.end, ButtonEnd::Forward);
    let (_, replay) = pointer_button_finish(
        &idle(),
        &event(BTN_RIGHT, ButtonState::Released),
        CameraOutcome::ReplayClick { window: Some(3) },
    );
    assert_eq!(replay.end, ButtonEnd::ReplayClick(Some(3)));
    assert!(replay.focus_under_pointer);
    let (_, taken) = pointer_button_finish(&idle(), &press, CameraOutcome::Consumed);
    assert_eq!(taken.end, ButtonEnd::Consumed);
}

fn still() -> PointerMotion {
    PointerMotion {
        far_from_pending_click: false,
        far_from_close_click: false,
        past_camera_threshold: false,
        constraint: ActiveConstraint::Unconstrained,
    }
}

#[test]
fn motion_replays_far_clicks_and_starts_camera_drags() {
    let click = PendingPointerClick { button: BTN_RIGHT, window: Some(7), deadline_ns: 9, clicks: 1 };
    let close = PendingCloseClick { id: 7, deadline_ns: 9, clicks: 1 };
    let waiting = ButtonGestureState { pending_click: Some(click), pending_close_click: Some(close), ..idle() };
    let (after, step) = pointer_motion_step(&waiting, None, &PointerMotion { far_from_pending_click: true, far_from_close_click: true, ..still() });
    assert_eq!(step.replay_click, Some(click));
    assert_eq!(after.pending_click, None);
    assert_eq!(after.pending_close_click, None);

    let (_, near) = pointer_motion_step(&idle(), Some(false), &still());
    assert_eq!(near.camera_drag, Some(false));
    assert!(!near.pan_camera);
    let (_, moved) = pointer_motion_step(&idle(), Some(false), &PointerMotion { past_camera_threshold: true, ..still() });
    assert_eq!(moved.camera_drag, Some(true));
    assert!(moved.pan_camera);

    let dragging = ButtonGestureState { drag: Some(WindowDrag { id: 1, buttons: 3 }), ..idle() };
    let (_, window_drag) = pointer_motion_step(&dragging, Some(true), &still());
    assert!(!window_drag.pan_camera);

    let locked = PointerMotion { constraint: ActiveConstraint::Locked, ..still() };
    assert!(pointer_motion_step(&idle(), None, &locked).1.keep_position);
    assert!(!pointer_motion_step(&idle(), Some(true), &locked).1.keep_position);
    let inside = PointerMotion { constraint: ActiveConstraint::Confined { same_surface: true, inside_region: true }, ..still() };
    assert!(!pointer_motion_step(&idle(), None, &inside).1.keep_position);
    let outside = PointerMotion { constraint: ActiveConstraint::Confined { same_surface: true, inside_region: false }, ..still() };
    assert!(pointer_motion_step(&idle(), None, &outside).1.keep_position);
}
