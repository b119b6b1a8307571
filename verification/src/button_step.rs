//! What one pointer button event does: the gestures in progress it ends or
//! continues, the events it swallows, the gestures it may start, and
//! whether it ends with a focus change and the client. Distances and the
//! windows under the pointer are measured by the caller; whether a gesture
//! that may start really starts (there may be no window to drag) is decided
//! outside, in the order given.

use vstd::prelude::*;

use crate::button_events::{
    candidates, chord_release, close_click_after_drag, swallowed_release, Gesture, PendingFloatingChord,
};
use crate::direction::Direction;
use crate::gestures::{PendingCloseClick, PendingPointerClick};
use crate::mouse::MouseConfig;
use crate::pointer::{button_bit, button_code, code_bit, held_after, ButtonState, BTN_LEFT};

verus! {

/// How long after a click a further click still counts, in nanoseconds.
pub const DOUBLE_CLICK_INTERVAL_NS: u64 = 275_000_000;

/// An output-edge placement chosen by a press, applied when its button is
/// released.
#[derive(Clone, Copy, Debug, PartialEq, Eq, Structural)]
pub struct EdgePlacement {
    pub direction: Direction,
    pub button: u32,
}

/// A window drag in progress: the window and the buttons of the move chord.
#[derive(Clone, Copy, Debug, PartialEq, Eq, Structural)]
pub struct WindowDrag {
    pub id: u64,
    pub buttons: u8,
}

/// The button gestures in progress.
#[derive(Clone, Copy, Debug, PartialEq, Eq, Structural)]
pub struct ButtonGestureState {
    /// The held-mask of the pointer buttons.
    pub held: u8,
    /// A close chord closed a window; everything waits for all buttons to go up.
    pub closing_chord: bool,
    pub floating_chord: Option<PendingFloatingChord>,
    /// A released click that may become a double click.
    pub pending_click: Option<PendingPointerClick>,
    pub pending_close_click: Option<PendingCloseClick>,
    pub edge_placement: Option<EdgePlacement>,
    /// An interactive resize is in progress.
    pub resizing: bool,
    /// Releases still to swallow after a window drag.
    pub suppressed_drag_releases: u8,
    pub drag: Option<WindowDrag>,
    /// The release of a left press that only focused a window is swallowed.
    pub suppressed_focus_click: bool,
    /// The session is locked.
    pub locked: bool,
}

/// A pointer button event, with what the caller measured for it.
#[derive(Clone, Copy, Debug, PartialEq, Eq, Structural)]
pub struct ButtonEvent {
    pub button: u32,
    pub state: ButtonState,
    /// When it happened, in nanoseconds.
    pub time_ns: u64,
    /// The pointer is within the double-click distance of the pending click.
    pub near_pending_click: bool,
    /// The pointer is within the double-click distance of the pending close click.
    pub near_close_click: bool,
    /// The pointer moved no further than the double-click distance during the drag.
    pub near_drag_start: bool,
    /// The window under the pointer.
    pub window: Option<u64>,
    /// The window with keyboard focus.
    pub focused: Option<u64>,
    /// Neither the pointer nor the keyboard is grabbed (an input method's
    /// keyboard grab aside), so a click may move focus.
    pub focus_allowed: bool,
}

/// What the compositor does for a button event, in order.
#[derive(Clone, Copy, Debug, PartialEq, Eq, Structural)]
pub enum ButtonAction {
    /// Send the pending click to its client after all.
    ReplayPendingClick(PendingPointerClick),
    /// Carry out a completed held-button click gesture.
    CompleteCloseClick(PendingCloseClick),
    /// Toggle the window's floating state.
    ToggleFloating(u64),
    /// Place the next window in this direction.
    ApplyPlacement(Direction),
    /// End the interactive resize.
    FinishResize,
    /// End the window drag of this window.
    FinishDrag(u64),
    /// Try to start this gesture; when it starts, nothing after it happens.
    TryGesture(Gesture),
    /// When no gesture started, hand the event on with
    /// [`pointer_button_finish`], after asking the camera drag (`camera`) or
    /// not.
    HandOn { camera: bool },
}

/// The moment a double click must come by, after one at `now`.
pub open spec fn click_deadline(now: u64) -> u64 {
    if now + DOUBLE_CLICK_INTERVAL_NS > u64::MAX {
        u64::MAX
    } else {
        (now + DOUBLE_CLICK_INTERVAL_NS) as u64
    }
}

/// Whether a press makes the pending click go to its client: another
/// button, too late, or too far.
pub open spec fn replays_pending(s: ButtonGestureState, e: ButtonEvent) -> bool {
    e.state == ButtonState::Pressed && match s.pending_click {
        Some(c) => e.button != c.button || e.time_ns > c.deadline_ns || !e.near_pending_click,
        None => false,
    }
}

/// The close click after a press of the gesture's second button while its
/// first is held: continued when it matches, dropped otherwise.
pub open spec fn close_click_after_press(pending: Option<PendingCloseClick>, e: ButtonEvent) -> Option<PendingCloseClick> {
    match pending {
        Some(first) => if e.window == Some(first.id) && e.time_ns <= first.deadline_ns && e.near_close_click {
            Some(
                PendingCloseClick {
                    id: first.id,
                    deadline_ns: click_deadline(e.time_ns),
                    clicks: if first.clicks < u8::MAX {
                        (first.clicks + 1) as u8
                    } else {
                        u8::MAX
                    },
                },
            )
        } else {
            None
        },
        None => None,
    }
}

/// The gestures tried, as actions, ending with handing the event on.
pub open spec fn gesture_actions(gestures: Seq<Gesture>, locked: bool) -> Seq<ButtonAction> {
    gestures.map_values(|g: Gesture| ButtonAction::TryGesture(g)).push(ButtonAction::HandOn { camera: !locked })
}

/// What a button event does, step by step as the compositor handles it:
///
/// 1. a press that does not continue the pending click replays it;
/// 2. the held mask records the event;
/// 3. after a close chord, everything is swallowed until no button is held;
/// 4. releasing the close gesture's first button completes a pending close
///    click; pressing its second while the first is held (unlocked)
///    continues or drops it;
/// 5. a floating chord in progress takes its releases (toggling once);
/// 6. releasing an edge placement's button applies it;
/// 7. releasing the resize button ends a resize;
/// 8. releases left over from a drag are swallowed;
/// 9. releasing a drag button ends the drag, possibly starting a close click,
///    and leaves the drag's still-held buttons to swallow;
/// 10. the left release of a press that only focused a window is swallowed;
/// 11. otherwise the gestures the event may start are tried in order, and
///     the event is handed on.
pub open spec fn button_step(s: ButtonGestureState, mouse: MouseConfig, e: ButtonEvent) -> (ButtonGestureState, Seq<ButtonAction>) {
    let (s0, a0) = step_start(s, e);
    if s0.closing_chord {
        (ButtonGestureState { closing_chord: s0.held != 0, ..s0 }, a0)
    } else {
        let (s2, a2, consumed) = step_chords(s0, a0, mouse, e);
        if consumed {
            (s2, a2)
        } else {
            step_rest(s2, a2, mouse, e)
        }
    }
}

/// Steps 1 and 2: the pending click and the held mask.
pub open spec fn step_start(s: ButtonGestureState, e: ButtonEvent) -> (ButtonGestureState, Seq<ButtonAction>) {
    let replay = replays_pending(s, e);
    (
        ButtonGestureState {
            pending_click: if replay {
                None
            } else {
                s.pending_click
            },
            held: held_after(s.held, e.button, e.state),
            ..s
        },
        if replay {
            seq![ButtonAction::ReplayPendingClick(s.pending_click->Some_0)]
        } else {
            Seq::empty()
        },
    )
}

/// Steps 4 and 5: the close gesture and the floating chord; `true` when the
/// chord took the event.
pub open spec fn step_chords(s0: ButtonGestureState, a0: Seq<ButtonAction>, mouse: MouseConfig, e: ButtonEvent) -> (
    ButtonGestureState,
    Seq<ButtonAction>,
    bool,
) {
    let completes = e.button == button_code(mouse.close_window[0]) && e.state == ButtonState::Released
        && s0.pending_close_click is Some;
    let a1 = if completes {
        a0.push(ButtonAction::CompleteCloseClick(s0.pending_close_click->Some_0))
    } else {
        a0
    };
    let close1 = if completes {
        None
    } else {
        s0.pending_close_click
    };
    let close2 = if !s0.locked && e.button == button_code(mouse.close_window[1]) && e.state == ButtonState::Pressed
        && s0.held & button_bit(mouse.close_window[0]) != 0 {
        close_click_after_press(close1, e)
    } else {
        close1
    };
    let chord = chord_release(s0.floating_chord, e.button, e.state);
    let a2 = match chord.toggle {
        Some(id) => a1.push(ButtonAction::ToggleFloating(id)),
        None => a1,
    };
    (ButtonGestureState { pending_close_click: close2, floating_chord: chord.remaining, ..s0 }, a2, chord.consumed)
}

/// Steps 6 to 11.
pub open spec fn step_rest(s2: ButtonGestureState, a2: Seq<ButtonAction>, mouse: MouseConfig, e: ButtonEvent) -> (
    ButtonGestureState,
    Seq<ButtonAction>,
) {
    if e.state == ButtonState::Released && s2.edge_placement is Some && e.button == s2.edge_placement->Some_0.button {
        (
            ButtonGestureState { edge_placement: None, ..s2 },
            a2.push(ButtonAction::ApplyPlacement(s2.edge_placement->Some_0.direction)),
        )
    } else if s2.resizing && e.button == button_code(mouse.resize_window) && e.state == ButtonState::Released {
        (ButtonGestureState { resizing: false, ..s2 }, a2.push(ButtonAction::FinishResize))
    } else if swallowed_release(s2.suppressed_drag_releases, e.button, e.state) is Some {
        (
            ButtonGestureState {
                suppressed_drag_releases: swallowed_release(s2.suppressed_drag_releases, e.button, e.state)->Some_0,
                ..s2
            },
            a2,
        )
    } else if e.state == ButtonState::Released && s2.drag is Some && s2.drag->Some_0.buttons & code_bit(e.button)
        != 0 {
        let d = s2.drag->Some_0;
        (
            ButtonGestureState {
                drag: None,
                pending_close_click: close_click_after_drag(
                    mouse,
                    s2.held,
                    e.button,
                    e.near_drag_start,
                    d.id,
                    s2.pending_close_click,
                    click_deadline(e.time_ns),
                ),
                suppressed_drag_releases: d.buttons & s2.held,
                ..s2
            },
            a2.push(ButtonAction::FinishDrag(d.id)),
        )
    } else if e.button == BTN_LEFT && e.state == ButtonState::Released && s2.suppressed_focus_click {
        (ButtonGestureState { suppressed_focus_click: false, ..s2 }, a2)
    } else {
        (s2, a2 + gesture_actions(candidates(mouse, s2.held, e.button, e.state, s2.locked), s2.locked))
    }
}

fn click_deadline_of(now: u64) -> (d: u64)
    ensures
        d == click_deadline(now),
{
    if now > u64::MAX - DOUBLE_CLICK_INTERVAL_NS {
        u64::MAX
    } else {
        now + DOUBLE_CLICK_INTERVAL_NS
    }
}

fn close_click_after_press_of(pending: Option<PendingCloseClick>, e: &ButtonEvent) -> (r: Option<PendingCloseClick>)
    ensures
        r == close_click_after_press(pending, *e),
{
    match pending {
        Some(first) => match crate::gestures::next_close_click_count(first, e.window, e.time_ns, e.near_close_click) {
            Some(clicks) => Some(PendingCloseClick { id: first.id, deadline_ns: click_deadline_of(e.time_ns), clicks }),
            None => None,
        },
        None => None,
    }
}

fn start_exec(t: &mut ButtonGestureState, actions: &mut Vec<ButtonAction>, e: &ButtonEvent)
    requires
        old(actions)@.len() == 0,
    ensures
        (*final(t), final(actions)@) == step_start(*old(t), *e),
{
    let replay = e.state == ButtonState::Pressed && match t.pending_click {
        Some(c) => e.button != c.button || e.time_ns > c.deadline_ns || !e.near_pending_click,
        None => false,
    };
    if replay {
        match t.pending_click {
            Some(c) => actions.push(ButtonAction::ReplayPendingClick(c)),
            None => {},
        }
        t.pending_click = None;
    }
    crate::pointer::update_pointer_buttons(&mut t.held, e.button, e.state);
    proof {
        if !replay {
            assert(final(actions)@ =~= Seq::<ButtonAction>::empty());
        }
    }
}

fn chords_exec(t: &mut ButtonGestureState, actions: &mut Vec<ButtonAction>, mouse: &MouseConfig, e: &ButtonEvent) -> (consumed: bool)
    ensures
        (*final(t), final(actions)@, consumed) == step_chords(*old(t), old(actions)@, *mouse, *e),
{
    let close_first = crate::pointer::mouse_button_code(mouse.close_window[0]);
    let close_second = crate::pointer::mouse_button_code(mouse.close_window[1]);
    if e.button == close_first && e.state == ButtonState::Released {
        match t.pending_close_click {
            Some(click) => {
                actions.push(ButtonAction::CompleteCloseClick(click));
                t.pending_close_click = None;
            },
            None => {},
        }
    }
    if !t.locked && e.button == close_second && e.state == ButtonState::Pressed && crate::pointer::button_held(
        t.held,
        mouse.close_window[0],
    ) {
        t.pending_close_click = close_click_after_press_of(t.pending_close_click, e);
    }
    let chord = crate::button_events::floating_chord_release(t.floating_chord, e.button, e.state);
    match chord.toggle {
        Some(id) => actions.push(ButtonAction::ToggleFloating(id)),
        None => {},
    }
    t.floating_chord = chord.remaining;
    chord.consumed
}

fn push_gestures(actions: &mut Vec<ButtonAction>, gestures: &Vec<Gesture>, locked: bool)
    ensures
        final(actions)@ == old(actions)@ + gesture_actions(gestures@, locked),
{
    let ghost before = actions@;
    let mut i: usize = 0;
    while i < gestures.len()
        invariant
            i <= gestures@.len(),
            actions@ == before + gestures@.take(i as int).map_values(|g: Gesture| ButtonAction::TryGesture(g)),
        decreases gestures.len() - i,
    {
        actions.push(ButtonAction::TryGesture(gestures[i]));
        proof {
            assert(gestures@.take(i as int + 1).map_values(|g: Gesture| ButtonAction::TryGesture(g))
                =~= gestures@.take(i as int).map_values(|g: Gesture| ButtonAction::TryGesture(g)).push(
                ButtonAction::TryGesture(gestures@[i as int]),
            ));
        }
        i = i + 1;
    }
    actions.push(ButtonAction::HandOn { camera: !locked });
    proof {
        assert(gestures@.take(gestures@.len() as int) =~= gestures@);
        assert(actions@ =~= before + gesture_actions(gestures@, locked));
    }
}

fn rest_exec(t: &mut ButtonGestureState, actions: &mut Vec<ButtonAction>, mouse: &MouseConfig, e: &ButtonEvent)
    ensures
        (*final(t), final(actions)@) == step_rest(*old(t), old(actions)@, *mouse, *e),
{
    if e.state == ButtonState::Released {
        match t.edge_placement {
            Some(p) => if e.button == p.button {
                t.edge_placement = None;
                actions.push(ButtonAction::ApplyPlacement(p.direction));
                return;
            },
            None => {},
        }
    }
    if t.resizing && e.button == crate::pointer::mouse_button_code(mouse.resize_window) && e.state
        == ButtonState::Released {
        t.resizing = false;
        actions.push(ButtonAction::FinishResize);
        return;
    }
    match crate::button_events::swallow_drag_release(t.suppressed_drag_releases, e.button, e.state) {
        Some(rest) => {
            t.suppressed_drag_releases = rest;
            return;
        },
        None => {},
    }
    if e.state == ButtonState::Released {
        match t.drag {
            Some(d) => if d.buttons & crate::pointer::pointer_button_mask(e.button) != 0 {
                let deadline = click_deadline_of(e.time_ns);
                let click = crate::button_events::drag_release_close_click(
                    mouse,
                    t.held,
                    e.button,
                    e.near_drag_start,
                    d.id,
                    t.pending_close_click,
                    deadline,
                );
                t.drag = None;
                t.pending_close_click = click;
                t.suppressed_drag_releases = crate::button_events::releases_after_drag(d.buttons, t.held);
                actions.push(ButtonAction::FinishDrag(d.id));
                return;
            },
            None => {},
        }
    }
    if e.button == BTN_LEFT && e.state == ButtonState::Released && t.suppressed_focus_click {
        t.suppressed_focus_click = false;
        return;
    }
    let gestures = crate::button_events::gesture_candidates(mouse, t.held, e.button, e.state, t.locked);
    push_gestures(actions, &gestures, t.locked);
}

/// Decides what a pointer button event does while the `mouse` gestures are
/// configured: the gestures in progress afterwards, and the actions to take
/// in order.
pub fn pointer_button_step(s: &ButtonGestureState, mouse: &MouseConfig, e: &ButtonEvent) -> (r: (
    ButtonGestureState,
    Vec<ButtonAction>,
))
    ensures
        r.0 == button_step(*s, *mouse, *e).0,
        r.1@ == button_step(*s, *mouse, *e).1,
{
    let mut actions: Vec<ButtonAction> = Vec::new();
    let mut t = *s;
    start_exec(&mut t, &mut actions, e);
    if t.closing_chord {
        t.closing_chord = t.held != 0;
        return (t, actions);
    }
    let consumed = chords_exec(&mut t, &mut actions, mouse, e);
    if consumed {
        return (t, actions);
    }
    rest_exec(&mut t, &mut actions, mouse, e);
    (t, actions)
}

/// What the camera drag made of an event handed to it.
#[derive(Clone, Copy, Debug, PartialEq, Eq, Structural)]
pub enum CameraOutcome {
    /// The camera drag took the event.
    Consumed,
    /// A short camera-button click ended: it is replayed as a click on the
    /// window it was pressed on.
    ReplayClick { window: Option<u64> },
    /// The event goes on.
    Forward,
}

/// How an event handed on ends.
#[derive(Clone, Copy, Debug, PartialEq, Eq, Structural)]
pub struct ButtonFinish {
    /// Focus the window or layer surface under the pointer (or nothing, when
    /// there is none).
    pub focus_under_pointer: bool,
    /// What happens to the event itself.
    pub end: ButtonEnd,
}

/// What happens to an event handed on.
#[derive(Clone, Copy, Debug, PartialEq, Eq, Structural)]
pub enum ButtonEnd {
    /// The camera drag took it.
    Consumed,
    /// A left press that only focuses a window: swallowed, and so is its release.
    FocusClick,
    /// A camera-button click to replay (or to keep for a double click) on this window.
    ReplayClick(Option<u64>),
    /// The focused client receives it.
    Forward,
}

/// How an event handed on ends, given the camera drag's answer: a press (or
/// a replayed camera click) may move focus when nothing is grabbed; a left
/// press on a window that is not focused only focuses it.
pub open spec fn button_finish(e: ButtonEvent, camera: CameraOutcome) -> ButtonFinish {
    match camera {
        CameraOutcome::Consumed => ButtonFinish { focus_under_pointer: false, end: ButtonEnd::Consumed },
        _ => {
            let replay = camera is ReplayClick;
            let may_change_focus = (e.state == ButtonState::Pressed || replay) && e.focus_allowed;
            let release_window = if may_change_focus {
                e.window
            } else {
                None
            };
            let target = match camera {
                CameraOutcome::ReplayClick { window } => window,
                _ => release_window,
            };
            let focus_click = e.button == BTN_LEFT && e.state == ButtonState::Pressed && target is Some
                && e.focused != target;
            ButtonFinish {
                focus_under_pointer: may_change_focus,
                end: if focus_click {
                    ButtonEnd::FocusClick
                } else if replay {
                    ButtonEnd::ReplayClick(target)
                } else {
                    ButtonEnd::Forward
                },
            }
        },
    }
}

/// Ends an event handed on, given the camera drag's answer (`Forward` when
/// it was not asked); a focus click is remembered so that its release is
/// swallowed.
pub fn pointer_button_finish(s: &ButtonGestureState, e: &ButtonEvent, camera: CameraOutcome) -> (r: (
    ButtonGestureState,
    ButtonFinish,
))
    ensures
        r.1 == button_finish(*e, camera),
        r.0 == (ButtonGestureState {
            suppressed_focus_click: s.suppressed_focus_click || r.1.end == ButtonEnd::FocusClick,
            ..*s
        }),
{
    let replay_window = match camera {
        CameraOutcome::Consumed => {
            return (*s, ButtonFinish { focus_under_pointer: false, end: ButtonEnd::Consumed });
        },
        CameraOutcome::ReplayClick { window } => Some(window),
        CameraOutcome::Forward => None,
    };
    let replay = replay_window.is_some();
    let may_change_focus = (e.state == ButtonState::Pressed || replay) && e.focus_allowed;
    let release_window = if may_change_focus {
        e.window
    } else {
        None
    };
    let pressed_window = match replay_window {
        Some(w) => w,
        None => None,
    };
    let target = crate::pointer::pointer_click_target(replay, pressed_window, release_window);
    let focus_click = crate::pointer::should_consume_focus_click(e.button, e.state, target, e.focused);
    let end = if focus_click {
        ButtonEnd::FocusClick
    } else if replay {
        ButtonEnd::ReplayClick(target)
    } else {
        ButtonEnd::Forward
    };
    let mut t = *s;
    if focus_click {
        t.suppressed_focus_click = true;
    }
    (t, ButtonFinish { focus_under_pointer: may_change_focus, end })
}

// ---------------------------------------------------------------- motion

/// The active pointer constraint of the surface under the pointer.
#[derive(Clone, Copy, Debug, PartialEq, Eq, Structural)]
pub enum ActiveConstraint {
    Unconstrained,
    /// The pointer is locked in place.
    Locked,
    /// The pointer is confined to a region of the surface: whether the new
    /// position is over the same surface and inside that region.
    Confined { same_surface: bool, inside_region: bool },
}

/// A pointer motion, with what the caller measured for it.
#[derive(Clone, Copy, Debug, PartialEq, Eq, Structural)]
pub struct PointerMotion {
    /// The new position is beyond the double-click distance of the pending click.
    pub far_from_pending_click: bool,
    /// The new position is beyond the double-click distance of the pending close click.
    pub far_from_close_click: bool,
    /// The new position is past the camera-drag threshold from the camera press.
    pub past_camera_threshold: bool,
    pub constraint: ActiveConstraint,
}

/// What a pointer motion does.
#[derive(Clone, Copy, Debug, PartialEq, Eq, Structural)]
pub struct MotionStep {
    /// Send the pending click to its client after all.
    pub replay_click: Option<PendingPointerClick>,
    /// Update the interactive resize to the new position.
    pub update_resize: bool,
    /// Whether the pressed camera button now drags (unchanged when none is pressed).
    pub camera_drag: Option<bool>,
    /// Pan the camera with the pointer.
    pub pan_camera: bool,
    /// The constraint keeps the pointer where it was.
    pub keep_position: bool,
}

/// What a pointer motion does, with the camera button pressed (`camera_drag`
/// holds whether it already drags) or not: moving away from a pending click
/// replays it, moving away from a pending close click drops it; a resize
/// follows; unless a window drags, a camera press becomes a drag past the
/// threshold and then pans; a locked pointer, or a confined one leaving its
/// surface or region, stays where it was unless the camera pans.
pub open spec fn motion_step(s: ButtonGestureState, camera_drag: Option<bool>, m: PointerMotion) -> (
    ButtonGestureState,
    MotionStep,
) {
    let replay = s.pending_click is Some && m.far_from_pending_click;
    let drop_close = s.pending_close_click is Some && m.far_from_close_click;
    let drag_now = if s.drag is None {
        match camera_drag {
            Some(d) => Some(d || m.past_camera_threshold),
            None => None,
        }
    } else {
        camera_drag
    };
    let panning = s.drag is None && drag_now == Some(true);
    let constrained = match m.constraint {
        ActiveConstraint::Unconstrained => false,
        ActiveConstraint::Locked => true,
        ActiveConstraint::Confined { same_surface, inside_region } => !same_surface || !inside_region,
    };
    (
        ButtonGestureState {
            pending_click: if replay {
                None
            } else {
                s.pending_click
            },
            pending_close_click: if drop_close {
                None
            } else {
                s.pending_close_click
            },
            ..s
        },
        MotionStep {
            replay_click: if replay {
                s.pending_click
            } else {
                None
            },
            update_resize: s.resizing,
            camera_drag: drag_now,
            pan_camera: panning,
            keep_position: !panning && constrained,
        },
    )
}

/// Decides what a pointer motion does.
pub fn pointer_motion_step(s: &ButtonGestureState, camera_drag: Option<bool>, m: &PointerMotion) -> (r: (
    ButtonGestureState,
    MotionStep,
))
    ensures
        r == motion_step(*s, camera_drag, *m),
{
    let mut t = *s;
    let replay_click = if s.pending_click.is_some() && m.far_from_pending_click {
        t.pending_click = None;
        s.pending_click
    } else {
        None
    };
    if s.pending_close_click.is_some() && m.far_from_close_click {
        t.pending_close_click = None;
    }
    let drag_now = if s.drag.is_none() {
        match camera_drag {
            Some(d) => Some(d || m.past_camera_threshold),
            None => None,
        }
    } else {
        camera_drag
    };
    let panning = s.drag.is_none() && drag_now == Some(true);
    let constrained = match m.constraint {
        ActiveConstraint::Unconstrained => false,
        ActiveConstraint::Locked => true,
        ActiveConstraint::Confined { same_surface, inside_region } => !same_surface || !inside_region,
    };
    (
        t,
        MotionStep {
            replay_click,
            update_resize: s.resizing,
            camera_drag: drag_now,
            pan_camera: panning,
            keep_position: !panning && constrained,
        },
    )
}

// ---------------------------------------------------------------- laws

/// Every button event is recorded in the held mask, whatever else it does.
pub proof fn lemma_step_records_held_buttons(s: ButtonGestureState, mouse: MouseConfig, e: ButtonEvent)
    ensures
        button_step(s, mouse, e).0.held == held_after(s.held, e.button, e.state),
{
}

/// While the session is locked, a button event starts no gesture and does
/// not ask the camera drag.
pub proof fn lemma_locked_session_starts_no_gesture(s: ButtonGestureState, mouse: MouseConfig, e: ButtonEvent)
    requires
        s.locked,
    ensures
        forall|i: int|
            0 <= i < button_step(s, mouse, e).1.len() ==> !(#[trigger] button_step(s, mouse, e).1[i] is TryGesture),
        forall|i: int|
            0 <= i < button_step(s, mouse, e).1.len() ==> button_step(s, mouse, e).1[i] != (ButtonAction::HandOn {
                camera: true,
            }),
{
    assert(candidates(mouse, held_after(s.held, e.button, e.state), e.button, e.state, true) =~= Seq::<
        Gesture,
    >::empty());
}

} // verus!
