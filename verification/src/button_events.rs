//! Decisions taken for each pointer button event: the floating chord, the
//! releases that a finished drag swallows, the held-button close gesture, and
//! the order in which button gestures are tried.

use vstd::prelude::*;

use crate::gestures::PendingCloseClick;
use crate::mouse::{MouseConfig, MouseButton};
use crate::pointer::{button_bit, button_code, chord_completed, chord_mask, code_bit, ButtonState};

verus! {

/// The number of buttons a held mask records (of the three it tracks).
pub open spec fn held_count(mask: u8) -> int {
    (if mask & 1 != 0 { 1int } else { 0int }) + (if mask & 2 != 0 { 1int } else { 0int }) + (if mask & 4
        != 0 {
        1int
    } else {
        0int
    })
}

fn count_held(mask: u8) -> (n: u32)
    ensures
        n == held_count(mask),
{
    let mut n: u32 = 0;
    if mask & 1 != 0 {
        n = n + 1;
    }
    if mask & 2 != 0 {
        n = n + 1;
    }
    if mask & 4 != 0 {
        n = n + 1;
    }
    n
}

/// A floating-toggle chord in progress: the window and the chord buttons
/// still held.
#[derive(Clone, Copy, Debug, PartialEq, Eq, Structural)]
pub struct PendingFloatingChord {
    pub id: u64,
    pub buttons_held: u8,
}

/// What a button event does to a floating chord in progress.
#[derive(Clone, Copy, Debug, PartialEq, Eq, Structural)]
pub struct ChordRelease {
    /// The event belongs to the chord and goes no further.
    pub consumed: bool,
    /// The window whose floating state toggles now.
    pub toggle: Option<u64>,
    /// The chord still in progress afterwards.
    pub remaining: Option<PendingFloatingChord>,
}

/// The effect of a button event on a floating chord: releasing one of its
/// held buttons is consumed; the first release (while both are held)
/// toggles the window, and the last one ends the chord.
pub open spec fn chord_release(chord: Option<PendingFloatingChord>, button: u32, state: ButtonState) -> ChordRelease {
    match chord {
        None => ChordRelease { consumed: false, toggle: None, remaining: None },
        Some(c) => {
            let released = code_bit(button);
            if state != ButtonState::Released || c.buttons_held & released == 0 {
                ChordRelease { consumed: false, toggle: None, remaining: chord }
            } else {
                let left = c.buttons_held & !released;
                ChordRelease {
                    consumed: true,
                    toggle: if held_count(c.buttons_held) == 2 {
                        Some(c.id)
                    } else {
                        None
                    },
                    remaining: if left == 0 {
                        None
                    } else {
                        Some(PendingFloatingChord { id: c.id, buttons_held: left })
                    },
                }
            }
        },
    }
}

/// Applies a button event to a floating chord in progress.
pub fn floating_chord_release(chord: Option<PendingFloatingChord>, button: u32, state: ButtonState) -> (r: ChordRelease)
    ensures
        r == chord_release(chord, button, state),
{
    let c = match chord {
        None => return ChordRelease { consumed: false, toggle: None, remaining: None },
        Some(c) => c,
    };
    let released = crate::pointer::pointer_button_mask(button);
    if state != ButtonState::Released || c.buttons_held & released == 0 {
        return ChordRelease { consumed: false, toggle: None, remaining: chord };
    }
    let left = c.buttons_held & !released;
    let toggle = if count_held(c.buttons_held) == 2 {
        Some(c.id)
    } else {
        None
    };
    let remaining = if left == 0 {
        None
    } else {
        Some(PendingFloatingChord { id: c.id, buttons_held: left })
    };
    ChordRelease { consumed: true, toggle, remaining }
}

/// Releasing both buttons of a two-button floating chord, in either order,
/// consumes both releases, toggles the window exactly once (on the first),
/// and ends the chord.
pub proof fn lemma_chord_toggles_once_in_either_order(id: u64, first: MouseButton, second: MouseButton)
    requires
        first != second,
    ensures
        ({
            let start = Some(PendingFloatingChord { id, buttons_held: chord_mask(seq![first, second]) });
            let one = chord_release(start, button_code(first), ButtonState::Released);
            let two = chord_release(one.remaining, button_code(second), ButtonState::Released);
            &&& one.consumed && two.consumed
            &&& one.toggle == Some(id)
            &&& two.toggle is None
            &&& one.remaining is Some
            &&& two.remaining is None
        }),
{
    assert(seq![first, second].drop_last() =~= seq![first]);
    assert(seq![first].drop_last() =~= Seq::<MouseButton>::empty());
    assert(chord_mask(Seq::<MouseButton>::empty()) == 0);
    assert(seq![first].last() == first);
    assert(seq![first, second].last() == second);
    assert(chord_mask(seq![first]) == 0u8 | button_bit(first));
    assert(0u8 | button_bit(first) == button_bit(first)) by (bit_vector);
    assert(chord_mask(seq![first, second]) == button_bit(first) | button_bit(second));
    let m = chord_mask(seq![first, second]);
    let a = button_bit(first);
    let b = button_bit(second);
    assert(a == 1 || a == 2 || a == 4);
    assert(b == 1 || b == 2 || b == 4);
    assert(a != b);
    assert(held_count(m) == 2) by (bit_vector)
        requires
            m == a | b,
            a == 1u8 || a == 2u8 || a == 4u8,
            b == 1u8 || b == 2u8 || b == 4u8,
            a != b,
    ;
    assert(m & a != 0 && (m & !a) & b != 0 && ((m & !a) & !b) == 0 && (m & !a) != 0 && held_count(m & !a) == 1)
        by (bit_vector)
        requires
            m == a | b,
            a == 1u8 || a == 2u8 || a == 4u8,
            b == 1u8 || b == 2u8 || b == 4u8,
            a != b,
    ;
}

// ---------------------------------------------------------------- releases

/// A release of a button that a finished window drag still had down is
/// swallowed once; the result is the mask of releases still to swallow, or
/// `None` when the event goes on.
pub open spec fn swallowed_release(suppressed: u8, button: u32, state: ButtonState) -> Option<u8> {
    let mask = code_bit(button);
    if state == ButtonState::Released && mask != 0 && suppressed & mask != 0 {
        Some(suppressed & !mask)
    } else {
        None
    }
}

/// Whether a release is swallowed after a window drag, and what remains.
pub fn swallow_drag_release(suppressed: u8, button: u32, state: ButtonState) -> (r: Option<u8>)
    ensures
        r == swallowed_release(suppressed, button, state),
{
    let mask = crate::pointer::pointer_button_mask(button);
    if state == ButtonState::Released && mask != 0 && suppressed & mask != 0 {
        Some(suppressed & !mask)
    } else {
        None
    }
}

/// The releases to swallow after a window drag ends: the drag's buttons
/// that are still held.
pub fn releases_after_drag(drag_buttons: u8, held: u8) -> (suppressed: u8)
    ensures
        suppressed == drag_buttons & held,
{
    drag_buttons & held
}

/// The close gesture that the release ending a window drag starts or
/// continues: when the release is of the close gesture's second button while
/// its first is held and the pointer stayed within the double-click distance
/// (`near`), a close click on the dragged window, keeping the count of a
/// pending close click on the same window.
pub open spec fn close_click_after_drag(
    mouse: MouseConfig,
    held: u8,
    button: u32,
    near: bool,
    dragged: u64,
    pending: Option<PendingCloseClick>,
    deadline_ns: u64,
) -> Option<PendingCloseClick> {
    if button == button_code(mouse.close_window[1]) && held & button_bit(mouse.close_window[0]) != 0 && near {
        Some(
            PendingCloseClick {
                id: dragged,
                deadline_ns,
                clicks: match pending {
                    Some(p) => if p.id == dragged {
                        p.clicks
                    } else {
                        1
                    },
                    None => 1,
                },
            },
        )
    } else {
        None
    }
}

/// The close gesture after a window drag ends with a release.
pub fn drag_release_close_click(
    mouse: &MouseConfig,
    held: u8,
    button: u32,
    near: bool,
    dragged: u64,
    pending: Option<PendingCloseClick>,
    deadline_ns: u64,
) -> (click: Option<PendingCloseClick>)
    ensures
        click == close_click_after_drag(*mouse, held, button, near, dragged, pending, deadline_ns),
{
    if button == crate::pointer::mouse_button_code(mouse.close_window[1]) && crate::pointer::button_held(
        held,
        mouse.close_window[0],
    ) && near {
        let clicks = match pending {
            Some(p) => if p.id == dragged {
                p.clicks
            } else {
                1
            },
            None => 1,
        };
        Some(PendingCloseClick { id: dragged, deadline_ns, clicks })
    } else {
        None
    }
}

// ---------------------------------------------------------------- gestures

/// A gesture that a button press can start.
#[derive(Clone, Copy, Debug, PartialEq, Eq, Structural)]
pub enum Gesture {
    /// Resize the window under the pointer.
    ResizeWindow,
    /// Toggle floating with the floating chord.
    ToggleFloating,
    /// Choose where the next window goes, at an output edge.
    PlaceNext,
    /// Drag the window under the pointer with the move chord.
    DragWindow,
}

/// The gestures a button press may start, in the order they are tried
/// (each may decline, for instance without a window under the pointer):
/// none while the session is locked; resizing with the resize button unless
/// the move chord's first button is held; the floating chord; edge placement
/// with its button; the move chord. `held` already includes the button.
pub open spec fn candidates(mouse: MouseConfig, held: u8, button: u32, state: ButtonState, locked: bool) -> Seq<Gesture> {
    if locked || state != ButtonState::Pressed {
        Seq::empty()
    } else {
        let resize = if button == button_code(mouse.resize_window) && held & button_bit(mouse.move_window[0]) == 0 {
            seq![Gesture::ResizeWindow]
        } else {
            Seq::empty()
        };
        let floating = if chord_completed(held, button, mouse.toggle_floating) {
            seq![Gesture::ToggleFloating]
        } else {
            Seq::empty()
        };
        let place = if button == button_code(mouse.place_next) {
            seq![Gesture::PlaceNext]
        } else {
            Seq::empty()
        };
        let drag = if chord_completed(held, button, mouse.move_window) {
            seq![Gesture::DragWindow]
        } else {
            Seq::empty()
        };
        resize + floating + place + drag
    }
}

/// The gestures a button event may start, in the order they are tried.
pub fn gesture_candidates(mouse: &MouseConfig, held: u8, button: u32, state: ButtonState, locked: bool) -> (gestures: Vec<
    Gesture,
>)
    ensures
        gestures@ == candidates(*mouse, held, button, state, locked),
{
    let mut gestures: Vec<Gesture> = Vec::new();
    if locked || state != ButtonState::Pressed {
        assert(gestures@ =~= candidates(*mouse, held, button, state, locked));
        return gestures;
    }
    if button == crate::pointer::mouse_button_code(mouse.resize_window) && !crate::pointer::button_held(
        held,
        mouse.move_window[0],
    ) {
        gestures.push(Gesture::ResizeWindow);
    }
    if crate::pointer::ordered_chord_pressed(held, button, mouse.toggle_floating) {
        gestures.push(Gesture::ToggleFloating);
    }
    if button == crate::pointer::mouse_button_code(mouse.place_next) {
        gestures.push(Gesture::PlaceNext);
    }
    if crate::pointer::ordered_chord_pressed(held, button, mouse.move_window) {
        gestures.push(Gesture::DragWindow);
    }
    assert(gestures@ =~= candidates(*mouse, held, button, state, locked));
    gestures
}

} // verus!
