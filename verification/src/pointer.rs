//! Pointer buttons as the compositor tracks them: evdev codes, the held-button
//! mask, ordered chords and the targets of clicks.

use vstd::prelude::*;

use crate::geometry::{saturate_i32, saturating_add_i32, ScreenRect};
use crate::mouse::MouseButton;

verus! {

/// The evdev code of the left button.
pub const BTN_LEFT: u32 = 0x110;

/// The evdev code of the right button.
pub const BTN_RIGHT: u32 = 0x111;

/// The evdev code of the middle button.
pub const BTN_MIDDLE: u32 = 0x112;

/// The held-mask bit of the left button.
pub const POINTER_BUTTON_LEFT: u8 = 1;

/// The held-mask bit of the right button.
pub const POINTER_BUTTON_RIGHT: u8 = 2;

/// The held-mask bit of the middle button.
pub const POINTER_BUTTON_MIDDLE: u8 = 4;

/// Whether a button went down or up.
#[derive(Clone, Copy, Debug, PartialEq, Eq, Structural)]
pub enum ButtonState {
    Released,
    Pressed,
}

/// The evdev code that `button` reports.
pub open spec fn button_code(button: MouseButton) -> u32 {
    match button {
        MouseButton::Left => BTN_LEFT,
        MouseButton::Right => BTN_RIGHT,
        MouseButton::Middle => BTN_MIDDLE,
    }
}

/// The held-mask bit of an evdev button code; zero for other buttons.
pub open spec fn code_bit(code: u32) -> u8 {
    if code == BTN_LEFT {
        POINTER_BUTTON_LEFT
    } else if code == BTN_RIGHT {
        POINTER_BUTTON_RIGHT
    } else if code == BTN_MIDDLE {
        POINTER_BUTTON_MIDDLE
    } else {
        0
    }
}

/// The held-mask bit of `button`.
pub open spec fn button_bit(button: MouseButton) -> u8 {
    code_bit(button_code(button))
}

/// The mask with the bits of all `buttons` set.
pub open spec fn chord_mask(buttons: Seq<MouseButton>) -> u8
    decreases buttons.len(),
{
    if buttons.len() == 0 {
        0
    } else {
        chord_mask(buttons.drop_last()) | button_bit(buttons.last())
    }
}

/// A popup surface never starts an interactive resize of its parent window.
pub fn window_resize_surface_allowed(is_popup: bool) -> (allowed: bool)
    ensures
        allowed == !is_popup,
{
    !is_popup
}

/// The evdev code of `button`.
pub fn mouse_button_code(button: MouseButton) -> (code: u32)
    ensures
        code == button_code(button),
{
    match button {
        MouseButton::Left => BTN_LEFT,
        MouseButton::Right => BTN_RIGHT,
        MouseButton::Middle => BTN_MIDDLE,
    }
}

/// The held-mask bit of the evdev code `button`; zero for unknown buttons.
pub fn pointer_button_mask(button: u32) -> (bit: u8)
    ensures
        bit == code_bit(button),
{
    if button == BTN_LEFT {
        POINTER_BUTTON_LEFT
    } else if button == BTN_RIGHT {
        POINTER_BUTTON_RIGHT
    } else if button == BTN_MIDDLE {
        POINTER_BUTTON_MIDDLE
    } else {
        0
    }
}

/// The mask with the bits of every button of the chord set.
pub fn mouse_chord_mask(buttons: &[MouseButton]) -> (mask: u8)
    ensures
        mask == chord_mask(buttons@),
{
    let mut mask: u8 = 0;
    let mut i: usize = 0;
    while i < buttons.len()
        invariant
            i <= buttons.len(),
            mask == chord_mask(buttons@.take(i as int)),
        decreases buttons.len() - i,
    {
        let bit = pointer_button_mask(mouse_button_code(buttons[i]));
        assert(buttons@.take(i as int + 1).drop_last() == buttons@.take(i as int));
        mask = mask | bit;
        i = i + 1;
    }
    assert(buttons@.take(buttons.len() as int) == buttons@);
    mask
}

/// Whether `button` is among the held buttons.
pub fn button_held(held: u8, button: MouseButton) -> (r: bool)
    ensures
        r == (held & button_bit(button) != 0),
{
    held & pointer_button_mask(mouse_button_code(button)) != 0
}

/// Whether pressing `pressed` completes the ordered `chord`: the press is the
/// chord's second button and every button of the chord is held.
pub open spec fn chord_completed(held: u8, pressed: u32, chord: [MouseButton; 2]) -> bool {
    let mask = chord_mask(seq![chord[0], chord[1]]);
    pressed == button_code(chord[1]) && held & mask == mask
}

/// Whether pressing `pressed` completes the ordered `chord`.
pub fn ordered_chord_pressed(held: u8, pressed: u32, chord: [MouseButton; 2]) -> (r: bool)
    ensures
        r == chord_completed(held, pressed, chord),
{
    let buttons = [chord[0], chord[1]];
    let chord_mask = mouse_chord_mask(&buttons);
    assert(buttons@ == seq![chord[0], chord[1]]);
    pressed == mouse_button_code(chord[1]) && held & chord_mask == chord_mask
}

/// The held mask after `button` changes to `state`; unknown buttons leave it.
pub open spec fn held_after(held: u8, button: u32, state: ButtonState) -> u8 {
    let bit = code_bit(button);
    if bit == 0 {
        held
    } else {
        match state {
            ButtonState::Pressed => held | bit,
            ButtonState::Released => held & !bit,
        }
    }
}

/// Records a button change in the held mask.
pub fn update_pointer_buttons(held: &mut u8, button: u32, state: ButtonState)
    ensures
        *final(held) == held_after(*old(held), button, state),
{
    let bit = pointer_button_mask(button);
    if bit == 0 {
        return;
    }
    match state {
        ButtonState::Pressed => *held = *held | bit,
        ButtonState::Released => *held = *held & !bit,
    }
}

/// Only a left press on a window other than the focused one is consumed to
/// focus it.
pub fn should_consume_focus_click(
    button: u32,
    state: ButtonState,
    target: Option<u64>,
    focused: Option<u64>,
) -> (consume: bool)
    ensures
        consume == (button == BTN_LEFT && state == ButtonState::Pressed && target is Some
            && focused != target),
{
    button == BTN_LEFT && state == ButtonState::Pressed && match target {
        Some(id) => match focused {
            Some(f) => f != id,
            None => true,
        },
        None => false,
    }
}

/// The window that a completed click belongs to: a click deferred by the
/// camera gesture keeps the window it was pressed on.
pub fn pointer_click_target(
    deferred_camera_click: bool,
    pressed_window: Option<u64>,
    release_window: Option<u64>,
) -> (target: Option<u64>)
    ensures
        target == if deferred_camera_click {
            pressed_window
        } else {
            release_window
        },
{
    if deferred_camera_click {
        pressed_window
    } else {
        release_window
    }
}

/// The window edges that an interactive resize moves.
#[derive(Clone, Copy, Debug, PartialEq, Eq, Structural)]
pub struct ResizeEdges {
    pub left: bool,
    pub right: bool,
    pub top: bool,
    pub bottom: bool,
}

/// The pointer shapes that show a resize direction.
#[derive(Clone, Copy, Debug, PartialEq, Eq, Structural)]
pub enum ResizeCursor {
    Default,
    EwResize,
    NsResize,
    NwseResize,
    NeswResize,
}

/// The cursor shown over the grabbed edges.
pub open spec fn cursor_for_edges(edges: ResizeEdges) -> ResizeCursor {
    if (edges.left && edges.top) || (edges.right && edges.bottom) {
        ResizeCursor::NwseResize
    } else if (edges.left && edges.bottom) || (edges.right && edges.top) {
        ResizeCursor::NeswResize
    } else if edges.left || edges.right {
        ResizeCursor::EwResize
    } else if edges.top || edges.bottom {
        ResizeCursor::NsResize
    } else {
        ResizeCursor::Default
    }
}

/// The cursor shown over the grabbed edges.
pub fn resize_cursor(edges: ResizeEdges) -> (cursor: ResizeCursor)
    ensures
        cursor == cursor_for_edges(edges),
{
    if (edges.left && edges.top) || (edges.right && edges.bottom) {
        ResizeCursor::NwseResize
    } else if (edges.left && edges.bottom) || (edges.right && edges.top) {
        ResizeCursor::NeswResize
    } else if edges.left || edges.right {
        ResizeCursor::EwResize
    } else if edges.top || edges.bottom {
        ResizeCursor::NsResize
    } else {
        ResizeCursor::Default
    }
}

/// A neighbour that moves along with a resized edge.
#[derive(Clone, Copy, Debug, PartialEq, Eq)]
pub struct ResizeFollowerPreview {
    pub id: u64,
    pub screen: ScreenRect,
    pub horizontal: bool,
    pub vertical: bool,
}

/// Where a following neighbour is previewed when the pointer has moved by
/// `(dx, dy)` whole pixels: it moves only along the axes it follows.
pub fn follower_preview_from_drag(follower: ResizeFollowerPreview, dx: i32, dy: i32) -> (preview:
    ScreenRect)
    ensures
        preview.x == saturate_i32(follower.screen.x + if follower.horizontal {
            dx as int
        } else {
            0
        }),
        preview.y == saturate_i32(follower.screen.y + if follower.vertical {
            dy as int
        } else {
            0
        }),
        preview.width == follower.screen.width,
        preview.height == follower.screen.height,
{
    ScreenRect {
        x: saturating_add_i32(
            follower.screen.x,
            if follower.horizontal {
                dx
            } else {
                0
            },
        ),
        y: saturating_add_i32(
            follower.screen.y,
            if follower.vertical {
                dy
            } else {
                0
            },
        ),
        width: follower.screen.width,
        height: follower.screen.height,
    }
}

/// The largest pointer movement, in either direction, that a resize preview
/// takes on one axis.
pub const PREVIEW_DRAG_LIMIT: i64 = 0x1000_0000_0000_0000;

/// A screen coordinate as an `i32`, clamped to the type's range.
pub open spec fn clamped_coordinate(v: int) -> int {
    saturate_i32(v)
}

/// An extent as an `i32`: one that does not fit becomes `i32::MAX`, and
/// nothing is smaller than one pixel.
pub open spec fn preview_extent(v: int) -> int {
    let fitted = if i32::MIN <= v <= i32::MAX {
        v
    } else {
        i32::MAX as int
    };
    if fitted < 1 {
        1
    } else {
        fitted
    }
}

/// The leading edge (left or top) of a resize preview on one axis: it moves
/// with the pointer when grabbed, but stops one minimum extent before the
/// trailing edge.
pub open spec fn preview_lead(start: int, extent: int, minimum: int, grabbed: bool, delta: int) -> int {
    let trail = start + extent;
    if grabbed {
        if start + delta < trail - minimum {
            start + delta
        } else {
            trail - minimum
        }
    } else {
        start
    }
}

/// The trailing edge (right or bottom) of a resize preview on one axis,
/// given the leading edge already settled: it moves with the pointer when
/// grabbed, but stays at least one minimum extent after the leading edge.
pub open spec fn preview_trail(start: int, extent: int, lead: int, minimum: int, grabbed: bool, delta: int) -> int {
    let trail = start + extent;
    if grabbed {
        if trail + delta > lead + minimum {
            trail + delta
        } else {
            lead + minimum
        }
    } else {
        trail
    }
}

/// The screen rectangle previewed while the grabbed `edges` of a window on
/// `screen` follow the pointer, moved by `(dx, dy)` whole pixels. A grabbed
/// edge never comes closer to the opposite one than the pixel size of one
/// grid cell (`min_width` by `min_height`).
pub fn resize_preview_from_drag(
    screen: ScreenRect,
    min_width: i64,
    min_height: i64,
    edges: ResizeEdges,
    dx: i64,
    dy: i64,
) -> (preview: ScreenRect)
    requires
        1 <= min_width <= PREVIEW_DRAG_LIMIT,
        1 <= min_height <= PREVIEW_DRAG_LIMIT,
        -PREVIEW_DRAG_LIMIT <= dx <= PREVIEW_DRAG_LIMIT,
        -PREVIEW_DRAG_LIMIT <= dy <= PREVIEW_DRAG_LIMIT,
    ensures
        ({
            let left = preview_lead(screen.x as int, screen.width as int, min_width as int, edges.left, dx as int);
            let right = preview_trail(screen.x as int, screen.width as int, left, min_width as int, edges.right, dx as int);
            let top = preview_lead(screen.y as int, screen.height as int, min_height as int, edges.top, dy as int);
            let bottom = preview_trail(screen.y as int, screen.height as int, top, min_height as int, edges.bottom, dy as int);
            &&& preview.x == clamped_coordinate(left)
            &&& preview.y == clamped_coordinate(top)
            &&& preview.width == preview_extent(right - left)
            &&& preview.height == preview_extent(bottom - top)
        }),
{
    let (left, right) = preview_axis(screen.x, screen.width, min_width, edges.left, edges.right, dx);
    let (top, bottom) = preview_axis(screen.y, screen.height, min_height, edges.top, edges.bottom, dy);
    ScreenRect {
        x: coordinate_i32(left),
        y: coordinate_i32(top),
        width: extent_i32(right - left),
        height: extent_i32(bottom - top),
    }
}

fn preview_axis(start: i32, extent: i32, minimum: i64, lead_grabbed: bool, trail_grabbed: bool, delta: i64) -> (edges: (i64, i64))
    requires
        1 <= minimum <= PREVIEW_DRAG_LIMIT,
        -PREVIEW_DRAG_LIMIT <= delta <= PREVIEW_DRAG_LIMIT,
    ensures
        edges.0 == preview_lead(start as int, extent as int, minimum as int, lead_grabbed, delta as int),
        edges.1 == preview_trail(start as int, extent as int, edges.0 as int, minimum as int, trail_grabbed, delta as int),
        -2 * PREVIEW_DRAG_LIMIT <= edges.0 <= 2 * PREVIEW_DRAG_LIMIT,
        -2 * PREVIEW_DRAG_LIMIT <= edges.1 <= 2 * PREVIEW_DRAG_LIMIT,
{
    let mut lead: i64 = start as i64;
    let trail_start: i64 = start as i64 + extent as i64;
    let mut trail: i64 = trail_start;
    if lead_grabbed {
        let moved = lead + delta;
        let stop = trail_start - minimum;
        lead = if moved < stop { moved } else { stop };
    }
    if trail_grabbed {
        let moved = trail + delta;
        let stop = lead + minimum;
        trail = if moved > stop { moved } else { stop };
    }
    (lead, trail)
}

fn coordinate_i32(v: i64) -> (r: i32)
    ensures
        r == clamped_coordinate(v as int),
{
    if v < i32::MIN as i64 {
        i32::MIN
    } else if v > i32::MAX as i64 {
        i32::MAX
    } else {
        v as i32
    }
}

fn extent_i32(v: i64) -> (r: i32)
    ensures
        r == preview_extent(v as int),
{
    if v < i32::MIN as i64 || v > i32::MAX as i64 {
        i32::MAX
    } else if v < 1 {
        1
    } else {
        v as i32
    }
}

/// Pressing a known button and releasing it again clears exactly its bit.
pub proof fn lemma_press_then_release(held: u8, button: u32)
    requires
        code_bit(button) != 0,
    ensures
        held_after(held_after(held, button, ButtonState::Pressed), button, ButtonState::Released)
            == held & !code_bit(button),
{
    let bit = code_bit(button);
    assert((held | bit) & !bit == held & !bit) by (bit_vector);
}

/// A chord of two different buttons stays held while either one is released
/// and is released entirely once both are, whatever the release order.
pub proof fn lemma_chord_release_orders(first: MouseButton, second: MouseButton)
    requires
        first != second,
    ensures
        chord_mask(seq![first, second]) & !button_bit(first) != 0,
        chord_mask(seq![first, second]) & !button_bit(second) != 0,
        chord_mask(seq![first, second]) & !button_bit(first) & !button_bit(second) == 0,
        chord_mask(seq![first, second]) & !button_bit(second) & !button_bit(first) == 0,
{
    let s = seq![first, second];
    assert(s.drop_last().drop_last() =~= Seq::<MouseButton>::empty());
    assert(s.drop_last() =~= seq![first]);
    let a = button_bit(first);
    let b = button_bit(second);
    assert(a == 1 || a == 2 || a == 4);
    assert(b == 1 || b == 2 || b == 4);
    assert(a != b);
    assert(chord_mask(s.drop_last()) == chord_mask(s.drop_last().drop_last()) | a);
    assert(chord_mask(s.drop_last().drop_last()) == 0);
    assert(chord_mask(s) == chord_mask(s.drop_last()) | b);
    assert((a == 1u8 || a == 2u8 || a == 4u8) && (b == 1u8 || b == 2u8 || b == 4u8) && a != b ==> {
        &&& ((0u8 | a) | b) & !a != 0
        &&& ((0u8 | a) | b) & !b != 0
        &&& ((0u8 | a) | b) & !a & !b == 0
        &&& ((0u8 | a) | b) & !b & !a == 0
    }) by (bit_vector);
}

/// An ordered chord is completed only by pressing its second button while the
/// first is already held.
pub proof fn lemma_chord_needs_first_button_held(held: u8, pressed: u32, chord: [MouseButton; 2])
    requires
        chord[0] != chord[1],
        chord_completed(held, pressed, chord),
    ensures
        pressed == button_code(chord[1]),
        held & button_bit(chord[0]) != 0,
{
    let s = seq![chord[0], chord[1]];
    assert(s.drop_last().drop_last() =~= Seq::<MouseButton>::empty());
    assert(s.drop_last() =~= seq![chord[0]]);
    let a = button_bit(chord[0]);
    let b = button_bit(chord[1]);
    assert(a == 1 || a == 2 || a == 4);
    assert(chord_mask(s.drop_last()) == chord_mask(s.drop_last().drop_last()) | a);
    assert(chord_mask(s.drop_last().drop_last()) == 0);
    assert(chord_mask(s) == chord_mask(s.drop_last()) | b);
    assert((a == 1u8 || a == 2u8 || a == 4u8) && held & ((0u8 | a) | b) == ((0u8 | a) | b) ==> held & a != 0) by (bit_vector);
}

} // verus!
