//! Multi-click gestures and wheel scrolling at an output edge. Pointer
//! distances and scroll amounts are floating-point values measured by the
//! caller; these decisions take the outcome of those comparisons.

use vstd::prelude::*;

use crate::direction::Direction;

verus! {

/// The first click of a held-button close gesture.
#[derive(Clone, Copy, Debug, PartialEq, Eq, Structural)]
pub struct PendingCloseClick {
    /// The window that was clicked.
    pub id: u64,
    /// The last moment (in nanoseconds) a further click counts.
    pub deadline_ns: u64,
    /// The clicks counted so far.
    pub clicks: u8,
}

/// Whether a click continues a close gesture: on the same window, no later
/// than the deadline, and within the double-click distance of the first
/// click (`near`, measured by the caller).
pub fn close_click_matches(first: PendingCloseClick, window: Option<u64>, now_ns: u64, near: bool) -> (matches: bool)
    ensures
        matches == (window == Some(first.id) && now_ns <= first.deadline_ns && near),
{
    match window {
        Some(id) => id == first.id && now_ns <= first.deadline_ns && near,
        None => false,
    }
}

/// The click count after a click that continues the close gesture (stopping
/// at 255), or `None` when the click starts over.
pub fn next_close_click_count(first: PendingCloseClick, window: Option<u64>, now_ns: u64, near: bool) -> (count: Option<
    u8,
>)
    ensures
        count == if window == Some(first.id) && now_ns <= first.deadline_ns && near {
            Some(if first.clicks < u8::MAX {
                (first.clicks + 1) as u8
            } else {
                u8::MAX
            })
        } else {
            None::<u8>
        },
{
    if close_click_matches(first, window, now_ns, near) {
        Some(first.clicks.saturating_add(1))
    } else {
        None
    }
}

/// A released click that may become a double click.
#[derive(Clone, Copy, Debug, PartialEq, Eq, Structural)]
pub struct PendingPointerClick {
    /// The evdev code of the button.
    pub button: u32,
    /// The window under the click, if any.
    pub window: Option<u64>,
    /// The last moment (in nanoseconds) a further click counts.
    pub deadline_ns: u64,
    /// The clicks counted so far.
    pub clicks: u8,
}

/// Whether a click continues a pending click: the same button on the same
/// window (there must be one), no later than the deadline, and within the
/// double-click distance (`near`, measured by the caller).
pub fn pending_click_matches(first: PendingPointerClick, button: u32, window: Option<u64>, now_ns: u64, near: bool) -> (matches: bool)
    ensures
        matches == (first.button == button && first.window is Some && first.window == window && now_ns
            <= first.deadline_ns && near),
{
    if first.button != button || now_ns > first.deadline_ns || !near {
        return false;
    }
    match (first.window, window) {
        (Some(a), Some(b)) => a == b,
        _ => false,
    }
}

/// Where a scroll event came from.
#[derive(Clone, Copy, Debug, PartialEq, Eq, Structural)]
pub enum AxisSource {
    Wheel,
    WheelTilt,
    Finger,
    Continuous,
}

/// How a scroll amount compares with `+0.0` in the total order of
/// floating-point values (so `-0.0` is negative).
#[derive(Clone, Copy, Debug, PartialEq, Eq, Structural)]
pub enum ScrollSign {
    Negative,
    Zero,
    Positive,
}

/// The focus direction a physical wheel selects while the pointer rests on
/// an output edge: the vertical amount (or the horizontal one when the
/// vertical one is zero) moves along the edge's axis, backwards when
/// negative and forwards when positive.
pub open spec fn edge_wheel_direction(
    source: AxisSource,
    edge: Option<Direction>,
    horizontal: ScrollSign,
    vertical: ScrollSign,
) -> Option<Direction> {
    let scroll = if vertical == ScrollSign::Zero {
        horizontal
    } else {
        vertical
    };
    if !(source == AxisSource::Wheel || source == AxisSource::WheelTilt) {
        None
    } else {
        match edge {
            None => None,
            Some(e) => {
                let horizontal_edge = e == Direction::Left || e == Direction::Right;
                match scroll {
                    ScrollSign::Zero => None,
                    ScrollSign::Negative => Some(
                        if horizontal_edge {
                            Direction::Left
                        } else {
                            Direction::Up
                        },
                    ),
                    ScrollSign::Positive => Some(
                        if horizontal_edge {
                            Direction::Right
                        } else {
                            Direction::Down
                        },
                    ),
                }
            },
        }
    }
}

/// The focus direction a physical wheel selects at an output edge.
pub fn edge_wheel_focus_direction(
    source: AxisSource,
    edge: Option<Direction>,
    horizontal: ScrollSign,
    vertical: ScrollSign,
) -> (direction: Option<Direction>)
    ensures
        direction == edge_wheel_direction(source, edge, horizontal, vertical),
{
    match source {
        AxisSource::Wheel | AxisSource::WheelTilt => {},
        _ => return None,
    }
    let scroll = match vertical {
        ScrollSign::Zero => horizontal,
        _ => vertical,
    };
    let e = match edge {
        Some(e) => e,
        None => return None,
    };
    let horizontal_edge = match e {
        Direction::Left | Direction::Right => true,
        _ => false,
    };
    match scroll {
        ScrollSign::Zero => None,
        ScrollSign::Negative => Some(
            if horizontal_edge {
                Direction::Left
            } else {
                Direction::Up
            },
        ),
        ScrollSign::Positive => Some(
            if horizontal_edge {
                Direction::Right
            } else {
                Direction::Down
            },
        ),
    }
}

/// Scrolling back undoes scrolling forth: at any edge, a physical wheel
/// turned one way and then the other selects opposite directions along the
/// same axis.
pub proof fn lemma_opposite_scrolls_select_opposite_directions(source: AxisSource, edge: Direction)
    requires
        source == AxisSource::Wheel || source == AxisSource::WheelTilt,
    ensures
        ({
            let back = edge_wheel_direction(source, Some(edge), ScrollSign::Zero, ScrollSign::Negative);
            let forth = edge_wheel_direction(source, Some(edge), ScrollSign::Zero, ScrollSign::Positive);
            back is Some && forth is Some && back != forth && ((back == Some(Direction::Left)) == (forth
                == Some(Direction::Right)))
        }),
{
}

} // verus!
