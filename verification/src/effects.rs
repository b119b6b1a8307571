//! Settings of the visual effects, and where the effects drawn around a
//! window go.

use vstd::prelude::*;

use crate::geometry::{half_toward_zero, i32_max, i32_min, saturate_i32, saturating_add_i32, saturating_sub_i32, ScreenRect};

verus! {

/// How windows appear and disappear.
#[derive(Clone, Copy, Debug, PartialEq, Eq, Structural)]
pub enum WindowTransitionEffect {
    /// No transition.
    Disabled,
    Water,
    SciFi,
}

impl WindowTransitionEffect {
    /// The value the transition shader's `transition_effect` uniform takes.
    pub fn shader_value(self) -> (value: i32)
        ensures
            value == match self {
                WindowTransitionEffect::Disabled => 0i32,
                WindowTransitionEffect::Water => 1i32,
                WindowTransitionEffect::SciFi => 2i32,
            },
    {
        match self {
            WindowTransitionEffect::Disabled => 0,
            WindowTransitionEffect::Water => 1,
            WindowTransitionEffect::SciFi => 2,
        }
    }
}

/// The glow under the focused window: as wide as the window (at least one
/// pixel), sixteen times the indicator `height` tall (at least 32 pixels,
/// saturating), and centred a quarter of its height above the window's
/// bottom edge.
pub open spec fn focus_glow_rect(window: ScreenRect, height: i32) -> ScreenRect {
    let glow_height = if saturate_i32(height * 16) < 32 {
        32
    } else {
        saturate_i32(height * 16)
    };
    let center_y = saturate_i32(window.y + window.height);
    ScreenRect {
        x: window.x,
        y: saturate_i32(center_y - glow_height / 4) as i32,
        width: if window.width < 1 {
            1
        } else {
            window.width
        },
        height: glow_height as i32,
    }
}

/// Where the focus glow of a window presented at `window` is drawn, for an
/// indicator `height` pixels high.
pub fn focus_glow_geometry(window: ScreenRect, height: i32) -> (glow: ScreenRect)
    ensures
        glow == focus_glow_rect(window, height),
{
    let scaled: i64 = height as i64 * 16;
    let scaled: i32 = if scaled > i32::MAX as i64 {
        i32::MAX
    } else if scaled < i32::MIN as i64 {
        i32::MIN
    } else {
        scaled as i32
    };
    let glow_height: i32 = if scaled < 32 {
        32
    } else {
        scaled
    };
    let center_y = saturating_add_i32(window.y, window.height);
    ScreenRect {
        x: window.x,
        y: saturating_sub_i32(center_y, glow_height / 4),
        width: if window.width < 1 {
            1
        } else {
            window.width
        },
        height: glow_height,
    }
}

/// The edges of the area a window's shadow covers: the window and its copy
/// moved by `offset`, widened by `extent` on every side.
pub open spec fn shadow_edges(window: ScreenRect, extent: int, offset: (int, int)) -> (int, int, int, int) {
    let sx = window.x + offset.0;
    let sy = window.y + offset.1;
    let left = (if sx < window.x {
        sx
    } else {
        window.x as int
    }) - extent;
    let top = (if sy < window.y {
        sy
    } else {
        window.y as int
    }) - extent;
    let right = (if sx + window.width > window.x + window.width {
        sx + window.width
    } else {
        window.x + window.width
    }) + extent;
    let bottom = (if sy + window.height > window.y + window.height {
        sy + window.height
    } else {
        window.y + window.height
    }) + extent;
    (left, top, right, bottom)
}

/// Whether every coordinate of a window's shadow, and every step on the way
/// to it, fits in an `i32`.
pub open spec fn shadow_fits(window: ScreenRect, extent: int, offset: (int, int)) -> bool {
    let (left, top, right, bottom) = shadow_edges(window, extent, offset);
    let sx = window.x + offset.0;
    let sy = window.y + offset.1;
    let fits = |v: int| i32_min() <= v <= i32_max();
    &&& fits(sx) && fits(sy)
    &&& fits(sx + window.width) && fits(sy + window.height)
    &&& fits(window.x + window.width) && fits(window.y + window.height)
    &&& fits(left) && fits(top) && fits(right) && fits(bottom)
    &&& fits(right - left) && fits(bottom - top)
    &&& fits(sx - left) && fits(sy - top)
}

/// The area a window's shadow is drawn in, for a window presented at
/// `window`, a shadow reaching `extent` pixels beyond its blur source
/// (three blur radii, rounded up) and moved by `offset`; and, within that
/// area, where the shadow's window-shaped source lies.
pub fn shadow_geometry(window: ScreenRect, extent: i32, offset: [i32; 2]) -> (r: (ScreenRect, ScreenRect))
    requires
        shadow_fits(window, extent as int, (offset[0] as int, offset[1] as int)),
    ensures
        ({
            let (left, top, right, bottom) = shadow_edges(window, extent as int, (offset[0] as int, offset[1] as int));
            &&& r.0 == ScreenRect {
                x: left as i32,
                y: top as i32,
                width: (right - left) as i32,
                height: (bottom - top) as i32,
            }
            &&& r.1 == ScreenRect {
                x: (window.x + offset[0] - left) as i32,
                y: (window.y + offset[1] - top) as i32,
                width: window.width,
                height: window.height,
            }
        }),
{
    let sx: i32 = window.x + offset[0];
    let sy: i32 = window.y + offset[1];
    let shifted_right: i32 = sx + window.width;
    let shifted_bottom: i32 = sy + window.height;
    let window_right: i32 = window.x + window.width;
    let window_bottom: i32 = window.y + window.height;
    let left: i32 = (if sx < window.x {
        sx
    } else {
        window.x
    }) - extent;
    let top: i32 = (if sy < window.y {
        sy
    } else {
        window.y
    }) - extent;
    let right: i32 = (if shifted_right > window_right {
        shifted_right
    } else {
        window_right
    }) + extent;
    let bottom: i32 = (if shifted_bottom > window_bottom {
        shifted_bottom
    } else {
        window_bottom
    }) + extent;
    (
        ScreenRect { x: left, y: top, width: right - left, height: bottom - top },
        ScreenRect { x: sx - left, y: sy - top, width: window.width, height: window.height },
    )
}

/// One blur level of a texture `extent` pixels wide or high: half of it,
/// rounded toward zero, and never less than one pixel.
pub open spec fn halved_extent(extent: int) -> int {
    if half_toward_zero(extent) < 1 {
        1
    } else {
        half_toward_zero(extent)
    }
}

/// The size of blur level `level` (level 0 being the full texture).
pub open spec fn blur_level_size(width: int, height: int, level: nat) -> (int, int)
    decreases level,
{
    if level == 0 {
        (width, height)
    } else {
        let (w, h) = blur_level_size(width, height, (level - 1) as nat);
        (halved_extent(w), halved_extent(h))
    }
}

fn halve_extent(extent: i32) -> (r: i32)
    ensures
        r == halved_extent(extent as int),
{
    let half = extent / 2;
    if half < 1 {
        1
    } else {
        half
    }
}

/// The sizes of the textures a blur of `passes` down-sampling passes works
/// through for a `width` by `height` texture: each pass halves the previous
/// size, keeping at least one pixel.
pub fn blur_level_sizes(width: i32, height: i32, passes: u8) -> (sizes: Vec<(i32, i32)>)
    ensures
        sizes@.len() == passes,
        forall|k: int|
            0 <= k < passes ==> (#[trigger] sizes@[k]).0 == blur_level_size(width as int, height as int, (k + 1) as nat).0
                && sizes@[k].1 == blur_level_size(width as int, height as int, (k + 1) as nat).1,
{
    let mut sizes: Vec<(i32, i32)> = Vec::new();
    let mut w = width;
    let mut h = height;
    let mut k: u8 = 0;
    while k < passes
        invariant
            k <= passes,
            sizes@.len() == k,
            (w as int, h as int) == blur_level_size(width as int, height as int, k as nat),
            forall|j: int|
                0 <= j < k ==> (#[trigger] sizes@[j]).0 == blur_level_size(width as int, height as int, (j + 1) as nat).0
                    && sizes@[j].1 == blur_level_size(width as int, height as int, (j + 1) as nat).1,
        decreases passes - k,
    {
        w = halve_extent(w);
        h = halve_extent(h);
        sizes.push((w, h));
        k = k + 1;
    }
    sizes
}

} // verus!
