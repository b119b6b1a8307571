//! Pointer buttons and the configurable mouse gestures.

use vstd::prelude::*;

use crate::config_error::ConfigError;

verus! {

/// A physical pointer button that a gesture can use.
#[derive(Clone, Copy, Debug, PartialEq, Eq, Hash, Structural)]
pub enum MouseButton {
    Left,
    Right,
    Middle,
}

/// The mouse gestures and the buttons that perform them.
#[derive(Clone, Copy, Debug, PartialEq, Eq)]
pub struct MouseConfig {
    /// Milliseconds of pointer inactivity before hiding it. Zero disables it.
    pub cursor_hide_delay_ms: u32,
    pub camera_pan: MouseButton,
    pub camera_zoom: MouseButton,
    /// Ordered chord: hold the first button, then press the second.
    pub move_window: [MouseButton; 2],
    pub resize_window: MouseButton,
    pub reset_window: MouseButton,
    pub reset_window_clicks: u8,
    /// Ordered chord: hold the first button, then press the second.
    pub toggle_floating: [MouseButton; 2],
    pub place_next: MouseButton,
    /// Hold the first button, then click the second `center_window_clicks` times.
    pub center_window: [MouseButton; 2],
    pub center_window_clicks: u8,
    /// Hold the first button, then click the second `close_window_clicks` times.
    pub close_window: [MouseButton; 2],
    pub close_window_clicks: u8,
}

/// The gestures Mio starts with.
pub open spec fn default_mouse() -> MouseConfig {
    MouseConfig {
        cursor_hide_delay_ms: 0,
        camera_pan: MouseButton::Right,
        camera_zoom: MouseButton::Right,
        move_window: [MouseButton::Right, MouseButton::Left],
        resize_window: MouseButton::Left,
        reset_window: MouseButton::Right,
        reset_window_clicks: 2,
        toggle_floating: [MouseButton::Right, MouseButton::Middle],
        place_next: MouseButton::Middle,
        center_window: [MouseButton::Right, MouseButton::Left],
        center_window_clicks: 1,
        close_window: [MouseButton::Right, MouseButton::Left],
        close_window_clicks: 3,
    }
}

impl MouseConfig {
    /// The gestures Mio starts with.
    pub fn default() -> (mouse: MouseConfig)
        ensures
            mouse == default_mouse(),
    {
        MouseConfig {
            cursor_hide_delay_ms: 0,
            camera_pan: MouseButton::Right,
            camera_zoom: MouseButton::Right,
            move_window: [MouseButton::Right, MouseButton::Left],
            resize_window: MouseButton::Left,
            reset_window: MouseButton::Right,
            reset_window_clicks: 2,
            toggle_floating: [MouseButton::Right, MouseButton::Middle],
            place_next: MouseButton::Middle,
            center_window: [MouseButton::Right, MouseButton::Left],
            center_window_clicks: 1,
            close_window: [MouseButton::Right, MouseButton::Left],
            close_window_clicks: 3,
        }
    }
}

/// Whether two ordered button pairs are the same sequence.
pub open spec fn same_pair(a: [MouseButton; 2], b: [MouseButton; 2]) -> bool {
    a[0] == b[0] && a[1] == b[1]
}

fn pair_equal(a: [MouseButton; 2], b: [MouseButton; 2]) -> (r: bool)
    ensures
        r == same_pair(a, b),
{
    a[0] == b[0] && a[1] == b[1]
}

/// The first rule that `mouse` breaks, as the message it is reported with;
/// `None` when the gestures are consistent.
pub open spec fn mouse_violation(mouse: MouseConfig) -> Option<Seq<char>> {
    if mouse.move_window[0] == mouse.move_window[1] {
        Some("mouse move-window requires two different buttons"@)
    } else if mouse.reset_window != mouse.camera_pan {
        Some("mouse reset-window must use the camera-pan button so a possible multi-click can be deferred without leaking a client click"@)
    } else if !(1 <= mouse.reset_window_clicks <= 5) {
        Some("mouse reset-window clicks must be between 1 and 5"@)
    } else if mouse.toggle_floating[0] == mouse.toggle_floating[1] {
        Some("mouse toggle-floating requires two different buttons"@)
    } else if mouse.close_window[0] == mouse.close_window[1] {
        Some("mouse close-window requires two different buttons; hold the first and click the second the configured number of times"@)
    } else if mouse.close_window[0] != mouse.camera_pan || !same_pair(mouse.close_window, mouse.move_window)
        || !same_pair(mouse.center_window, mouse.move_window) {
        Some("mouse center-window and close-window must match move-window and start with camera-pan so pointer motion can safely disambiguate their Actions"@)
    } else if !(1 <= mouse.center_window_clicks <= 5) {
        Some("mouse center-window clicks must be between 1 and 5"@)
    } else if !(1 <= mouse.close_window_clicks <= 5) {
        Some("mouse close-window clicks must be between 1 and 5"@)
    } else if mouse.center_window_clicks == mouse.close_window_clicks {
        Some("mouse center-window and close-window cannot use the same button sequence and click count"@)
    } else {
        None
    }
}

/// Checks that the gestures can be told apart while the buttons are used.
pub fn validate_mouse(mouse: &MouseConfig) -> (result: Result<(), ConfigError>)
    ensures
        match mouse_violation(*mouse) {
            None => result is Ok,
            Some(message) => result matches Err(e) && e.0@ == message,
        },
{
    if mouse.move_window[0] == mouse.move_window[1] {
        return Err(ConfigError::from_str("mouse move-window requires two different buttons"));
    }
    if mouse.reset_window != mouse.camera_pan {
        return Err(
            ConfigError::from_str(
                "mouse reset-window must use the camera-pan button so a possible multi-click can be deferred without leaking a client click",
            ),
        );
    }
    if !(1 <= mouse.reset_window_clicks && mouse.reset_window_clicks <= 5) {
        return Err(ConfigError::from_str("mouse reset-window clicks must be between 1 and 5"));
    }
    if mouse.toggle_floating[0] == mouse.toggle_floating[1] {
        return Err(ConfigError::from_str("mouse toggle-floating requires two different buttons"));
    }
    let close = mouse.close_window;
    if close[0] == close[1] {
        return Err(
            ConfigError::from_str(
                "mouse close-window requires two different buttons; hold the first and click the second the configured number of times",
            ),
        );
    }
    if close[0] != mouse.camera_pan || !pair_equal(close, mouse.move_window) || !pair_equal(
        mouse.center_window,
        mouse.move_window,
    ) {
        return Err(
            ConfigError::from_str(
                "mouse center-window and close-window must match move-window and start with camera-pan so pointer motion can safely disambiguate their Actions",
            ),
        );
    }
    if !(1 <= mouse.center_window_clicks && mouse.center_window_clicks <= 5) {
        return Err(ConfigError::from_str("mouse center-window clicks must be between 1 and 5"));
    }
    if !(1 <= mouse.close_window_clicks && mouse.close_window_clicks <= 5) {
        return Err(ConfigError::from_str("mouse close-window clicks must be between 1 and 5"));
    }
    if mouse.center_window_clicks == mouse.close_window_clicks {
        return Err(
            ConfigError::from_str(
                "mouse center-window and close-window cannot use the same button sequence and click count",
            ),
        );
    }
    Ok(())
}

/// The gestures Mio starts with are consistent.
pub proof fn lemma_default_mouse_is_valid()
    ensures
        mouse_violation(default_mouse()) is None,
{
}

/// Every accepted gesture configuration lets pointer motion tell its actions
/// apart: the move chord uses two buttons and starts with the pan button, the
/// centre and close gestures repeat that chord, and they differ in click count.
pub proof fn lemma_valid_mouse_gestures_are_distinguishable(mouse: MouseConfig)
    requires
        mouse_violation(mouse) is None,
    ensures
        mouse.move_window[0] != mouse.move_window[1],
        mouse.move_window[0] == mouse.camera_pan,
        mouse.reset_window == mouse.camera_pan,
        same_pair(mouse.center_window, mouse.move_window),
        same_pair(mouse.close_window, mouse.move_window),
        mouse.center_window_clicks != mouse.close_window_clicks,
        1 <= mouse.reset_window_clicks <= 5,
{
}

} // verus!
