//! The range checks a configuration must pass once all nodes are read.

use vstd::prelude::*;

use crate::config::{Config, ConfigView};
use crate::config_doc::{node_views, Node, NodeView, SourceFile};
use crate::config_error::ConfigError;
use crate::config_locate::line_hint;
use crate::config_read::{in_file, source_views};
use crate::mouse::mouse_violation;

verus! {

/// The outcomes of the floating-point comparisons among the range checks,
/// made on the configuration's numbers as binary64 values (`output scale`,
/// `animation speed`) or as those values rounded to binary32 (the others).
#[derive(Clone, Copy, Debug, PartialEq, Eq, Structural)]
pub struct FloatChecks {
    /// The output scale is finite and in `[0.5, 4.0]`.
    pub scale: bool,
    /// The appearance opacity is in `[0, 1]`.
    pub opacity: bool,
    /// Both opacity-toggle values are finite and in `[0, 1]`.
    pub opacity_toggle: bool,
    /// The cursor-wake threshold is finite and in `[1, 10000]`.
    pub cursor_wake_threshold: bool,
    /// The cursor-wake strength is finite and in `[0, 0.2]`.
    pub cursor_wake_strength: bool,
    /// The cursor-wake width is finite and in `[1, 64]`.
    pub cursor_wake_width: bool,
    /// The two opacity-toggle values differ by at least `f32::EPSILON`.
    pub opacity_toggle_distinct: bool,
    /// The animation speed is finite and not negative.
    pub animation_speed: bool,
    /// The blur offset is finite and in `[0.5, 20]`.
    pub blur_offset: bool,
    /// The shadow radius is finite and in `[0, 256]`.
    pub shadow_radius: bool,
}

/// The first range check a configuration fails, as the message it is
/// reported with, given the outcomes of the floating-point comparisons.
pub open spec fn violation(config: ConfigView, floats: FloatChecks) -> Option<Seq<char>> {
    let a = config.appearance;
    let e = config.effects;
    if !floats.scale {
        Some("output scale must be between 0.5 and 4.0"@)
    } else if !floats.opacity {
        Some("appearance opacity must be between 0 and 1"@)
    } else if !floats.opacity_toggle {
        Some("appearance opacity-toggle values must be between 0 and 1"@)
    } else if !floats.cursor_wake_threshold {
        Some("effects cursor-wake-threshold must be between 1 and 10000"@)
    } else if !floats.cursor_wake_strength {
        Some("effects cursor-wake-strength must be between 0 and 0.2"@)
    } else if !floats.cursor_wake_width {
        Some("effects cursor-wake-width must be between 1 and 64"@)
    } else if !(100 <= e.cursor_wake_duration <= 10_000) {
        Some("effects cursor-wake-duration must be between 100 and 10000 milliseconds"@)
    } else if !(100 <= e.window_transition_duration <= 5_000) {
        Some("effects window-transition-duration must be between 100 and 5000 milliseconds"@)
    } else if !floats.opacity_toggle_distinct {
        Some("appearance opacity-toggle values must be different"@)
    } else if !floats.animation_speed {
        Some("animation speed must be finite and non-negative"@)
    } else if !(1 <= e.blur_passes <= 8) {
        Some("effects blur-passes must be between 1 and 8"@)
    } else if !floats.blur_offset {
        Some("effects blur-offset must be between 0.5 and 20"@)
    } else if !floats.shadow_radius {
        Some("effects shadow-radius must be between 0 and 256"@)
    } else if !(-4096 <= e.shadow_offset[0] <= 4096) || !(-4096 <= e.shadow_offset[1] <= 4096) {
        Some("effects shadow-offset values must be between -4096 and 4096"@)
    } else if a.corner_radius > 4096 || a.gaps > 4096 || a.focus_indicator_width > 4096
        || a.focus_indicator_height > 4096 || a.window_border_width > 4096 {
        Some("appearance dimensions must not exceed 4096"@)
    } else {
        mouse_violation(config.mouse)
    }
}

/// Checks the ranges of a configuration's values and the consistency of its
/// mouse gestures, given the outcomes of the floating-point comparisons.
pub fn validate(config: &Config, floats: &FloatChecks) -> (r: Result<(), ConfigError>)
    ensures
        match violation(config@, *floats) {
            None => r is Ok,
            Some(m) => r matches Err(e) && e.0@ == m,
        },
{
    let a = &config.appearance;
    let e = &config.effects;
    if !floats.scale {
        return Err(ConfigError::from_str("output scale must be between 0.5 and 4.0"));
    }
    if !floats.opacity {
        return Err(ConfigError::from_str("appearance opacity must be between 0 and 1"));
    }
    if !floats.opacity_toggle {
        return Err(ConfigError::from_str("appearance opacity-toggle values must be between 0 and 1"));
    }
    if !floats.cursor_wake_threshold {
        return Err(ConfigError::from_str("effects cursor-wake-threshold must be between 1 and 10000"));
    }
    if !floats.cursor_wake_strength {
        return Err(ConfigError::from_str("effects cursor-wake-strength must be between 0 and 0.2"));
    }
    if !floats.cursor_wake_width {
        return Err(ConfigError::from_str("effects cursor-wake-width must be between 1 and 64"));
    }
    if !(100 <= e.cursor_wake_duration && e.cursor_wake_duration <= 10_000) {
        return Err(ConfigError::from_str("effects cursor-wake-duration must be between 100 and 10000 milliseconds"));
    }
    if !(100 <= e.window_transition_duration && e.window_transition_duration <= 5_000) {
        return Err(
            ConfigError::from_str("effects window-transition-duration must be between 100 and 5000 milliseconds"),
        );
    }
    if !floats.opacity_toggle_distinct {
        return Err(ConfigError::from_str("appearance opacity-toggle values must be different"));
    }
    if !floats.animation_speed {
        return Err(ConfigError::from_str("animation speed must be finite and non-negative"));
    }
    if !(1 <= e.blur_passes && e.blur_passes <= 8) {
        return Err(ConfigError::from_str("effects blur-passes must be between 1 and 8"));
    }
    if !floats.blur_offset {
        return Err(ConfigError::from_str("effects blur-offset must be between 0.5 and 20"));
    }
    if !floats.shadow_radius {
        return Err(ConfigError::from_str("effects shadow-radius must be between 0 and 256"));
    }
    if !(-4096 <= e.shadow_offset[0] && e.shadow_offset[0] <= 4096) || !(-4096 <= e.shadow_offset[1]
        && e.shadow_offset[1] <= 4096) {
        return Err(ConfigError::from_str("effects shadow-offset values must be between -4096 and 4096"));
    }
    if a.corner_radius > 4096 || a.gaps > 4096 || a.focus_indicator_width > 4096 || a.focus_indicator_height
        > 4096 || a.window_border_width > 4096 {
        return Err(ConfigError::from_str("appearance dimensions must not exceed 4096"));
    }
    crate::mouse::validate_mouse(&config.mouse)
}

/// Where a range-check error is reported: in the file of the last node read
/// from a file whose text has a line the message most likely refers to,
/// searching from the last node back (`i` nodes remain to search).
pub open spec fn validation_hint(
    message: Seq<char>,
    nodes: Seq<NodeView>,
    sources: Seq<(Seq<char>, Seq<char>)>,
    i: int,
) -> Option<Seq<char>>
    decreases i,
{
    if i <= 0 || i > nodes.len() {
        None
    } else {
        match nodes[i - 1].origin {
            Some(o) => {
                let file = sources[o.file as int];
                match line_hint(file.1, message) {
                    Some((line, text)) => Some(in_file(file.0, message, line, text)),
                    None => validation_hint(message, nodes, sources, i - 1),
                }
            },
            None => validation_hint(message, nodes, sources, i - 1),
        }
    }
}

/// A range-check error as it is reported.
pub open spec fn located_violation(message: Seq<char>, nodes: Seq<NodeView>, sources: Seq<(Seq<char>, Seq<char>)>) -> Seq<char> {
    match validation_hint(message, nodes, sources, nodes.len() as int) {
        Some(m) => m,
        None => message,
    }
}

/// Places a range-check error in the file and line it most likely refers to.
pub fn locate_violation(error: ConfigError, nodes: &Vec<Node>, sources: &Vec<SourceFile>) -> (e: ConfigError)
    requires
        crate::config_read::origins_known(node_views(nodes@), sources@),
    ensures
        e.0@ == located_violation(error.0@, node_views(nodes@), source_views(sources@)),
{
    let ghost views = node_views(nodes@);
    let ghost files = source_views(sources@);
    let message = error.message_chars();
    let mut i: usize = nodes.len();
    while i > 0
        invariant
            i <= nodes@.len(),
            views == node_views(nodes@),
            files == source_views(sources@),
            message@ == error.0@,
            crate::config_read::origins_known(views, sources@),
            validation_hint(message@, views, files, views.len() as int) == validation_hint(
                message@,
                views,
                files,
                i as int,
            ),
        decreases i,
    {
        let node = &nodes[i - 1];
        assert(views[i - 1] == node@);
        match &node.origin {
            Some(o) => {
                let file = &sources[o.file];
                assert(files[o.file as int] == (file.path@, file.text@));
                let text = crate::text::chars_of(file.text.as_str());
                match crate::config_locate::error_line_hint(&text, &message) {
                    Some((line, hint)) => {
                        let mut m = crate::text::chars_of(file.path.as_str());
                        crate::text::append_str(&mut m, ": ");
                        crate::text::append_chars(&mut m, &message);
                        crate::text::append_str(&mut m, " at line ");
                        crate::text::append_chars(&mut m, &crate::text::decimal_of(line as u64));
                        crate::text::append_str(&mut m, ": `");
                        crate::text::append_chars(&mut m, &crate::text::trim_chars(&hint));
                        crate::text::append_str(&mut m, "`");
                        assert(m@ =~= in_file(file.path@, message@, line as int, hint@));
                        return ConfigError::from_chars(&m);
                    },
                    None => {},
                }
            },
            None => {},
        }
        i = i - 1;
    }
    error
}

/// The configuration once it passes the range checks, or the first check it
/// fails, placed in the file and line it most likely refers to.
pub open spec fn checked(config: ConfigView, floats: FloatChecks, nodes: Seq<NodeView>, sources: Seq<(Seq<char>, Seq<char>)>) -> Result<
    ConfigView,
    Seq<char>,
> {
    match violation(config, floats) {
        None => Ok(config),
        Some(m) => Err(located_violation(m, nodes, sources)),
    }
}

/// Runs the range checks on a configuration read from `nodes`.
pub fn checked_config(config: Config, floats: &FloatChecks, nodes: &Vec<Node>, sources: &Vec<SourceFile>) -> (r: Result<
    Config,
    ConfigError,
>)
    requires
        crate::config_read::origins_known(node_views(nodes@), sources@),
    ensures
        match checked(config@, *floats, node_views(nodes@), source_views(sources@)) {
            Ok(c) => r matches Ok(d) && d@ == c,
            Err(m) => r matches Err(e) && e.0@ == m,
        },
{
    match validate(&config, floats) {
        Ok(()) => Ok(config),
        Err(e) => Err(locate_violation(e, nodes, sources)),
    }
}

/// The built-in configuration passes every range check whose
/// floating-point comparison holds of it.
pub proof fn lemma_defaults_pass_range_checks(floats: FloatChecks)
    requires
        floats.scale,
        floats.opacity,
        floats.opacity_toggle,
        floats.cursor_wake_threshold,
        floats.cursor_wake_strength,
        floats.cursor_wake_width,
        floats.opacity_toggle_distinct,
        floats.animation_speed,
        floats.blur_offset,
        floats.shadow_radius,
    ensures
        violation(crate::config_read::default_config(), floats) is None,
{
    crate::mouse::lemma_default_mouse_is_valid();
}

} // verus!
