//! The compositor's configuration and its built-in defaults.

use vstd::prelude::*;

use crate::config_doc::Number;
use crate::direction::Direction;
use crate::effects::WindowTransitionEffect;
use crate::keys::KeyChord;
use crate::mouse::{default_mouse, MouseConfig};

verus! {

/// The binary64 bits of `1.0`.
pub const REAL_ONE: u64 = 0x3FF0_0000_0000_0000;

/// The binary64 bits of `0.8`.
pub const REAL_EIGHT_TENTHS: u64 = 0x3FE9_9999_9999_999A;

/// The binary64 bits of `0.032`.
pub const REAL_WAKE_STRENGTH: u64 = 0x3FA0_624D_D2F1_A9FC;

/// The binary64 bits of `8.5`.
pub const REAL_WAKE_WIDTH: u64 = 0x4021_0000_0000_0000;

/// A color as four hex channels (`#RRGGBBAA`), each a fraction of 255.
#[derive(Clone, Copy, Debug, PartialEq, Eq, Structural)]
pub struct Color {
    pub red: u8,
    pub green: u8,
    pub blue: u8,
    pub alpha: u8,
}

/// Opaque white.
pub open spec fn white() -> Color {
    Color { red: 255, green: 255, blue: 255, alpha: 255 }
}

/// Settings of the output.
#[derive(Clone, Copy, Debug, PartialEq)]
pub struct OutputConfig {
    pub scale: Number,
}

/// Colors, sizes and opacities of the desktop.
#[derive(Clone, Copy, Debug, PartialEq)]
pub struct Appearance {
    pub background_color: Color,
    pub window_border_width: u32,
    pub window_border_color: Color,
    pub focus_indicator_width: u32,
    pub focus_indicator_height: u32,
    pub focus_indicator_color: Color,
    pub corner_radius: u32,
    pub gaps: u32,
    pub opacity: Number,
    pub opacity_toggle: [Number; 2],
}

/// The appearance Mio starts with.
pub open spec fn default_appearance() -> Appearance {
    Appearance {
        background_color: white(),
        window_border_width: 1,
        window_border_color: Color { red: 255, green: 255, blue: 255, alpha: 46 },
        focus_indicator_width: 320,
        focus_indicator_height: 2,
        focus_indicator_color: white(),
        corner_radius: 0,
        gaps: 24,
        opacity: Number::Real(REAL_ONE),
        opacity_toggle: [Number::Real(REAL_ONE), Number::Real(REAL_EIGHT_TENTHS)],
    }
}

impl Appearance {
    /// The appearance Mio starts with.
    pub fn default() -> (appearance: Appearance)
        ensures
            appearance == default_appearance(),
    {
        Appearance {
            background_color: Color { red: 255, green: 255, blue: 255, alpha: 255 },
            window_border_width: 1,
            window_border_color: Color { red: 255, green: 255, blue: 255, alpha: 46 },
            focus_indicator_width: 320,
            focus_indicator_height: 2,
            focus_indicator_color: Color { red: 255, green: 255, blue: 255, alpha: 255 },
            corner_radius: 0,
            gaps: 24,
            opacity: Number::Real(REAL_ONE),
            opacity_toggle: [Number::Real(REAL_ONE), Number::Real(REAL_EIGHT_TENTHS)],
        }
    }
}

/// Settings of the visual effects.
#[derive(Clone, Copy, Debug, PartialEq)]
pub struct Effects {
    pub blur_passes: u8,
    pub blur_offset: Number,
    pub shadow_radius: Number,
    pub shadow_offset: [i32; 2],
    /// `None`: the built-in shadow color, black at a quarter of full alpha.
    pub shadow_color: Option<Color>,
    pub cursor_wake: bool,
    pub cursor_wake_threshold: Number,
    pub cursor_wake_strength: Number,
    pub cursor_wake_width: Number,
    pub cursor_wake_duration: u32,
    pub window_transition: WindowTransitionEffect,
    pub window_transition_duration: u32,
}

/// The effects Mio starts with.
pub open spec fn default_effects() -> Effects {
    Effects {
        blur_passes: 3,
        blur_offset: Number::Integer(2),
        shadow_radius: Number::Integer(16),
        shadow_offset: [0, 0],
        shadow_color: None,
        cursor_wake: true,
        cursor_wake_threshold: Number::Integer(1600),
        cursor_wake_strength: Number::Real(REAL_WAKE_STRENGTH),
        cursor_wake_width: Number::Real(REAL_WAKE_WIDTH),
        cursor_wake_duration: 1400,
        window_transition: WindowTransitionEffect::Water,
        window_transition_duration: 420,
    }
}

impl Effects {
    /// The effects Mio starts with.
    pub fn default() -> (effects: Effects)
        ensures
            effects == default_effects(),
    {
        Effects {
            blur_passes: 3,
            blur_offset: Number::Integer(2),
            shadow_radius: Number::Integer(16),
            shadow_offset: [0, 0],
            shadow_color: None,
            cursor_wake: true,
            cursor_wake_threshold: Number::Integer(1600),
            cursor_wake_strength: Number::Real(REAL_WAKE_STRENGTH),
            cursor_wake_width: Number::Real(REAL_WAKE_WIDTH),
            cursor_wake_duration: 1400,
            window_transition: WindowTransitionEffect::Water,
            window_transition_duration: 420,
        }
    }
}

/// A size in grid cells.
#[derive(Clone, Copy, Debug, PartialEq, Eq, Structural)]
pub struct GridDimensions {
    pub width: u64,
    pub height: u64,
}

/// A program started when the pointer is pushed against an output edge.
#[derive(Clone, Debug, PartialEq, Eq)]
pub struct EdgeCommand {
    pub edge: Direction,
    pub argv: Vec<String>,
}

/// The mathematical form of an [`EdgeCommand`].
pub struct EdgeCommandView {
    pub edge: Direction,
    pub argv: Seq<Seq<char>>,
}

/// The strings of a list of arguments.
pub open spec fn texts(argv: Seq<String>) -> Seq<Seq<char>> {
    argv.map_values(|a: String| a@)
}

impl View for EdgeCommand {
    type V = EdgeCommandView;

    open spec fn view(&self) -> EdgeCommandView {
        EdgeCommandView { edge: self.edge, argv: texts(self.argv@) }
    }
}

/// What a key binding does.
#[derive(Clone, Debug, PartialEq)]
pub enum ConfigAction {
    Close,
    Camera(Direction),
    CameraNudge(Direction),
    CameraZoom(Number),
    CycleOutput,
    Focus(Direction),
    Move(Direction),
    Resize(Direction),
    PlaceNext(Direction),
    ToggleFloating,
    ToggleFullscreen,
    ToggleMaximized,
    ToggleWindowSize,
    ToggleOpacity,
    ToggleBlur,
    ToggleCursorWake,
    ClearOpacity,
    ToggleOverview,
    SelectOverview,
    ReloadConfig,
    Spawn(Vec<String>),
}

/// The mathematical form of a [`ConfigAction`].
pub enum ActionView {
    Close,
    Camera(Direction),
    CameraNudge(Direction),
    CameraZoom(Number),
    CycleOutput,
    Focus(Direction),
    Move(Direction),
    Resize(Direction),
    PlaceNext(Direction),
    ToggleFloating,
    ToggleFullscreen,
    ToggleMaximized,
    ToggleWindowSize,
    ToggleOpacity,
    ToggleBlur,
    ToggleCursorWake,
    ClearOpacity,
    ToggleOverview,
    SelectOverview,
    ReloadConfig,
    Spawn(Seq<Seq<char>>),
}

impl View for ConfigAction {
    type V = ActionView;

    open spec fn view(&self) -> ActionView {
        match self {
            ConfigAction::Close => ActionView::Close,
            ConfigAction::Camera(d) => ActionView::Camera(*d),
            ConfigAction::CameraNudge(d) => ActionView::CameraNudge(*d),
            ConfigAction::CameraZoom(z) => ActionView::CameraZoom(*z),
            ConfigAction::CycleOutput => ActionView::CycleOutput,
            ConfigAction::Focus(d) => ActionView::Focus(*d),
            ConfigAction::Move(d) => ActionView::Move(*d),
            ConfigAction::Resize(d) => ActionView::Resize(*d),
            ConfigAction::PlaceNext(d) => ActionView::PlaceNext(*d),
            ConfigAction::ToggleFloating => ActionView::ToggleFloating,
            ConfigAction::ToggleFullscreen => ActionView::ToggleFullscreen,
            ConfigAction::ToggleMaximized => ActionView::ToggleMaximized,
            ConfigAction::ToggleWindowSize => ActionView::ToggleWindowSize,
            ConfigAction::ToggleOpacity => ActionView::ToggleOpacity,
            ConfigAction::ToggleBlur => ActionView::ToggleBlur,
            ConfigAction::ToggleCursorWake => ActionView::ToggleCursorWake,
            ConfigAction::ClearOpacity => ActionView::ClearOpacity,
            ConfigAction::ToggleOverview => ActionView::ToggleOverview,
            ConfigAction::SelectOverview => ActionView::SelectOverview,
            ConfigAction::ReloadConfig => ActionView::ReloadConfig,
            ConfigAction::Spawn(argv) => ActionView::Spawn(texts(argv@)),
        }
    }
}

/// A key chord and the action it triggers.
#[derive(Clone, Debug, PartialEq)]
pub struct KeyBinding {
    pub chord: KeyChord,
    pub action: ConfigAction,
}

/// The mathematical form of a [`KeyBinding`].
pub struct BindingView {
    pub chord: KeyChord,
    pub action: ActionView,
}

impl View for KeyBinding {
    type V = BindingView;

    open spec fn view(&self) -> BindingView {
        BindingView { chord: self.chord, action: self.action@ }
    }
}

/// Window properties applied to windows whose app id and title match.
#[derive(Clone, Debug, PartialEq)]
pub struct WindowRule {
    pub app_id: Option<String>,
    pub title: Option<String>,
    pub opacity: Option<Number>,
    pub floating: Option<bool>,
    pub blur: Option<bool>,
}

/// The mathematical form of a [`WindowRule`].
pub struct WindowRuleView {
    pub app_id: Option<Seq<char>>,
    pub title: Option<Seq<char>>,
    pub opacity: Option<Number>,
    pub floating: Option<bool>,
    pub blur: Option<bool>,
}

/// The text of an optional string.
pub open spec fn opt_text(s: Option<String>) -> Option<Seq<char>> {
    match s {
        Some(t) => Some(t@),
        None => None,
    }
}

impl View for WindowRule {
    type V = WindowRuleView;

    open spec fn view(&self) -> WindowRuleView {
        WindowRuleView {
            app_id: opt_text(self.app_id),
            title: opt_text(self.title),
            opacity: self.opacity,
            floating: self.floating,
            blur: self.blur,
        }
    }
}

/// The views of a list of bindings.
pub open spec fn binding_views(bindings: Seq<KeyBinding>) -> Seq<BindingView> {
    bindings.map_values(|b: KeyBinding| b@)
}

/// The views of a list of edge commands.
pub open spec fn edge_views(edges: Seq<EdgeCommand>) -> Seq<EdgeCommandView> {
    edges.map_values(|e: EdgeCommand| e@)
}

/// The chords of a list of bindings.
pub open spec fn chords_of(bindings: Seq<BindingView>) -> Seq<KeyChord> {
    bindings.map_values(|b: BindingView| b.chord)
}

/// The edges of a list of edge commands.
pub open spec fn sides_of(edges: Seq<EdgeCommandView>) -> Seq<Direction> {
    edges.map_values(|e: EdgeCommandView| e.edge)
}

/// The whole configuration.
#[derive(Clone, Debug, PartialEq)]
pub struct Config {
    pub output: OutputConfig,
    pub appearance: Appearance,
    pub effects: Effects,
    pub animation_speed: Number,
    pub viewport: GridDimensions,
    pub initial_window_size: GridDimensions,
    pub startup_commands: Vec<Vec<String>>,
    pub edge_commands: Vec<EdgeCommand>,
    pub mouse: MouseConfig,
    pub bindings: Vec<KeyBinding>,
    pub window_rules: Vec<WindowRule>,
}

/// The mathematical form of a [`Config`].
pub struct ConfigView {
    pub output: OutputConfig,
    pub appearance: Appearance,
    pub effects: Effects,
    pub animation_speed: Number,
    pub viewport: GridDimensions,
    pub initial_window_size: GridDimensions,
    pub startup_commands: Seq<Seq<Seq<char>>>,
    pub edge_commands: Seq<EdgeCommandView>,
    pub mouse: MouseConfig,
    pub bindings: Seq<BindingView>,
    pub window_rules: Seq<WindowRuleView>,
}

impl View for Config {
    type V = ConfigView;

    open spec fn view(&self) -> ConfigView {
        ConfigView {
            output: self.output,
            appearance: self.appearance,
            effects: self.effects,
            animation_speed: self.animation_speed,
            viewport: self.viewport,
            initial_window_size: self.initial_window_size,
            startup_commands: self.startup_commands@.map_values(|c: Vec<String>| texts(c@)),
            edge_commands: edge_views(self.edge_commands@),
            mouse: self.mouse,
            bindings: binding_views(self.bindings@),
            window_rules: self.window_rules@.map_values(|r: WindowRule| r@),
        }
    }
}

} // verus!
