use mio_compositor::bindings::{default_bindings, parse_action};
use mio_compositor::config::{Color, Config, ConfigAction, GridDimensions};
use mio_compositor::config_check::{checked_config, validate, FloatChecks};
use mio_compositor::config_doc::{Entry, Head, Node, Number, SourceFile, Value};
use mio_compositor::config_error::ConfigError;
use mio_compositor::config_locate::{error_line_hint, source_location};
use mio_compositor::config_read::{debug_chord, read_nodes};
use mio_compositor::config_rules::{keysym_queries, parse_key, KeysymAnswer, KeysymQuery};
use mio_compositor::config_sections::parse_color;
use mio_compositor::direction::Direction;
use mio_compositor::effects::WindowTransitionEffect;
use mio_compositor::kdl_source::{
    include_cycle, include_path, include_step, parse_document, read_file_items, FileItem, IncludeMetadata, IncludeStep,
};
use mio_compositor::keys::{Key, KeyChord};
use mio_compositor::mouse::MouseButton;

fn value(n: Number) -> f64 {
    match n {
        Number::Integer(i) => i as f64,
        Number::Real(bits) => f64::from_bits(bits),
    }
}

fn single(n: Number) -> f32 {
    value(n) as f32
}

fn channel(c: u8) -> f32 {
    f32::from(c) / 255.0
}

fn rgba(color: Color) -> [f32; 4] {
    [channel(color.red), channel(color.green), channel(color.blue), channel(color.alpha)]
}

fn float_checks(config: &Config) -> FloatChecks {
    let scale = value(config.output.scale);
    let opacity = single(config.appearance.opacity);
    let toggle = [single(config.appearance.opacity_toggle[0]), single(config.appearance.opacity_toggle[1])];
    let threshold = single(config.effects.cursor_wake_threshold);
    let strength = single(config.effects.cursor_wake_strength);
    let width = single(config.effects.cursor_wake_width);
    let speed = value(config.animation_speed);
    let blur_offset = single(config.effects.blur_offset);
    let shadow_radius = single(config.effects.shadow_radius);
    FloatChecks {
        scale: scale.is_finite() && (0.5..=4.0).contains(&scale),
        opacity: (0.0..=1.0).contains(&opacity),
        opacity_toggle: toggle.iter().all(|v| v.is_finite() && (0.0..=1.0).contains(v)),
        cursor_wake_threshold: threshold.is_finite() && (1.0..=10_000.0).contains(&threshold),
        cursor_wake_strength: strength.is_finite() && (0.0..=0.2).contains(&strength),
        cursor_wake_width: width.is_finite() && (1.0..=64.0).contains(&width),
        opacity_toggle_distinct: (toggle[0] - toggle[1]).abs() >= f32::EPSILON,
        animation_speed: speed.is_finite() && speed >= 0.0,
        blur_offset: blur_offset.is_finite() && (0.5..=20.0).contains(&blur_offset),
        shadow_radius: shadow_radius.is_finite() && (0.0..=256.0).contains(&shadow_radius),
    }
}

const NAMED: [(&str, u32, u32); 6] = [
    ("space", 0x20, 0x20),
    ("Escape", 0xff1b, 0x1b),
    ("Print", 0xff61, 0),
    ("F12", 0xffc9, 0),
    ("Page_Up", 0xff55, 0),
    ("XF86AudioRaiseVolume", 0x1008ff13, 0),
];

/// A few rows of the xkb keysym tables, standing in for libxkbcommon: named
/// keysyms (matched exactly, or ignoring case) and Latin-1 code points,
/// whose keysym is the code point itself.
fn table_answer(query: &KeysymQuery) -> (u32, u32) {
    match query {
        KeysymQuery::CodePoint(c) if *c < 0x100 => (*c, *c),
        KeysymQuery::CodePoint(_) => (0, 0),
        KeysymQuery::Named { name, ignoring_case } => NAMED
            .iter()
            .find(|(known, _, _)| if *ignoring_case { known.eq_ignore_ascii_case(name) } else { *known == name })
            .map_or((0, 0), |(_, keysym, unicode)| (*keysym, *unicode)),
    }
}

fn keysym_answers(nodes: &Vec<Node>) -> Vec<KeysymAnswer> {
    keysym_queries(nodes)
        .into_iter()
        .map(|query| {
            let (keysym, unicode) = table_answer(&query);
            KeysymAnswer { query, keysym, unicode }
        })
        .collect()
}

fn key_table(names: &[&str]) -> Vec<KeysymAnswer> {
    let mut answers = Vec::new();
    for name in names {
        let head = Head {
            name: "bind".to_string(),
            entries: vec![Entry { name: None, value: Value::Text(name.to_string()) }],
            has_children: false,
        };
        answers.extend(keysym_answers(&vec![Node { head, children: Vec::new(), origin: None }]));
    }
    answers
}

fn parse(source: &str) -> Result<Config, ConfigError> {
    let nodes = parse_document(source)?;
    let sources: Vec<SourceFile> = Vec::new();
    let config = read_nodes(&nodes, &sources, &keysym_answers(&nodes))?;
    let floats = float_checks(&config);
    checked_config(config, &floats, &nodes, &sources)
}

fn error_text(source: &str) -> String {
    parse(source).unwrap_err().to_string()
}

fn letter_chord(letter: char, ctrl: bool, shift: bool) -> KeyChord {
    KeyChord { ctrl, alt: false, shift, logo: true, key: Key::Letter(letter) }
}

#[test]
fn defaults_new_windows_to_the_full_viewport() {
    let config = Config::default();
    assert!((value(config.output.scale) - 1.0).abs() < f64::EPSILON);
    assert_eq!(config.initial_window_size, config.viewport);
    assert_eq!(config.viewport, GridDimensions { width: 8, height: 8 });
    assert_eq!(config.appearance.gaps, 24);
    assert_eq!(rgba(config.appearance.background_color), [1.0; 4]);
    assert_eq!(config.effects.shadow_offset, [0, 0]);
    assert_eq!(config.appearance.window_border_width, 1);
    assert_eq!(rgba(config.appearance.window_border_color), [1.0, 1.0, 1.0, 46.0 / 255.0]);
    assert_eq!(config.mouse.close_window_clicks, 3);
}

#[test]
fn parses_complete_configuration() {
    let config = parse(
        r##"
        output {
            scale 1.25
        }
        appearance {
            background-color "#102030ff"
            window-border-width 2
            window-border-color "#abcdef40"
            focus-indicator-width 80
            focus-indicator-height 2
            focus-indicator-color "#336699cc"
            corner-radius 10
            gaps 12
            opacity 0.8
            opacity-toggle 1.0 0.7
        }
        effects {
            blur-passes 4
            blur-offset 2.5
            shadow-radius 30
            shadow-offset -4 12
            shadow-color "#11223380"
            cursor-wake false
            cursor-wake-threshold 1200
            cursor-wake-strength 0.025
            cursor-wake-width 7.0
            cursor-wake-duration 900
            window-transition false
            window-transition-duration 800
        }
        animation {
            speed 1.25
        }
        camera {
            viewport 5 3
        }
        placement {
            initial-size 2 1
        }
        mouse {
            cursor-hide-delay-ms 2500
            camera-pan "middle"
            camera-zoom "middle"
            move-window "middle" "right"
            resize-window "left"
            reset-window "middle" clicks=2
            toggle-floating "middle" "left"
            place-next "right"
            center-window "middle" "right" clicks=1
            close-window "middle" "right" clicks=4
        }
        spawn-at-startup "waybar"
        spawn-at-startup "kaname" "--applications"
        edge-command "left" "foot" "--title=edge terminal"
        bind "Alt+H" "focus-left"
        window-rule {
            match app-id="foot" title="terminal"
            opacity 0.9
            floating true
            blur true
        }
    "##,
    )
    .unwrap();
    assert!((value(config.output.scale) - 1.25).abs() < f64::EPSILON);
    assert_eq!(config.appearance.focus_indicator_width, 80);
    assert_eq!(config.appearance.focus_indicator_height, 2);
    assert_eq!(config.appearance.background_color, parse_color("#102030ff").unwrap());
    assert_eq!(config.appearance.window_border_width, 2);
    let expected_border_color = rgba(parse_color("#abcdef40").unwrap());
    assert!(rgba(config.appearance.window_border_color)
        .iter()
        .zip(expected_border_color)
        .all(|(actual, expected)| (*actual - expected).abs() < f32::EPSILON));
    assert_eq!(config.appearance.gaps, 12);
    assert!((single(config.appearance.opacity) - 0.8).abs() < f32::EPSILON);
    assert!((single(config.appearance.opacity_toggle[0]) - 1.0).abs() < f32::EPSILON);
    assert!((single(config.appearance.opacity_toggle[1]) - 0.7).abs() < f32::EPSILON);
    assert_eq!(config.effects.blur_passes, 4);
    assert!((single(config.effects.blur_offset) - 2.5).abs() < f32::EPSILON);
    assert!((single(config.effects.shadow_radius) - 30.0).abs() < f32::EPSILON);
    assert_eq!(config.effects.shadow_offset, [-4, 12]);
    let expected_shadow_color = rgba(parse_color("#11223380").unwrap());
    assert!(rgba(config.effects.shadow_color.unwrap())
        .iter()
        .zip(expected_shadow_color)
        .all(|(actual, expected)| (*actual - expected).abs() < f32::EPSILON));
    assert!(!config.effects.cursor_wake);
    assert!((single(config.effects.cursor_wake_threshold) - 1200.0).abs() < f32::EPSILON);
    assert!((single(config.effects.cursor_wake_strength) - 0.025).abs() < f32::EPSILON);
    assert!((single(config.effects.cursor_wake_width) - 7.0).abs() < f32::EPSILON);
    assert_eq!(config.effects.cursor_wake_duration, 900);
    assert_eq!(config.effects.window_transition, WindowTransitionEffect::Disabled);
    assert_eq!(config.effects.window_transition_duration, 800);
    assert_eq!(
        config.startup_commands,
        [vec!["waybar".to_owned()], vec!["kaname".to_owned(), "--applications".to_owned()]]
    );
    assert_eq!(config.viewport, GridDimensions { width: 5, height: 3 });
    assert_eq!(config.edge_commands.len(), 1);
    assert_eq!(config.mouse.camera_pan, MouseButton::Middle);
    assert_eq!(config.mouse.cursor_hide_delay_ms, 2500);
    assert_eq!(config.mouse.reset_window_clicks, 2);
    assert_eq!(config.mouse.move_window, [MouseButton::Middle, MouseButton::Right]);
    assert_eq!(config.mouse.close_window, [MouseButton::Middle, MouseButton::Right]);
    assert_eq!(config.mouse.close_window_clicks, 4);
    assert_eq!(config.mouse.center_window_clicks, 1);
    assert_eq!(config.edge_commands[0].edge, Direction::Left);
    assert_eq!(config.edge_commands[0].argv, ["foot", "--title=edge terminal"]);
    assert_eq!(config.bindings.len(), 1);
    assert_eq!(config.window_rules[0].app_id.as_deref(), Some("foot"));
    assert_eq!(config.window_rules[0].title.as_deref(), Some("terminal"));
    assert_eq!(config.window_rules[0].blur, Some(true));
}

#[test]
fn rejects_invalid_values_and_duplicate_bindings() {
    assert!(parse("appearance {\n opacity 1.2\n}").is_err());
    assert!(parse("output {\n scale 0.0\n}").is_err());
    assert!(parse("output {\n scale 4.1\n}").is_err());
    assert!(parse("output {\n unknown 1.0\n}").is_err());
    assert!(parse("appearance {\n opacity-toggle 1.0 1.0\n}").is_err());
    assert!(parse("appearance {\n opacity-toggle 1.0 1.2\n}").is_err());
    assert!(parse("appearance {\n gaps 4097\n}").is_err());
    assert!(parse("appearance {\n window-border-width 4097\n}").is_err());
    assert!(parse("bind \"Alt+H\" \"focus-left\"\nbind \"Alt+H\" \"focus-right\"").is_err());
    assert!(parse("mouse { move-window \"left\" \"left\" }").is_err());
    assert!(parse("mouse { close-window \"right\" \"middle\" }").is_err());
    assert!(parse("mouse { close-window \"right\" \"left\" }").is_err());
    assert!(parse("mouse { close-window \"right\" \"left\" clicks=0 }").is_err());
    assert!(parse("mouse { close-window \"right\" \"left\" clicks=6 }").is_err());
    assert!(parse("mouse { camera-pan \"side\" }").is_err());
    assert!(parse("mouse { reset-window \"middle\" }").is_err());
    assert!(parse("mouse { center-window \"right\" \"left\" }").is_err());
    assert!(parse(
        r#"
        mouse {
            center-window "right" "left" clicks=3
            close-window "right" "left" clicks=3
        }
        "#,
    )
    .is_err());
    assert!(parse("unknown true").is_err());
    assert!(parse("spawn-at-startup").is_err());
    assert!(parse("spawn-at-startup \"\"").is_err());
    assert!(parse("spawn-at-startup \"foot\" 1").is_err());
    assert!(parse("edge-command \"middle\" \"foot\"").is_err());
    assert!(parse("edge-command \"left\"").is_err());
    assert!(parse("edge-command \"left\" \"foot\"\nedge-command \"left\" \"wofi\"").is_err());
    assert!(parse("effects {\n blur-passes 0\n}").is_err());
    assert!(parse("effects {\n blur-offset 30\n}").is_err());
    assert!(parse("effects {\n shadow-radius -1\n}").is_err());
    assert!(parse("effects {\n shadow-radius 257\n}").is_err());
    assert!(parse("effects {\n shadow-offset 5000 0\n}").is_err());
    assert!(parse("effects {\n cursor-wake-threshold 0\n}").is_err());
    assert!(parse("effects {\n cursor-wake-strength 0.3\n}").is_err());
    assert!(parse("effects {\n cursor-wake-width 0\n}").is_err());
    assert!(parse("effects {\n cursor-wake-duration 50\n}").is_err());
    assert!(parse("effects {\n window-transition-duration 50\n}").is_err());
    let syntax_error = parse("appearance {\n opacity =\n}").unwrap_err();
    assert!(syntax_error.to_string().contains("line 2"));
}

#[test]
fn parses_one_shot_placement_actions() {
    let left: Vec<char> = "place-next-left".chars().collect();
    let down: Vec<char> = "place-next-down".chars().collect();
    assert_eq!(parse_action(&left).unwrap(), ConfigAction::PlaceNext(Direction::Left));
    assert_eq!(parse_action(&down).unwrap(), ConfigAction::PlaceNext(Direction::Down));
}

#[test]
fn parses_blur_toggle_action() {
    let name: Vec<char> = "toggle-blur".chars().collect();
    assert_eq!(parse_action(&name).unwrap(), ConfigAction::ToggleBlur);
}

#[test]
fn parses_window_size_toggle_action() {
    let name: Vec<char> = "toggle-window-size".chars().collect();
    assert_eq!(parse_action(&name).unwrap(), ConfigAction::ToggleWindowSize);
}

#[test]
fn parses_absolute_camera_zoom_bindings() {
    let config = parse(
        "bind \"Super+5\" \"camera-zoom\" 0.55\n\
         bind \"Super+0\" \"camera-zoom\" 1.0",
    )
    .unwrap();
    assert_eq!(config.bindings.len(), 2);
    assert_eq!(config.bindings[0].action, ConfigAction::CameraZoom(Number::Real(0.55f64.to_bits())));
    assert_eq!(config.bindings[1].action, ConfigAction::CameraZoom(Number::Real(1.0f64.to_bits())));
    assert!(parse("bind \"Super+1\" \"camera-zoom\" 0.09").is_err());
    assert!(parse("bind \"Super+0\" \"camera-zoom\" 1.01").is_err());
    assert!(parse("bind \"Super+5\" \"camera-zoom\"").is_err());
    assert!(parse("bind \"Super+5\" \"camera-zoom\" 0.5 0.6").is_err());
}

#[test]
fn parses_external_command_binding_as_argv() {
    let config = parse(r#"bind "Super+W" "spawn" "bash" "-c" "do something""#).unwrap();
    assert_eq!(
        config.bindings[0].action,
        ConfigAction::Spawn(vec!["bash".into(), "-c".into(), "do something".into()])
    );
    assert!(parse(r#"bind "Super+W" "spawn""#).is_err());
    assert!(parse(r#"bind "Super+Q" "close" "unexpected""#).is_err());
}

#[test]
fn parses_cursor_wake_toggle_action() {
    let name: Vec<char> = "toggle-cursor-wake".chars().collect();
    assert_eq!(parse_action(&name).unwrap(), ConfigAction::ToggleCursorWake);
}

#[test]
fn parses_window_transition_styles_and_boolean_compatibility() {
    let sci_fi = parse("effects {\n window-transition \"sci-fi\"\n}").unwrap();
    assert_eq!(sci_fi.effects.window_transition, WindowTransitionEffect::SciFi);
    let water = parse("effects {\n window-transition true\n}").unwrap();
    assert_eq!(water.effects.window_transition, WindowTransitionEffect::Water);
    assert!(parse("effects {\n window-transition \"warp\"\n}").is_err());
}

#[test]
fn include_requires_a_file_context() {
    assert_eq!(
        error_text("include \"wallpaper.kdl\""),
        "include is only available when loading configuration from a file"
    );
}

#[test]
fn reports_exact_messages_for_rejected_nodes() {
    assert_eq!(error_text("unknown true"), "unknown top-level node `unknown`");
    assert_eq!(error_text("output {\n unknown 1.0\n}"), "unknown output option `unknown`");
    assert_eq!(error_text("output {\n}"), "`output` requires `scale`");
    assert_eq!(error_text("output 1"), "`output` requires a child block");
    assert_eq!(error_text("output {\n scale 1\n scale 2\n}"), "duplicate output option `scale`");
    assert_eq!(error_text("spawn-at-startup \"\""), "spawn-at-startup expects a non-empty executable");
    assert_eq!(error_text("spawn-at-startup \"foot\" 1"), "`spawn-at-startup` expects a string at index 1");
    assert_eq!(error_text("edge-command \"left\""), "edge-command expects an executable after the edge");
    assert_eq!(
        error_text("edge-command \"middle\" \"foot\""),
        "edge-command edge must be left, right, top, or bottom"
    );
    assert_eq!(
        error_text("edge-command \"left\" \"foot\"\nedge-command \"left\" \"wofi\""),
        "duplicate edge command: Left"
    );
    assert_eq!(
        error_text("bind \"Alt+H\" \"focus-left\"\nbind \"Alt+H\" \"focus-right\""),
        "duplicate key binding: KeyChord { ctrl: false, alt: true, shift: false, logo: false, key: Letter('h') }"
    );
    assert_eq!(error_text("bind \"Hyper+H\" \"close\""), "unknown modifier `Hyper`");
    assert_eq!(error_text("bind \"Super+H\" \"jump\""), "unknown action `jump`");
    assert_eq!(error_text("bind \"Super+Q\" \"close\" \"x\""), "close bind does not accept additional arguments");
    assert_eq!(error_text("bind \"Super+Q\" \"camera-zoom\""), "camera-zoom bind expects exactly one zoom value");
    assert_eq!(
        error_text("bind \"Super+Q\" \"camera-zoom\" 2"),
        "camera-zoom bind value must be between 0.1 and 1.0"
    );
    assert_eq!(error_text("bind \"Super+Q\" \"spawn\""), "spawn bind expects a non-empty executable");
    assert_eq!(error_text("mouse {\n camera-pan \"Side\"\n}"), "mouse button must be left, right, or middle, got `side`");
    assert_eq!(error_text("mouse {\n reset-window \"right\" clicks=300\n}"), "mouse reset-window clicks is too large");
    assert_eq!(
        error_text("mouse {\n reset-window \"right\"\n}"),
        "`reset-window` requires a non-negative integer `clicks` property"
    );
    assert_eq!(error_text("mouse {\n wheel \"right\"\n}"), "unknown mouse option `wheel`");
    assert_eq!(error_text("effects {\n blur-passes 300\n}"), "blur-passes is too large");
    assert_eq!(error_text("effects {\n gaps 3\n}"), "unknown effects option `gaps`");
    assert_eq!(error_text("effects {\n cursor-wake 1\n}"), "`cursor-wake` expects true or false");
    assert_eq!(error_text("effects {\n shadow-offset 1 2.5\n}"), "`shadow-offset` expects a 32-bit integer at index 1");
    assert_eq!(error_text("appearance {\n gaps -1\n}"), "`gaps` expects a non-negative integer at index 0");
    assert_eq!(error_text("appearance {\n gaps 5000000000\n}"), "`gaps` is too large");
    assert_eq!(error_text("appearance {\n opacity \"x\"\n}"), "`opacity` expects a number at index 0");
    assert_eq!(error_text("appearance {\n blur 1\n}"), "unknown appearance option `blur`");
    assert_eq!(error_text("appearance {\n background-color \"fff\"\n}"), "color must start with #");
    assert_eq!(error_text("animation {\n pace 1\n}"), "`animation` requires `speed`");
    assert_eq!(error_text("camera {\n viewport 5\n}"), "`viewport` expects a non-negative integer at index 1");
    assert_eq!(error_text("window-rule {\n opacity 0.5\n}"), "window-rule requires an app-id or title matcher");
    assert_eq!(error_text("window-rule app-id=\"foot\" {\n opacity 1.5\n}"), "window-rule opacity must be between 0 and 1");
    assert_eq!(error_text("window-rule app-id=\"foot\" {\n floating 1\n}"), "floating expects true or false");
    assert_eq!(error_text("window-rule app-id=\"foot\" {\n match title=1\n}"), "`title` expects a string");
    assert_eq!(error_text("window-rule app-id=\"foot\" {\n size 1\n}"), "unknown window-rule option `size`");
}

#[test]
fn reports_range_checks_in_the_documented_order() {
    assert_eq!(error_text("output {\n scale 0.0\n}"), "output scale must be between 0.5 and 4.0");
    assert_eq!(error_text("appearance {\n opacity 1.2\n}"), "appearance opacity must be between 0 and 1");
    assert_eq!(
        error_text("appearance {\n opacity-toggle 1.0 1.0\n}"),
        "appearance opacity-toggle values must be different"
    );
    assert_eq!(error_text("animation {\n speed -1\n}"), "animation speed must be finite and non-negative");
    assert_eq!(
        error_text("effects {\n cursor-wake-duration 50\n blur-passes 0\n}"),
        "effects cursor-wake-duration must be between 100 and 10000 milliseconds"
    );
    assert_eq!(error_text("effects {\n blur-passes 0\n}"), "effects blur-passes must be between 1 and 8");
    assert_eq!(
        error_text("effects {\n shadow-offset 5000 0\n}"),
        "effects shadow-offset values must be between -4096 and 4096"
    );
    assert_eq!(error_text("appearance {\n corner-radius 4097\n}"), "appearance dimensions must not exceed 4096");
}

#[test]
fn window_rules_take_properties_and_match_blocks() {
    let config = parse(
        "window-rule app-id=\"foot\" title=\"a\" {\n match title=\"b\"\n floating false\n}\nwindow-rule title=\"x\"",
    )
    .unwrap();
    assert_eq!(config.window_rules.len(), 2);
    assert_eq!(config.window_rules[0].app_id.as_deref(), Some("foot"));
    assert_eq!(config.window_rules[0].title.as_deref(), Some("b"));
    assert_eq!(config.window_rules[0].floating, Some(false));
    assert_eq!(config.window_rules[1].app_id, None);
    assert_eq!(config.window_rules[1].title.as_deref(), Some("x"));
    let raw = parse("window-rule app-id=r\"foot\" {\n opacity 1\n}").unwrap();
    assert_eq!(raw.window_rules[0].opacity, Some(Number::Integer(1)));
}

#[test]
fn window_rule_opacity_bounds_follow_single_precision_rounding() {
    let just_above_one = f64::from_bits(0x3FF0_0000_1000_0000);
    assert_eq!(just_above_one as f32, 1.0);
    let accepted = format!("window-rule app-id=\"a\" {{\n opacity {:?}\n}}", just_above_one);
    assert!(parse(&accepted).is_ok());
    let next = f64::from_bits(0x3FF0_0000_1000_0001);
    assert!(next as f32 > 1.0);
    let rejected = format!("window-rule app-id=\"a\" {{\n opacity {:?}\n}}", next);
    assert!(parse(&rejected).is_err());
}

#[test]
fn later_bindings_replace_all_defaults() {
    let config = parse("bind \"Super+T\" \"close\"").unwrap();
    assert_eq!(config.bindings.len(), 1);
    assert_eq!(config.bindings[0].chord, letter_chord('t', false, false));
    assert_eq!(Config::default().bindings.len(), 55);
    assert_eq!(parse("").unwrap(), Config::default());
}

#[test]
fn builtin_bindings_cover_arrows_digits_and_letters() {
    let bindings = default_bindings();
    assert_eq!(bindings.len(), 55);
    assert_eq!(bindings[0].chord, KeyChord { ctrl: false, alt: false, shift: false, logo: true, key: Key::Left });
    assert_eq!(bindings[0].action, ConfigAction::Focus(Direction::Left));
    assert_eq!(bindings[16].chord, letter_chord('1', false, false));
    assert_eq!(bindings[16].action, ConfigAction::CameraZoom(Number::Real(0.1f64.to_bits())));
    assert_eq!(bindings[25].action, ConfigAction::CameraZoom(Number::Real(1.0f64.to_bits())));
    assert_eq!(bindings[28].chord, letter_chord('h', true, true));
    assert_eq!(bindings[28].action, ConfigAction::CameraNudge(Direction::Left));
    assert_eq!(bindings[51].chord, letter_chord('o', false, true));
    assert_eq!(bindings[51].action, ConfigAction::ClearOpacity);
    assert_eq!(bindings[54].action, ConfigAction::ReloadConfig);
}

#[test]
fn colors_read_hex_channels() {
    assert_eq!(parse_color("#102030").unwrap(), Color { red: 0x10, green: 0x20, blue: 0x30, alpha: 255 });
    assert_eq!(parse_color("#102030ff").unwrap(), Color { red: 0x10, green: 0x20, blue: 0x30, alpha: 255 });
    assert_eq!(parse_color("#+f+f+f").unwrap(), Color { red: 15, green: 15, blue: 15, alpha: 255 });
    assert_eq!(parse_color("#12345").unwrap_err().to_string(), "color must use #RRGGBB or #RRGGBBAA");
    assert_eq!(parse_color("#zz0000").unwrap_err().to_string(), "invalid red color channel");
    assert_eq!(parse_color("#00zz00").unwrap_err().to_string(), "invalid green color channel");
    assert_eq!(parse_color("#0000zz").unwrap_err().to_string(), "invalid blue color channel");
    assert_eq!(parse_color("#000000zz").unwrap_err().to_string(), "invalid alpha color channel");
    assert_eq!(parse_color("102030").unwrap_err().to_string(), "color must start with #");
}

#[test]
fn syntax_errors_name_line_column_and_text() {
    let error = error_text("appearance {\n opacity =\n}");
    assert!(error.starts_with("KDL parse error at line 2, column "));
    assert!(error.ends_with("; `opacity =`"));
}

#[test]
fn locations_count_lines_and_characters() {
    let text: Vec<char> = "ab\ncdé\nf".chars().collect();
    let (line, column, line_text) = source_location(&text, 7);
    assert_eq!((line, column), (2, 4));
    assert_eq!(line_text.iter().collect::<String>(), "cdé");
    let (line, column, _) = source_location(&text, 100);
    assert_eq!((line, column), (3, 2));
}

#[test]
fn error_hints_find_the_quoted_or_mentioned_option() {
    let source: Vec<char> = "appearance {\r\n gaps 5\n opacity 4.0\n}".chars().collect();
    let quoted: Vec<char> = "unknown appearance option `gaps`".chars().collect();
    let (line, text) = error_line_hint(&source, &quoted).unwrap();
    assert_eq!((line, text.iter().collect::<String>()), (2, " gaps 5".to_owned()));
    let mentioned: Vec<char> = "appearance opacity must be between 0 and 1".chars().collect();
    let (line, _) = error_line_hint(&source, &mentioned).unwrap();
    assert_eq!(line, 3);
    let nothing: Vec<char> = "no hint here".chars().collect();
    assert!(error_line_hint(&source, &nothing).is_none());
}

#[test]
fn file_items_locate_errors_and_keep_includes_in_place() {
    let items = read_file_items(
        "appearance {\n opacity 0.7\n}\ninclude \"wallpaper.kdl\"\nspawn-at-startup \"foot\"\n",
        0,
        "/home/user/config.kdl",
    )
    .unwrap();
    assert_eq!(items.len(), 3);
    assert!(matches!(&items[1], FileItem::Include(path) if path == "wallpaper.kdl"));
    let FileItem::Node(node) = &items[2] else { panic!("expected a node") };
    assert_eq!(node.origin.as_ref().unwrap().line, 5);

    let items = read_file_items("include \"one.kdl\" \"two.kdl\"\n", 0, "/c.kdl").unwrap();
    let FileItem::Invalid(error) = &items[0] else { panic!("expected an invalid include") };
    assert_eq!(error.to_string(), "/c.kdl: include expects exactly one path at line 1: `include \"one.kdl\" \"two.kdl\"`");
    let items = read_file_items("include \"\"\n", 0, "/c.kdl").unwrap();
    let FileItem::Invalid(error) = &items[0] else { panic!("expected an invalid include") };
    assert_eq!(error.to_string(), "/c.kdl: include path cannot be empty at line 1");

    let child = "/dir/child.kdl";
    let items = read_file_items("appearance {\n opacity 4.0\n}\n", 1, child).unwrap();
    let nodes: Vec<Node> = items
        .into_iter()
        .filter_map(|item| match item {
            FileItem::Node(node) => Some(node),
            _ => None,
        })
        .collect();
    let sources = vec![
        SourceFile { path: "/dir/config.kdl".into(), text: "include \"child.kdl\"\n".into() },
        SourceFile { path: child.into(), text: "appearance {\n opacity 4.0\n}\n".into() },
    ];
    let config = read_nodes(&nodes, &sources, &Vec::new()).unwrap();
    let floats = float_checks(&config);
    let error = checked_config(config, &floats, &nodes, &sources).unwrap_err().to_string();
    assert_eq!(error, "/dir/child.kdl: appearance opacity must be between 0 and 1 at line 2: `opacity 4.0`");
}

#[test]
fn include_cycles_list_the_files_in_the_cycle() {
    let stack = vec!["/a.kdl".to_owned(), "/b.kdl".to_owned()];
    assert_eq!(
        include_cycle(&stack, "/b.kdl").unwrap().to_string(),
        "configuration include cycle: /b.kdl -> /b.kdl"
    );
    assert_eq!(
        include_cycle(&stack, "/a.kdl").unwrap().to_string(),
        "configuration include cycle: /a.kdl -> /b.kdl -> /a.kdl"
    );
    assert!(include_cycle(&stack, "/c.kdl").is_none());
}

#[test]
fn chords_debug_as_the_derived_format() {
    let chord = KeyChord { ctrl: true, alt: false, shift: true, logo: false, key: Key::Symbol(65307) };
    assert_eq!(debug_chord(chord).iter().collect::<String>(), format!("{chord:?}"));
    let chord = letter_chord('\'', false, false);
    assert_eq!(debug_chord(chord).iter().collect::<String>(), format!("{chord:?}"));
}

#[test]
fn range_checks_report_each_float_verdict() {
    let config = Config::default();
    let mut floats = float_checks(&config);
    assert!(validate(&config, &floats).is_ok());
    floats.shadow_radius = false;
    assert_eq!(validate(&config, &floats).unwrap_err().to_string(), "effects shadow-radius must be between 0 and 256");
    floats.scale = false;
    assert_eq!(validate(&config, &floats).unwrap_err().to_string(), "output scale must be between 0.5 and 4.0");
}

#[test]
fn documents_keep_names_entries_and_blocks() {
    let nodes = parse_document("window-rule r#\"raw\"# 0x10 x=\"y\" flag=true {\n  match app-id=\"foot\"\n  opacity 0.5\n}\nspawn-at-startup null\n").unwrap();
    assert_eq!(nodes.len(), 2);
    let head = &nodes[0].head;
    assert_eq!(head.name, "window-rule");
    assert!(head.has_children);
    assert_eq!(head.entries.len(), 4);
    assert!(head.entries[0].name.is_none());
    assert!(matches!(&head.entries[0].value, Value::RawText(s) if s == "raw"));
    assert!(matches!(head.entries[1].value, Value::Integer(16)));
    assert_eq!(head.entries[2].name.as_deref(), Some("x"));
    assert!(matches!(&head.entries[2].value, Value::Text(s) if s == "y"));
    assert!(matches!(head.entries[3].value, Value::Bool(true)));
    assert_eq!(nodes[0].children.len(), 2);
    assert_eq!(nodes[0].children[0].name, "match");
    assert!(matches!(nodes[0].children[1].entries[0].value, Value::Real(bits) if f64::from_bits(bits) == 0.5));
    assert!(nodes[0].origin.is_none());
    assert!(!nodes[1].head.has_children);
    assert!(nodes[1].children.is_empty());
    assert!(matches!(nodes[1].head.entries[0].value, Value::Null));
}

#[test]
fn key_names_resolve_through_the_keysym_tables() {
    let names = ["H", "Left", "F12", "Esc", "ESC", "Escape", "PrtSc", "space", "SPACE", "XF86AudioRaiseVolume", "return", "NoSuchKey", "pgup"];
    let answers = key_table(&names);
    let key = |s: &str| parse_key(&s.chars().collect::<Vec<char>>(), &answers);
    assert_eq!(key("H").unwrap(), Key::Letter('h'));
    assert_eq!(key("Left").unwrap(), Key::Left);
    assert_eq!(key("F12").unwrap(), Key::Symbol(0xffc9));
    assert_eq!(key("Esc").unwrap(), key("Escape").unwrap());
    assert_eq!(key("ESC").unwrap(), key("Escape").unwrap());
    assert_eq!(key("PrtSc").unwrap(), Key::Symbol(0xff61));
    assert_eq!(key("pgup").unwrap(), Key::Symbol(0xff55));
    assert_eq!(key("space").unwrap(), Key::Letter(' '));
    assert_eq!(key("SPACE").unwrap(), Key::Letter(' '));
    assert_eq!(key("XF86AudioRaiseVolume").unwrap(), Key::Symbol(0x1008ff13));
    assert_eq!(key("return").unwrap(), Key::Enter);
    assert_eq!(key("NoSuchKey").unwrap_err().to_string(), "unsupported key `NoSuchKey`");
    assert_eq!(
        keysym_queries(&vec![]).len(),
        0
    );
}

#[test]
fn includes_resolve_next_to_the_including_file() {
    let resolve = |including: &str, target: &str| {
        String::from_utf8(include_path(&including.as_bytes().to_vec(), &target.as_bytes().to_vec())).unwrap()
    };
    assert_eq!(resolve("/home/u/.config/mio/config.kdl", "wallpaper.kdl"), "/home/u/.config/mio/wallpaper.kdl");
    assert_eq!(resolve("/home/u/.config/mio/config.kdl", "/etc/mio/extra.kdl"), "/etc/mio/extra.kdl");
    assert_eq!(resolve("/config.kdl", "sub/more.kdl"), "/sub/more.kdl");
    assert_eq!(resolve("config.kdl", "more.kdl"), "more.kdl");
    assert_eq!(resolve("conf/config.kdl", "more.kdl"), "conf/more.kdl");
}

#[test]
fn missing_includes_are_skipped_and_other_failures_reported() {
    assert!(matches!(include_step("/a/b.kdl", IncludeMetadata::Found), IncludeStep::Load));
    assert!(matches!(include_step("/a/b.kdl", IncludeMetadata::NotFound), IncludeStep::Skip));
    let IncludeStep::Fail(error) = include_step("/a/b.kdl", IncludeMetadata::Failed("Permission denied (os error 13)".into())) else {
        panic!("expected a failure")
    };
    assert_eq!(
        error.to_string(),
        "failed to inspect included configuration /a/b.kdl: Permission denied (os error 13)"
    );
}

#[test]
fn built_in_bindings_bind_each_chord_once() {
    let bindings = default_bindings();
    for (i, first) in bindings.iter().enumerate() {
        for second in &bindings[i + 1..] {
            assert_ne!(first.chord, second.chord);
        }
    }
}
