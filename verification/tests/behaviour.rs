use mio_compositor::shortcuts::route_key;
use mio_compositor::focus::preferred_focus;
use mio_compositor::shell::should_defer_unclassified_toplevel;
use mio_compositor::effects::{blur_level_sizes, focus_glow_geometry, shadow_geometry};
use mio_compositor::shortcuts::{cursor_wake_after_toggle, shortcut_step, ShortcutStep};
use mio_compositor::config::ConfigAction;
use mio_compositor::pointer::{follower_preview_from_drag, resize_preview_from_drag, ResizeEdges, ResizeFollowerPreview};
use mio_compositor::geometry::ScreenRect;
use mio_compositor::button_events::{floating_chord_release, PendingFloatingChord};
use mio_compositor::pointer::mouse_chord_mask;
use mio_compositor::button_events::{drag_release_close_click, releases_after_drag, swallow_drag_release};
use mio_compositor::mouse::MouseConfig;
use mio_compositor::button_events::{gesture_candidates, Gesture};
use mio_compositor::bindings::default_bindings;
use mio_compositor::shortcuts::{decide_key, key_from_keysym, KeyDecision, Modifiers};
use mio_compositor::keys::Key;
use mio_compositor::shell::{presentation_request_step, PresentationStep};
use mio_compositor::backend::ConfigErrorOverlayState;
use mio_compositor::config::WindowRule;
use mio_compositor::config_doc::Number;
use mio_compositor::config_manager::{load_step, missing_file, ConfigManager, ConfigPath, LoadStep};
use mio_compositor::direction::Direction;
use mio_compositor::focus::{
    camera_should_follow_on_activation, merge_focus_candidates, window_removal_changes_focus, CameraFollowPolicy,
};
use mio_compositor::geometry::{rectangle_overlap_area, split_output_area, Rect};
use mio_compositor::gestures::ScrollSign::{Negative, Positive, Zero};
use mio_compositor::gestures::{
    close_click_matches, edge_wheel_focus_direction, next_close_click_count, pending_click_matches, AxisSource,
    PendingCloseClick, PendingPointerClick, ScrollSign,
};
use mio_compositor::mouse::MouseButton;
use mio_compositor::pointer::{
    ordered_chord_pressed, pointer_click_target, should_consume_focus_click, update_pointer_buttons, ButtonState,
    BTN_LEFT, BTN_MIDDLE, BTN_RIGHT,
};
use mio_compositor::rules::{configured_window_properties, matching_window_rule_properties, RuleProperty};
use mio_compositor::shell::{
    accept_client_presentation_request, dialog_floating_action, dialog_should_float, mio_decoration_mode,
    should_focus_on_commit, DecorationMode, FloatingUpdate, KeyboardInteractivity, Layer, LayerFocusState,
    Presentation,
};

fn decimal_number(value: f64) -> Number {
    Number::Real(value.to_bits())
}

#[test]
fn upper_layers_take_focus_for_exclusive_or_new_on_demand_requests() {
    for layer in [Layer::Top, Layer::Overlay] {
        let state = LayerFocusState { layer, keyboard_interactivity: KeyboardInteractivity::Exclusive };
        assert!(should_focus_on_commit(KeyboardInteractivity::Disabled, state));
    }
    for keyboard_interactivity in [KeyboardInteractivity::Disabled, KeyboardInteractivity::OnDemand] {
        let state = LayerFocusState { layer: Layer::Top, keyboard_interactivity };
        assert!(!should_focus_on_commit(keyboard_interactivity, state));
    }
    let state = LayerFocusState { layer: Layer::Top, keyboard_interactivity: KeyboardInteractivity::OnDemand };
    assert!(should_focus_on_commit(KeyboardInteractivity::Disabled, state));
    let current = LayerFocusState { layer: Layer::Overlay, keyboard_interactivity: KeyboardInteractivity::Disabled };
    let pending = LayerFocusState { keyboard_interactivity: KeyboardInteractivity::OnDemand, ..current };
    assert!(should_focus_on_commit(current.keyboard_interactivity, pending));
    assert!(!should_focus_on_commit(pending.keyboard_interactivity, pending));
    let state = LayerFocusState { layer: Layer::Bottom, keyboard_interactivity: KeyboardInteractivity::Exclusive };
    assert!(!should_focus_on_commit(KeyboardInteractivity::Exclusive, state));
}

#[test]
fn mio_uses_its_minimal_server_side_decoration() {
    assert_eq!(mio_decoration_mode(), DecorationMode::ServerSide);
}

#[test]
fn dialog_hints_use_the_shared_floating_property_actions() {
    assert!(dialog_should_float([true, false, false]));
    assert!(dialog_should_float([false, true, false]));
    assert!(dialog_should_float([false, false, true]));
    assert!(!dialog_should_float([false, false, false]));
    assert_eq!(dialog_floating_action(7, true), FloatingUpdate::SetFloating(7));
    assert_eq!(dialog_floating_action(7, false), FloatingUpdate::ClearFloating(7));
}

#[test]
fn popup_output_fallback_uses_actual_window_overlap() {
    let output = Rect { x: 0, y: 0, width: 1920, height: 1080 };
    let visible = Rect { x: 1800, y: 900, width: 400, height: 300 };
    let outside = Rect { x: 2000, y: 1200, width: 400, height: 300 };
    assert_eq!(rectangle_overlap_area(output, visible), 120 * 180);
    assert_eq!(rectangle_overlap_area(output, outside), 0);
}

#[test]
fn clients_may_request_fullscreen_but_not_maximize() {
    assert!(accept_client_presentation_request(Presentation::Fullscreen));
    assert!(!accept_client_presentation_request(Presentation::Maximized));
    assert!(!accept_client_presentation_request(Presentation::Normal));
}

#[test]
fn matching_window_rules_compose_in_file_order() {
    let rules = vec![
        WindowRule {
            app_id: Some("foot".into()),
            title: None,
            opacity: Some(decimal_number(0.8)),
            floating: Some(true),
            blur: None,
        },
        WindowRule {
            app_id: Some("foot".into()),
            title: Some("main".into()),
            opacity: Some(decimal_number(0.6)),
            floating: None,
            blur: Some(true),
        },
    ];
    assert_eq!(
        matching_window_rule_properties(&rules, Some("foot"), Some("main")),
        [
            RuleProperty::Opacity(decimal_number(0.8)),
            RuleProperty::Floating(true),
            RuleProperty::Opacity(decimal_number(0.6)),
            RuleProperty::Blur(true),
        ]
    );
    assert_eq!(
        matching_window_rule_properties(&rules, Some("foot"), Some("other")),
        [RuleProperty::Opacity(decimal_number(0.8)), RuleProperty::Floating(true)]
    );
}

#[test]
fn configured_default_opacity_is_overridden_by_matching_rule() {
    let rules = vec![WindowRule {
        app_id: Some("foot".into()),
        title: None,
        opacity: Some(decimal_number(1.0)),
        floating: None,
        blur: None,
    }];
    assert_eq!(
        configured_window_properties(decimal_number(0.75), &rules, Some("firefox"), None),
        [RuleProperty::Opacity(decimal_number(0.75))]
    );
    assert_eq!(
        configured_window_properties(decimal_number(0.75), &rules, Some("foot"), None),
        [RuleProperty::Opacity(decimal_number(0.75)), RuleProperty::Opacity(decimal_number(1.0))]
    );
}

#[test]
fn only_left_press_on_an_unfocused_window_is_consumed_for_focus() {
    assert!(should_consume_focus_click(BTN_LEFT, ButtonState::Pressed, Some(2), Some(1)));
    assert!(!should_consume_focus_click(BTN_LEFT, ButtonState::Pressed, Some(1), Some(1)));
    assert!(!should_consume_focus_click(BTN_LEFT, ButtonState::Released, Some(2), Some(1)));
    assert!(!should_consume_focus_click(BTN_RIGHT, ButtonState::Pressed, Some(2), Some(1)));
}

#[test]
fn held_button_close_requires_same_window_position_and_deadline() {
    let now = 1_000_000_000u64;
    let first = PendingCloseClick { id: 7, deadline_ns: now + 400_000_000, clicks: 1 };
    assert!(close_click_matches(first, Some(7), now, true));
    assert!(!close_click_matches(first, Some(7), now, false));
    assert!(!close_click_matches(first, Some(8), now, true));
    assert!(!close_click_matches(first, Some(7), first.deadline_ns + 1_000_000, true));
    assert_eq!(next_close_click_count(first, Some(7), now, true), Some(2));
    let second = PendingCloseClick { clicks: 2, ..first };
    assert_eq!(next_close_click_count(second, Some(7), now, true), Some(3));
    let saturated = PendingCloseClick { clicks: 255, ..first };
    assert_eq!(next_close_click_count(saturated, Some(7), now, true), Some(255));
}

#[test]
fn configured_mouse_chords_keep_the_declared_order() {
    let chord = [MouseButton::Middle, MouseButton::Left];
    let mut held = 0u8;
    update_pointer_buttons(&mut held, BTN_LEFT, ButtonState::Pressed);
    assert!(!ordered_chord_pressed(held, BTN_LEFT, chord));
    held = 0;
    update_pointer_buttons(&mut held, BTN_MIDDLE, ButtonState::Pressed);
    assert!(!ordered_chord_pressed(held, BTN_MIDDLE, chord));
    update_pointer_buttons(&mut held, BTN_LEFT, ButtonState::Pressed);
    assert!(ordered_chord_pressed(held, BTN_LEFT, chord));
}

#[test]
fn double_click_requires_same_button_window_position_and_deadline() {
    let now = 1_000_000_000u64;
    let first = PendingPointerClick { button: BTN_RIGHT, window: Some(7), deadline_ns: now + 400_000_000, clicks: 1 };
    assert!(pending_click_matches(first, BTN_RIGHT, Some(7), now, true));
    assert!(!pending_click_matches(first, BTN_MIDDLE, Some(7), now, true));
    assert!(!pending_click_matches(first, BTN_RIGHT, Some(7), now, false));
    assert!(!pending_click_matches(first, BTN_RIGHT, Some(7), first.deadline_ns + 1_000_000, true));
    let nowhere = PendingPointerClick { window: None, ..first };
    assert!(!pending_click_matches(nowhere, BTN_RIGHT, None, now, true));
}

#[test]
fn deferred_camera_click_keeps_the_press_target() {
    assert_eq!(pointer_click_target(true, Some(7), Some(8)), Some(7));
    assert_eq!(pointer_click_target(true, None, Some(8)), None);
    assert_eq!(pointer_click_target(false, None, Some(8)), Some(8));
}

#[test]
fn physical_wheel_at_an_output_edge_selects_axis_and_scroll_selects_direction() {
    assert_eq!(
        edge_wheel_focus_direction(AxisSource::Wheel, Some(Direction::Left), Zero, Positive),
        Some(Direction::Right)
    );
    assert_eq!(
        edge_wheel_focus_direction(AxisSource::Wheel, Some(Direction::Right), Zero, Negative),
        Some(Direction::Left)
    );
    assert_eq!(
        edge_wheel_focus_direction(AxisSource::Wheel, Some(Direction::Up), Zero, Positive),
        Some(Direction::Down)
    );
    assert_eq!(
        edge_wheel_focus_direction(AxisSource::WheelTilt, Some(Direction::Down), Negative, Zero),
        Some(Direction::Up)
    );
    assert_eq!(edge_wheel_focus_direction(AxisSource::Finger, Some(Direction::Right), Zero, Positive), None);
    assert_eq!(edge_wheel_focus_direction(AxisSource::Wheel, None, Zero, Positive), None);
    assert_eq!(edge_wheel_focus_direction(AxisSource::Wheel, Some(Direction::Up), Zero, Zero), None);
}

#[test]
fn removing_an_unfocused_window_does_not_reactivate_focus() {
    assert!(!window_removal_changes_focus(2, Some(1)));
    assert!(window_removal_changes_focus(1, Some(1)));
}

#[test]
fn repeated_activation_does_not_restore_a_manually_moved_camera() {
    assert!(!camera_should_follow_on_activation(Some(1), 1, CameraFollowPolicy::OnFocusChange));
    assert!(camera_should_follow_on_activation(Some(1), 2, CameraFollowPolicy::OnFocusChange));
    assert!(!camera_should_follow_on_activation(None, 1, CameraFollowPolicy::Never));
}

#[test]
fn first_presentation_follows_even_when_pending_window_already_has_focus() {
    assert!(camera_should_follow_on_activation(Some(2), 2, CameraFollowPolicy::Always));
}

#[test]
fn nested_dialog_prefers_live_parent_then_ancestor_then_focus_history() {
    let (main, chooser, foot) = (1u64, 2u64, 3u64);
    assert_eq!(merge_focus_candidates(Some(chooser), &vec![main], &vec![chooser, foot]), vec![chooser, main, foot]);
    assert_eq!(merge_focus_candidates(None, &vec![], &vec![chooser]), vec![chooser]);
}

#[test]
fn virtual_outputs_split_odd_width_without_gaps() {
    let area = Rect { x: 10, y: 4, width: 101, height: 60 };
    let ids = vec![2u64, 1u64];
    assert_eq!(split_output_area(area, &ids, 1), Some(Rect { x: 10, y: 4, width: 50, height: 60 }));
    assert_eq!(split_output_area(area, &ids, 2), Some(Rect { x: 60, y: 4, width: 51, height: 60 }));
    assert_eq!(split_output_area(area, &ids, 3), None);
}

#[test]
fn unchanged_configuration_error_keeps_overlay_element_ids() {
    let mut overlay = ConfigErrorOverlayState::new();
    assert!(overlay.update(1920, 1080, "unsupported key Space at line 130"));
    assert!(!overlay.update(1920, 1080, "unsupported key Space at line 130"));
    assert_eq!(overlay.commit, 1);
}

#[test]
fn changed_configuration_error_advances_overlay_commit() {
    let mut overlay = ConfigErrorOverlayState::new();
    overlay.update(1920, 1080, "first error");
    overlay.update(1920, 1080, "second error");
    assert_eq!(overlay.commit, 2);
}

#[test]
fn loading_reads_existing_files_and_fails_only_for_explicit_missing_ones() {
    assert_eq!(load_step(true, true, false), LoadStep::ReadFile);
    assert_eq!(load_step(true, false, true), LoadStep::Missing);
    assert_eq!(load_step(true, false, false), LoadStep::UseDefaults);
    assert_eq!(load_step(false, false, true), LoadStep::UseDefaults);
    assert_eq!(missing_file("/x.kdl").to_string(), "configuration file does not exist: /x.kdl");
}

#[test]
fn failed_reload_keeps_last_valid_configuration() {
    let path = ConfigPath { bytes: b"/c.kdl".to_vec(), display: "/c.kdl".into() };
    let mut loaded = mio_compositor::config::Config::default();
    loaded.appearance.gaps = 7;
    let mut manager = ConfigManager::new(loaded.clone(), Some(path));
    let error = mio_compositor::config_error::ConfigError::from_str("bad");
    assert!(manager.finish_reload(Err(error)).is_err());
    assert_eq!(manager.config(), &loaded);
    assert_eq!(manager.display_path(), "/c.kdl");
    let fallback = ConfigManager::fallback(None);
    assert_eq!(fallback.display_path(), "built-in defaults");
    assert_eq!(fallback.config(), &mio_compositor::config::Config::default());
}

#[test]
fn floating_chord_toggles_once_whichever_button_is_released_first() {
    for order in [[BTN_RIGHT, BTN_MIDDLE], [BTN_MIDDLE, BTN_RIGHT]] {
        let chord = PendingFloatingChord { id: 9, buttons_held: mouse_chord_mask(&[MouseButton::Right, MouseButton::Middle]) };
        let first = floating_chord_release(Some(chord), order[0], ButtonState::Released);
        assert!(first.consumed);
        assert_eq!(first.toggle, Some(9));
        assert!(first.remaining.is_some());
        let second = floating_chord_release(first.remaining, order[1], ButtonState::Released);
        assert!(second.consumed);
        assert_eq!(second.toggle, None);
        assert_eq!(second.remaining, None);
    }
    let chord = PendingFloatingChord { id: 9, buttons_held: 2 };
    let other = floating_chord_release(Some(chord), BTN_LEFT, ButtonState::Released);
    assert!(!other.consumed);
    assert_eq!(other.remaining, Some(chord));
}

#[test]
fn drag_releases_are_swallowed_once_and_may_start_a_close_gesture() {
    assert_eq!(releases_after_drag(0b011, 0b010), 0b010);
    assert_eq!(swallow_drag_release(0b010, BTN_RIGHT, ButtonState::Released), Some(0));
    assert_eq!(swallow_drag_release(0b010, BTN_LEFT, ButtonState::Released), None);
    assert_eq!(swallow_drag_release(0b010, BTN_RIGHT, ButtonState::Pressed), None);
    let mouse = MouseConfig::default();
    let held_right = 0b010;
    let pending = Some(PendingCloseClick { id: 4, deadline_ns: 0, clicks: 2 });
    assert_eq!(
        drag_release_close_click(&mouse, held_right, BTN_LEFT, true, 4, pending, 99),
        Some(PendingCloseClick { id: 4, deadline_ns: 99, clicks: 2 })
    );
    assert_eq!(
        drag_release_close_click(&mouse, held_right, BTN_LEFT, true, 5, pending, 99),
        Some(PendingCloseClick { id: 5, deadline_ns: 99, clicks: 1 })
    );
    assert_eq!(drag_release_close_click(&mouse, held_right, BTN_LEFT, false, 4, pending, 99), None);
    assert_eq!(drag_release_close_click(&mouse, 0, BTN_LEFT, true, 4, pending, 99), None);
}

#[test]
fn button_gestures_are_tried_in_order() {
    let mouse = MouseConfig::default();
    assert_eq!(gesture_candidates(&mouse, 0b001, BTN_LEFT, ButtonState::Pressed, false), [Gesture::ResizeWindow]);
    assert_eq!(gesture_candidates(&mouse, 0b011, BTN_LEFT, ButtonState::Pressed, false), [Gesture::DragWindow]);
    assert_eq!(
        gesture_candidates(&mouse, 0b110, BTN_MIDDLE, ButtonState::Pressed, false),
        [Gesture::ToggleFloating, Gesture::PlaceNext]
    );
    assert_eq!(gesture_candidates(&mouse, 0b100, BTN_MIDDLE, ButtonState::Pressed, false), [Gesture::PlaceNext]);
    assert!(gesture_candidates(&mouse, 0b011, BTN_LEFT, ButtonState::Pressed, true).is_empty());
    assert!(gesture_candidates(&mouse, 0b000, BTN_LEFT, ButtonState::Released, false).is_empty());
}

#[test]
fn pressed_keys_run_the_first_matching_binding() {
    let bindings = default_bindings();
    let logo = Modifiers { ctrl: false, alt: false, shift: false, logo: true };
    assert_eq!(decide_key(true, 0xff51, logo, &bindings), KeyDecision::Shortcut(0));
    assert_eq!(decide_key(true, 'H' as u32, logo, &bindings), KeyDecision::Shortcut(26));
    assert_eq!(decide_key(false, 0xff51, logo, &bindings), KeyDecision::Forward);
    let none = Modifiers { ctrl: false, alt: false, shift: false, logo: false };
    assert_eq!(decide_key(true, 0xff51, none, &bindings), KeyDecision::Forward);
    assert_eq!(decide_key(true, 0x1008_FE03, none, &bindings), KeyDecision::ChangeVt(3));
    assert_eq!(key_from_keysym(0xff0d), Some(Key::Enter));
    assert_eq!(key_from_keysym('Q' as u32), Some(Key::Letter('q')));
    assert_eq!(key_from_keysym(0xD800), None);
}

#[test]
fn clients_toggle_fullscreen_only_when_it_changes() {
    assert_eq!(presentation_request_step(Presentation::Maximized, true, Presentation::Normal), PresentationStep::Resend);
    assert_eq!(
        presentation_request_step(Presentation::Fullscreen, true, Presentation::Normal),
        PresentationStep::ToggleFullscreen
    );
    assert_eq!(
        presentation_request_step(Presentation::Fullscreen, true, Presentation::Fullscreen),
        PresentationStep::Nothing
    );
    assert_eq!(
        presentation_request_step(Presentation::Fullscreen, false, Presentation::Fullscreen),
        PresentationStep::ToggleFullscreen
    );
}

#[test]
fn resize_preview_follows_pointer_pixels_without_abandoning_grid_minimum() {
    let screen = ScreenRect { x: 100, y: 200, width: 800, height: 600 };
    // One grid cell of an 8 by 6 cell window shown at 800 by 600 pixels.
    let min_width = (800.0f64 / 8.0).round().max(1.0) as i64;
    let min_height = (600.0f64 / 6.0).round().max(1.0) as i64;
    let upper_right = ResizeEdges { left: false, right: true, top: true, bottom: false };
    assert_eq!(
        resize_preview_from_drag(screen, min_width, min_height, upper_right, 37.0f64.round() as i64, (-23.0f64).round() as i64),
        ScreenRect { x: 100, y: 177, width: 837, height: 623 }
    );
    let left = ResizeEdges { left: true, right: false, top: false, bottom: false };
    assert_eq!(
        resize_preview_from_drag(screen, min_width, min_height, left, 900, 0),
        ScreenRect { x: 800, y: 200, width: 100, height: 600 }
    );
    assert_eq!(
        follower_preview_from_drag(
            ResizeFollowerPreview { id: 2, screen, horizontal: true, vertical: false },
            37.0f64 as i32,
            -23.0f64 as i32,
        ),
        ScreenRect { x: 137, ..screen }
    );
}

#[test]
fn resize_preview_extents_never_drop_below_one_pixel() {
    let screen = ScreenRect { x: 0, y: 0, width: -5, height: 0 };
    let none = ResizeEdges { left: false, right: false, top: false, bottom: false };
    assert_eq!(
        resize_preview_from_drag(screen, 1, 1, none, 10, 10),
        ScreenRect { x: 0, y: 0, width: 1, height: 1 }
    );
    let bottom = ResizeEdges { left: false, right: false, top: false, bottom: true };
    let tall = ScreenRect { x: i32::MAX, y: 0, width: 10, height: 10 };
    assert_eq!(
        resize_preview_from_drag(tall, 1, 1, bottom, 0, i64::from(i32::MAX)),
        ScreenRect { x: i32::MAX, y: 0, width: 10, height: i32::MAX }
    );
}

#[test]
fn shortcuts_on_the_focused_window_need_one() {
    assert_eq!(shortcut_step(ConfigAction::Close, Some(4)), ShortcutStep::CloseWindow(4));
    assert_eq!(shortcut_step(ConfigAction::Close, None), ShortcutStep::Nothing);
    assert_eq!(
        shortcut_step(ConfigAction::Resize(Direction::Left), Some(9)),
        ShortcutStep::ResizeWindow(9, Direction::Left)
    );
    assert_eq!(shortcut_step(ConfigAction::ToggleOpacity, None), ShortcutStep::Nothing);
    assert_eq!(shortcut_step(ConfigAction::SelectOverview, Some(2)), ShortcutStep::SelectOverview(2));
    assert_eq!(shortcut_step(ConfigAction::Camera(Direction::Up), None), ShortcutStep::CameraStep(Direction::Up));
    assert_eq!(shortcut_step(ConfigAction::ReloadConfig, None), ShortcutStep::ReloadConfig);
    assert_eq!(
        shortcut_step(ConfigAction::Spawn(vec!["foot".to_string()]), None),
        ShortcutStep::Spawn(vec!["foot".to_string()])
    );
}

#[test]
fn cursor_wake_toggle_flips_what_is_shown() {
    assert!(!cursor_wake_after_toggle(None, true));
    assert!(cursor_wake_after_toggle(None, false));
    assert!(cursor_wake_after_toggle(Some(false), false));
    assert!(!cursor_wake_after_toggle(Some(true), false));
}

/// How far a shadow of blur radius `radius` reaches: three radii, rounded up.
fn shadow_extent(radius: f32) -> i32 {
    (radius * 3.0).ceil() as i32
}

#[test]
fn focus_glow_tracks_the_presented_bottom_edge() {
    let window = ScreenRect { x: 300, y: 200, width: 640, height: 480 };
    assert_eq!(focus_glow_geometry(window, 3), ScreenRect { x: 300, y: 668, width: 640, height: 48 });
}

#[test]
fn focus_glow_keeps_a_minimum_size() {
    let window = ScreenRect { x: 0, y: 0, width: 0, height: 10 };
    assert_eq!(focus_glow_geometry(window, 1), ScreenRect { x: 0, y: 2, width: 1, height: 32 });
    let tall = ScreenRect { x: 0, y: i32::MAX, width: 5, height: 10 };
    assert_eq!(focus_glow_geometry(tall, i32::MAX), ScreenRect { x: 0, y: i32::MAX - i32::MAX / 4, width: 5, height: i32::MAX });
}

#[test]
fn shadow_bounds_include_negative_world_coordinates_and_offset() {
    let window = ScreenRect { x: -100, y: -50, width: 200, height: 100 };
    let (geometry, local_window) = shadow_geometry(window, shadow_extent(10.0), [5, -7]);
    assert_eq!(geometry, ScreenRect { x: -130, y: -87, width: 265, height: 167 });
    assert_eq!(local_window, ScreenRect { x: 35, y: 30, width: 200, height: 100 });
}

#[test]
fn zero_radius_without_offset_does_not_expand_bounds() {
    let window = ScreenRect { x: 12, y: 34, width: 200, height: 100 };
    let (geometry, local_window) = shadow_geometry(window, shadow_extent(0.0), [0, 0]);
    assert_eq!(geometry, window);
    assert_eq!(local_window, ScreenRect { x: 0, y: 0, width: 200, height: 100 });
}

#[test]
fn blur_levels_halve_down_to_one_pixel() {
    assert_eq!(blur_level_sizes(100, 3, 3), vec![(50, 1), (25, 1), (12, 1)]);
    assert_eq!(blur_level_sizes(1920, 1080, 0), Vec::<(i32, i32)>::new());
    assert_eq!(blur_level_sizes(-7, 2, 1), vec![(1, 1)]);
}

#[test]
fn only_the_first_commit_of_an_unclassified_window_is_deferred() {
    let mut commits = 0u8;
    assert!(should_defer_unclassified_toplevel(&mut commits, false, false, true));
    assert_eq!(commits, 1);
    assert!(!should_defer_unclassified_toplevel(&mut commits, false, false, true));
    assert_eq!(commits, 2);
    let mut fresh = 0u8;
    assert!(!should_defer_unclassified_toplevel(&mut fresh, true, false, true));
    let mut floating = 0u8;
    assert!(!should_defer_unclassified_toplevel(&mut floating, false, true, true));
    let mut alone = 0u8;
    assert!(!should_defer_unclassified_toplevel(&mut alone, false, false, false));
    let mut saturated = u8::MAX;
    assert!(!should_defer_unclassified_toplevel(&mut saturated, false, false, true));
    assert_eq!(saturated, u8::MAX);
}

#[test]
fn focus_returns_to_the_first_surviving_candidate() {
    let (foot, parent, dialog) = (1u64, 2u64, 3u64);
    let live = vec![foot, parent];
    assert_eq!(preferred_focus(&vec![parent], &live), Some(parent));
    assert_eq!(preferred_focus(&vec![dialog, foot, parent], &live), Some(foot));
    assert_eq!(preferred_focus(&vec![dialog], &live), None);
    assert_eq!(preferred_focus(&Vec::new(), &live), None);
}

#[test]
fn a_locked_session_or_an_exclusive_layer_receives_every_key() {
    let bindings = default_bindings();
    let logo = Modifiers { ctrl: false, alt: false, shift: false, logo: true };
    let q = 'q' as u32;
    assert_eq!(route_key(true, false, false, true, q, logo, &bindings).decision, KeyDecision::Forward);
    let layer = route_key(false, true, false, true, q, logo, &bindings);
    assert!(layer.focus_exclusive_layer);
    assert_eq!(layer.decision, KeyDecision::Forward);
    assert_eq!(route_key(false, false, true, true, q, logo, &bindings).decision, KeyDecision::Forward);
    let open = route_key(false, false, false, true, q, logo, &bindings);
    assert!(!open.focus_exclusive_layer);
    assert_eq!(open.decision, decide_key(true, q, logo, &bindings));
    assert!(matches!(open.decision, KeyDecision::Shortcut(_)));
}

#[test]
fn reloading_reads_the_same_file_or_falls_back() {
    let path = ConfigPath { bytes: b"/home/u/.config/mio/config.kdl".to_vec(), display: "/home/u/.config/mio/config.kdl".into() };
    let manager = ConfigManager::new(mio_compositor::config::Config::default(), Some(path));
    assert_eq!(manager.path().unwrap().bytes, b"/home/u/.config/mio/config.kdl".to_vec());
    assert_eq!(manager.reload_step(true), LoadStep::ReadFile);
    assert_eq!(manager.reload_step(false), LoadStep::Missing);
    let without = ConfigManager::new(mio_compositor::config::Config::default(), None);
    assert_eq!(without.reload_step(true), LoadStep::UseDefaults);
}
