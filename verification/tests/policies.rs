use mio_compositor::backend::{classify_hotplug, direct_scene, DirectScene, HotplugAction, HotplugEventKind};
use mio_compositor::geometry::{inset_screen_rect, ScreenRect};
use mio_compositor::keys::{key_from_lookup_answer, key_lookup, key_name_of_chord, Key, KeyChord, KeyLookup};
use mio_compositor::mouse::MouseButton;
use mio_compositor::pointer::{
    mouse_chord_mask, pointer_button_mask, window_resize_surface_allowed, BTN_MIDDLE, BTN_RIGHT,
};
use mio_compositor::render::{floating_z_index, record_initial_client_size, should_round_surface_element};
use mio_compositor::shell::{
    activation_is_fresh, fixed_size_constraints, ping_due, PingDue, TOKEN_MAX_AGE_NS,
};

#[test]
fn activation_tokens_expire_at_policy_boundary() {
    assert!(activation_is_fresh(9_000_000_000));
    assert!(!activation_is_fresh(TOKEN_MAX_AGE_NS));
}

#[test]
fn xdg_ping_schedule_distinguishes_send_wait_and_timeout() {
    let now = 5_000_000_000u64;
    assert_eq!(ping_due(now, now, None, false), PingDue::Send);
    assert_eq!(ping_due(now, now, Some(now + 1_000_000_000), false), PingDue::Nothing);
    assert_eq!(ping_due(now, now, Some(now), false), PingDue::Timeout);
    assert_eq!(ping_due(now, now, Some(now), true), PingDue::Nothing);
}

#[test]
fn fixed_size_requires_both_axes_to_have_equal_nonzero_limits() {
    assert!(fixed_size_constraints((640, 480), (640, 480)));
    assert!(!fixed_size_constraints((640, 0), (640, 0)));
    assert!(!fixed_size_constraints((640, 480), (800, 480)));
    assert!(!fixed_size_constraints((0, 0), (0, 0)));
}

#[test]
fn popup_surfaces_never_start_parent_window_resize() {
    assert!(window_resize_surface_allowed(false));
    assert!(!window_resize_surface_allowed(true));
}

#[test]
fn floating_chord_consumes_both_release_orders() {
    for order in [[BTN_RIGHT, BTN_MIDDLE], [BTN_MIDDLE, BTN_RIGHT]] {
        let mut held = mouse_chord_mask(&[MouseButton::Right, MouseButton::Middle]);
        held &= !pointer_button_mask(order[0]);
        assert_ne!(held, 0);
        held &= !pointer_button_mask(order[1]);
        assert_eq!(held, 0);
    }
}

#[test]
fn outer_gap_insets_without_changing_the_center() {
    assert_eq!(
        inset_screen_rect(ScreenRect { x: -20, y: 10, width: 100, height: 60 }, 8),
        ScreenRect { x: -12, y: 18, width: 84, height: 44 }
    );
}

#[test]
fn outer_gap_keeps_tiny_presentations_non_empty() {
    assert_eq!(
        inset_screen_rect(ScreenRect { x: 4, y: 7, width: 2, height: 1 }, u32::MAX),
        ScreenRect { x: 4, y: 7, width: 2, height: 1 }
    );
}

#[test]
fn rounded_window_clip_does_not_apply_to_popup_surfaces() {
    assert!(should_round_surface_element(false, true));
    assert!(!should_round_surface_element(true, true));
    assert!(!should_round_surface_element(false, false));
}

#[test]
fn floating_windows_stack_above_tiled_windows() {
    assert!(floating_z_index(true) > floating_z_index(false));
}

#[test]
fn initial_client_size_is_configured_without_waiting_for_a_redraw() {
    let mut last = None;
    assert_eq!(record_initial_client_size(&mut last, (1280, 720)), Some((1280, 720)));
    assert_eq!(last, Some((1280, 720)));
    assert_eq!(record_initial_client_size(&mut last, (1920, 1080)), None);
}

#[test]
fn hotplug_only_reconfigures_the_single_active_output() {
    assert_eq!(classify_hotplug(None, Some(7), HotplugEventKind::Connected), HotplugAction::Connect);
    assert_eq!(classify_hotplug(Some(7), Some(7), HotplugEventKind::Disconnected), HotplugAction::Disconnect);
    assert_eq!(classify_hotplug(Some(7), Some(7), HotplugEventKind::Changed), HotplugAction::Reconnect);
    assert_eq!(classify_hotplug(Some(7), Some(9), HotplugEventKind::Connected), HotplugAction::Ignore);
    assert_eq!(classify_hotplug(Some(7), Some(9), HotplugEventKind::Disconnected), HotplugAction::Ignore);
    assert_eq!(classify_hotplug(None, None, HotplugEventKind::Connected), HotplugAction::Ignore);
}

#[test]
fn session_lock_excludes_the_desktop_scene() {
    assert_eq!(direct_scene(false), DirectScene::Desktop);
    assert_eq!(direct_scene(true), DirectScene::SessionLock);
}

#[test]
fn named_keys_take_the_keysym_table_answer() {
    let name = key_name_of_chord("Super+Space");
    assert_eq!(name, vec!['S', 'p', 'a', 'c', 'e']);
    match key_lookup(&name) {
        KeyLookup::ByName(alias) => assert_eq!(alias, "Space"),
        _ => panic!("a multi-letter key name is looked up by name"),
    }
    let key = key_from_lookup_answer(&name, 0x20, 0x20);
    let space = KeyChord::from_str("Super+Space", key).unwrap();
    assert_eq!(space.key, Key::Letter(' '));
    assert!(space.logo);
    assert!(!space.ctrl);

    let print = key_name_of_chord("PrintScreen");
    match key_lookup(&print) {
        KeyLookup::ByName(alias) => assert_eq!(alias, "Print"),
        _ => panic!("aliases are looked up by their xkb name"),
    }
    assert_eq!(key_from_lookup_answer(&print, 0xff61, 0), Ok(Key::Symbol(0xff61)));
    let unknown = key_name_of_chord("DefinitelyNotARealKey");
    assert!(key_from_lookup_answer(&unknown, 0, 0).is_err());
}
