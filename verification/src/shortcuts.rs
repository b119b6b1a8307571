//! Keyboard shortcuts: which pressed keys Mio intercepts, as a virtual
//! terminal switch or as a configured binding, and which go to the client.

use vstd::prelude::*;

use crate::config::{binding_views, BindingView, ConfigAction, KeyBinding};
use crate::config_doc::Number;
use crate::direction::Direction;
use crate::keys::{is_scalar, Key, KeyChord, KEYSYM_DOWN, KEYSYM_LEFT, KEYSYM_RETURN, KEYSYM_RIGHT, KEYSYM_UP};
use crate::text::ascii_lower;

verus! {

/// The keysym of `XF86Switch_VT_1`.
pub const KEYSYM_SWITCH_VT_1: u32 = 0x1008_FE01;

/// The keysym of `XF86Switch_VT_12`.
pub const KEYSYM_SWITCH_VT_12: u32 = 0x1008_FE0C;

/// The key a pressed keysym stands for in a shortcut: the arrows and Return
/// by name, and otherwise the keysym's raw value read as a character (when
/// it is one), lowercased.
pub open spec fn pressed_key(raw: u32) -> Option<Key> {
    if raw == KEYSYM_LEFT {
        Some(Key::Left)
    } else if raw == KEYSYM_RIGHT {
        Some(Key::Right)
    } else if raw == KEYSYM_UP {
        Some(Key::Up)
    } else if raw == KEYSYM_DOWN {
        Some(Key::Down)
    } else if raw == KEYSYM_RETURN {
        Some(Key::Enter)
    } else if is_scalar(raw) {
        Some(Key::Letter(ascii_lower(raw as char)))
    } else {
        None
    }
}

/// A pressed keysym stands for the key the configuration names by it: the
/// arrows and Return for their own keysyms (`Up` for `XK_Up`, and so on),
/// and a keysym that is a character for that character, lowercased. Each
/// arrow key and Return comes from its own keysym alone.
pub proof fn lemma_pressed_keys_match_configured_keys(raw: u32)
    ensures
        raw != 0 && pressed_key(raw) is Some ==> pressed_key(raw) == Some(crate::keys::key_of_keysym(raw, raw)),
        (pressed_key(raw) == Some(Key::Left)) == (raw == 0xff51),
        (pressed_key(raw) == Some(Key::Up)) == (raw == 0xff52),
        (pressed_key(raw) == Some(Key::Right)) == (raw == 0xff53),
        (pressed_key(raw) == Some(Key::Down)) == (raw == 0xff54),
        (pressed_key(raw) == Some(Key::Enter)) == (raw == 0xff0d),
{
}

/// The key a pressed keysym stands for in a shortcut.
pub fn key_from_keysym(raw: u32) -> (key: Option<Key>)
    ensures
        key == pressed_key(raw),
{
    if raw == KEYSYM_LEFT {
        Some(Key::Left)
    } else if raw == KEYSYM_RIGHT {
        Some(Key::Right)
    } else if raw == KEYSYM_UP {
        Some(Key::Up)
    } else if raw == KEYSYM_DOWN {
        Some(Key::Down)
    } else if raw == KEYSYM_RETURN {
        Some(Key::Enter)
    } else {
        match crate::keys::char_from_code(raw) {
            Some(c) => Some(Key::Letter(crate::text::lower_char(c))),
            None => None,
        }
    }
}

/// The modifiers held with a key.
#[derive(Clone, Copy, Debug, PartialEq, Eq, Structural)]
pub struct Modifiers {
    pub ctrl: bool,
    pub alt: bool,
    pub shift: bool,
    pub logo: bool,
}

/// What happens to a key event.
#[derive(Clone, Copy, Debug, PartialEq, Eq, Structural)]
pub enum KeyDecision {
    /// The focused client receives it.
    Forward,
    /// Mio switches to this virtual terminal.
    ChangeVt(i32),
    /// Mio runs the binding at this position of the configured bindings.
    Shortcut(usize),
}

/// The position of the first binding of `chord`.
pub open spec fn first_binding(bindings: Seq<BindingView>, chord: KeyChord) -> Option<int> {
    if exists|i: int| 0 <= i < bindings.len() && bindings[i].chord == chord {
        Some(choose|i: int| 0 <= i < bindings.len() && bindings[i].chord == chord && forall|j: int| 0 <= j < i ==> bindings[j].chord != chord)
    } else {
        None
    }
}

/// What happens to a key event: releases go to the client; a pressed
/// virtual-terminal switch key switches; a pressed key whose chord (with the
/// held modifiers) is bound runs the first such binding; anything else goes
/// to the client.
pub open spec fn key_decision(pressed: bool, keysym: u32, modifiers: Modifiers, bindings: Seq<BindingView>) -> KeyDecision {
    if !pressed {
        KeyDecision::Forward
    } else if KEYSYM_SWITCH_VT_1 <= keysym <= KEYSYM_SWITCH_VT_12 {
        KeyDecision::ChangeVt((keysym - KEYSYM_SWITCH_VT_1 + 1) as i32)
    } else {
        match pressed_key(keysym) {
            None => KeyDecision::Forward,
            Some(key) => {
                let chord = KeyChord {
                    ctrl: modifiers.ctrl,
                    alt: modifiers.alt,
                    shift: modifiers.shift,
                    logo: modifiers.logo,
                    key,
                };
                match first_binding(bindings, chord) {
                    Some(i) => KeyDecision::Shortcut(i as usize),
                    None => KeyDecision::Forward,
                }
            },
        }
    }
}

/// Decides what happens to a key event, given whether the key went down,
/// its keysym, the held modifiers and the configured bindings.
pub fn decide_key(pressed: bool, keysym: u32, modifiers: Modifiers, bindings: &Vec<KeyBinding>) -> (decision: KeyDecision)
    ensures
        decision == key_decision(pressed, keysym, modifiers, binding_views(bindings@)),
{
    if !pressed {
        return KeyDecision::Forward;
    }
    if KEYSYM_SWITCH_VT_1 <= keysym && keysym <= KEYSYM_SWITCH_VT_12 {
        return KeyDecision::ChangeVt((keysym - KEYSYM_SWITCH_VT_1 + 1) as i32);
    }
    let key = match key_from_keysym(keysym) {
        Some(k) => k,
        None => return KeyDecision::Forward,
    };
    let chord = KeyChord { ctrl: modifiers.ctrl, alt: modifiers.alt, shift: modifiers.shift, logo: modifiers.logo, key };
    let ghost views = binding_views(bindings@);
    let mut i: usize = 0;
    while i < bindings.len()
        invariant
            i <= bindings@.len(),
            views == binding_views(bindings@),
            pressed,
            !(KEYSYM_SWITCH_VT_1 <= keysym <= KEYSYM_SWITCH_VT_12),
            pressed_key(keysym) == Some(key),
            chord == (KeyChord {
                ctrl: modifiers.ctrl,
                alt: modifiers.alt,
                shift: modifiers.shift,
                logo: modifiers.logo,
                key,
            }),
            forall|j: int| 0 <= j < i ==> views[j].chord != chord,
        decreases bindings.len() - i,
    {
        assert(views[i as int].chord == bindings@[i as int].chord);
        if bindings[i].chord == chord {
            proof {
                assert(0 <= i < views.len() && views[i as int].chord == chord);
                assert(exists|k: int| 0 <= k < views.len() && views[k].chord == chord);
                assert(exists|k: int|
                    0 <= k < views.len() && views[k].chord == chord && forall|j: int| 0 <= j < k ==> views[j].chord != chord);
                let found = choose|k: int| 0 <= k < views.len() && views[k].chord == chord && forall|j: int|
                    0 <= j < k ==> views[j].chord != chord;
                if found < i {
                    assert(views[found].chord != chord);
                }
                if found > i {
                    assert(views[i as int].chord != chord);
                }
                assert(found == i);
                assert(first_binding(views, chord) == Some(i as int));
            }
            return KeyDecision::Shortcut(i);
        }
        i = i + 1;
    }
    KeyDecision::Forward
}

/// The chord a pressed keysym makes with the held modifiers.
pub open spec fn pressed_chord(keysym: u32, modifiers: Modifiers) -> KeyChord {
    KeyChord {
        ctrl: modifiers.ctrl,
        alt: modifiers.alt,
        shift: modifiers.shift,
        logo: modifiers.logo,
        key: pressed_key(keysym)->0,
    }
}

proof fn lemma_first_binding_found(bindings: Seq<BindingView>, chord: KeyChord, k: int)
    requires
        0 <= k < bindings.len(),
        bindings[k].chord == chord,
    ensures
        first_binding(bindings, chord) matches Some(i) && 0 <= i <= k && bindings[i].chord == chord
            && forall|j: int| 0 <= j < i ==> bindings[j].chord != chord,
    decreases k,
{
    if exists|j: int| 0 <= j < k && bindings[j].chord == chord {
        let j = choose|j: int| 0 <= j < k && bindings[j].chord == chord;
        lemma_first_binding_found(bindings, chord, j);
    } else {
        assert(exists|i: int|
            0 <= i < bindings.len() && bindings[i].chord == chord && forall|j: int| 0 <= j < i ==> bindings[j].chord != chord);
        let i = choose|i: int|
            0 <= i < bindings.len() && bindings[i].chord == chord && forall|j: int| 0 <= j < i ==> bindings[j].chord != chord;
        if i > k {
            assert(bindings[k].chord != chord);
        }
    }
}

/// What a key event does: a release always goes to the client; a pressed
/// virtual-terminal key switches to its own terminal (`XF86Switch_VT_n` to
/// terminal n); a pressed key runs a binding exactly when some binding has
/// the chord of that key and the held modifiers, and then the first such
/// binding.
pub proof fn lemma_key_decisions(pressed: bool, keysym: u32, modifiers: Modifiers, bindings: Seq<BindingView>)
    requires
        bindings.len() <= usize::MAX,
    ensures
        !pressed ==> key_decision(pressed, keysym, modifiers, bindings) == KeyDecision::Forward,
        pressed && KEYSYM_SWITCH_VT_1 <= keysym <= KEYSYM_SWITCH_VT_12 ==> (key_decision(
            pressed,
            keysym,
            modifiers,
            bindings,
        ) matches KeyDecision::ChangeVt(n) && 1 <= n <= 12 && keysym == KEYSYM_SWITCH_VT_1 + n - 1),
        key_decision(pressed, keysym, modifiers, bindings) matches KeyDecision::Shortcut(i) ==> {
            &&& pressed
            &&& pressed_key(keysym) is Some
            &&& 0 <= i < bindings.len()
            &&& bindings[i as int].chord == pressed_chord(keysym, modifiers)
            &&& forall|j: int| 0 <= j < i ==> bindings[j].chord != pressed_chord(keysym, modifiers)
        },
        forall|k: int|
            pressed && !(KEYSYM_SWITCH_VT_1 <= keysym <= KEYSYM_SWITCH_VT_12) && pressed_key(keysym) is Some && 0
                <= k < bindings.len() && #[trigger] bindings[k].chord == pressed_chord(keysym, modifiers)
                ==> (key_decision(pressed, keysym, modifiers, bindings) matches KeyDecision::Shortcut(i) && i <= k),
{
    let chord = pressed_chord(keysym, modifiers);
    assert forall|k: int|
        pressed && !(KEYSYM_SWITCH_VT_1 <= keysym <= KEYSYM_SWITCH_VT_12) && pressed_key(keysym) is Some && 0 <= k
            < bindings.len() && #[trigger] bindings[k].chord == chord implies (key_decision(
        pressed,
        keysym,
        modifiers,
        bindings,
    ) matches KeyDecision::Shortcut(i) && i <= k) by {
        lemma_first_binding_found(bindings, chord, k);
    }
    if pressed && !(KEYSYM_SWITCH_VT_1 <= keysym <= KEYSYM_SWITCH_VT_12) && pressed_key(keysym) is Some {
        if exists|k: int| 0 <= k < bindings.len() && bindings[k].chord == chord {
            let k = choose|k: int| 0 <= k < bindings.len() && bindings[k].chord == chord;
            lemma_first_binding_found(bindings, chord, k);
        }
    }
}

/// Where a key event goes, given the keyboard's situation.
#[derive(Clone, Copy, Debug, PartialEq, Eq, Structural)]
pub struct KeyRoute {
    /// Give keyboard focus to the exclusive top or overlay layer surface first.
    pub focus_exclusive_layer: bool,
    pub decision: KeyDecision,
}

/// Where a key event goes: while the session is locked, while a top or
/// overlay layer surface takes the keyboard exclusively (which then gets
/// focus), or while the focused surface inhibits shortcuts, every key goes
/// to the client; otherwise [`key_decision`] decides.
pub open spec fn key_route(
    locked: bool,
    exclusive_layer: bool,
    shortcuts_inhibited: bool,
    pressed: bool,
    keysym: u32,
    modifiers: Modifiers,
    bindings: Seq<BindingView>,
) -> KeyRoute {
    if locked {
        KeyRoute { focus_exclusive_layer: false, decision: KeyDecision::Forward }
    } else if exclusive_layer {
        KeyRoute { focus_exclusive_layer: true, decision: KeyDecision::Forward }
    } else if shortcuts_inhibited {
        KeyRoute { focus_exclusive_layer: false, decision: KeyDecision::Forward }
    } else {
        KeyRoute { focus_exclusive_layer: false, decision: key_decision(pressed, keysym, modifiers, bindings) }
    }
}

/// Decides where a key event goes.
pub fn route_key(
    locked: bool,
    exclusive_layer: bool,
    shortcuts_inhibited: bool,
    pressed: bool,
    keysym: u32,
    modifiers: Modifiers,
    bindings: &Vec<KeyBinding>,
) -> (route: KeyRoute)
    ensures
        route == key_route(locked, exclusive_layer, shortcuts_inhibited, pressed, keysym, modifiers, binding_views(bindings@)),
        locked ==> route.decision == KeyDecision::Forward,
{
    if locked {
        KeyRoute { focus_exclusive_layer: false, decision: KeyDecision::Forward }
    } else if exclusive_layer {
        KeyRoute { focus_exclusive_layer: true, decision: KeyDecision::Forward }
    } else if shortcuts_inhibited {
        KeyRoute { focus_exclusive_layer: false, decision: KeyDecision::Forward }
    } else {
        KeyRoute { focus_exclusive_layer: false, decision: decide_key(pressed, keysym, modifiers, bindings) }
    }
}

/// What running a configured shortcut asks for, given the window that has
/// keyboard focus. Actions on "the focused window" name it; with no focused
/// window they ask for nothing.
#[derive(Clone, Debug, PartialEq)]
pub enum ShortcutStep {
    Nothing,
    CloseWindow(u64),
    CameraStep(Direction),
    CameraNudge(Direction),
    CameraZoom(Number),
    CycleOutput,
    ToggleFloating(u64),
    Focus(Direction),
    ToggleFullscreen(u64),
    ToggleMaximized(u64),
    ToggleWindowSize(u64),
    ToggleOpacity(u64),
    ToggleBlur(u64),
    ToggleCursorWake,
    ClearOpacity(u64),
    ToggleOverview,
    SelectOverview(u64),
    MoveWindow(u64, Direction),
    ResizeWindow(u64, Direction),
    PlaceNext(Direction),
    ReloadConfig,
    Spawn(Vec<String>),
}

/// The step a shortcut asks for: one that acts on the focused window asks
/// for nothing when no window is focused; the others do not depend on focus.
pub open spec fn shortcut_step_of(action: ConfigAction, focused: Option<u64>) -> ShortcutStep {
    match action {
        ConfigAction::Close => match focused {
            Some(id) => ShortcutStep::CloseWindow(id),
            None => ShortcutStep::Nothing,
        },
        ConfigAction::Camera(d) => ShortcutStep::CameraStep(d),
        ConfigAction::CameraNudge(d) => ShortcutStep::CameraNudge(d),
        ConfigAction::CameraZoom(z) => ShortcutStep::CameraZoom(z),
        ConfigAction::CycleOutput => ShortcutStep::CycleOutput,
        ConfigAction::Focus(d) => ShortcutStep::Focus(d),
        ConfigAction::Move(d) => match focused {
            Some(id) => ShortcutStep::MoveWindow(id, d),
            None => ShortcutStep::Nothing,
        },
        ConfigAction::Resize(d) => match focused {
            Some(id) => ShortcutStep::ResizeWindow(id, d),
            None => ShortcutStep::Nothing,
        },
        ConfigAction::PlaceNext(d) => ShortcutStep::PlaceNext(d),
        ConfigAction::ToggleFloating => match focused {
            Some(id) => ShortcutStep::ToggleFloating(id),
            None => ShortcutStep::Nothing,
        },
        ConfigAction::ToggleFullscreen => match focused {
            Some(id) => ShortcutStep::ToggleFullscreen(id),
            None => ShortcutStep::Nothing,
        },
        ConfigAction::ToggleMaximized => match focused {
            Some(id) => ShortcutStep::ToggleMaximized(id),
            None => ShortcutStep::Nothing,
        },
        ConfigAction::ToggleWindowSize => match focused {
            Some(id) => ShortcutStep::ToggleWindowSize(id),
            None => ShortcutStep::Nothing,
        },
        ConfigAction::ToggleOpacity => match focused {
            Some(id) => ShortcutStep::ToggleOpacity(id),
            None => ShortcutStep::Nothing,
        },
        ConfigAction::ToggleBlur => match focused {
            Some(id) => ShortcutStep::ToggleBlur(id),
            None => ShortcutStep::Nothing,
        },
        ConfigAction::ToggleCursorWake => ShortcutStep::ToggleCursorWake,
        ConfigAction::ClearOpacity => match focused {
            Some(id) => ShortcutStep::ClearOpacity(id),
            None => ShortcutStep::Nothing,
        },
        ConfigAction::ToggleOverview => ShortcutStep::ToggleOverview,
        ConfigAction::SelectOverview => match focused {
            Some(id) => ShortcutStep::SelectOverview(id),
            None => ShortcutStep::Nothing,
        },
        ConfigAction::ReloadConfig => ShortcutStep::ReloadConfig,
        ConfigAction::Spawn(argv) => ShortcutStep::Spawn(argv),
    }
}

/// Decides what running the shortcut `action` asks for while `focused` has
/// keyboard focus.
pub fn shortcut_step(action: ConfigAction, focused: Option<u64>) -> (step: ShortcutStep)
    ensures
        step == shortcut_step_of(action, focused),
{
    match action {
        ConfigAction::Camera(d) => ShortcutStep::CameraStep(d),
        ConfigAction::CameraNudge(d) => ShortcutStep::CameraNudge(d),
        ConfigAction::CameraZoom(z) => ShortcutStep::CameraZoom(z),
        ConfigAction::CycleOutput => ShortcutStep::CycleOutput,
        ConfigAction::Focus(d) => ShortcutStep::Focus(d),
        ConfigAction::PlaceNext(d) => ShortcutStep::PlaceNext(d),
        ConfigAction::ToggleCursorWake => ShortcutStep::ToggleCursorWake,
        ConfigAction::ToggleOverview => ShortcutStep::ToggleOverview,
        ConfigAction::ReloadConfig => ShortcutStep::ReloadConfig,
        ConfigAction::Spawn(argv) => ShortcutStep::Spawn(argv),
        other => match focused {
            None => ShortcutStep::Nothing,
            Some(id) => match other {
                ConfigAction::Close => ShortcutStep::CloseWindow(id),
                ConfigAction::Move(d) => ShortcutStep::MoveWindow(id, d),
                ConfigAction::Resize(d) => ShortcutStep::ResizeWindow(id, d),
                ConfigAction::ToggleFloating => ShortcutStep::ToggleFloating(id),
                ConfigAction::ToggleFullscreen => ShortcutStep::ToggleFullscreen(id),
                ConfigAction::ToggleMaximized => ShortcutStep::ToggleMaximized(id),
                ConfigAction::ToggleWindowSize => ShortcutStep::ToggleWindowSize(id),
                ConfigAction::ToggleOpacity => ShortcutStep::ToggleOpacity(id),
                ConfigAction::ToggleBlur => ShortcutStep::ToggleBlur(id),
                ConfigAction::ClearOpacity => ShortcutStep::ClearOpacity(id),
                ConfigAction::SelectOverview => ShortcutStep::SelectOverview(id),
                _ => ShortcutStep::Nothing,
            },
        },
    }
}

/// Whether the cursor wake is shown after a toggle: the opposite of what was
/// shown before, which is the earlier override where there is one and the
/// configured setting otherwise.
pub fn cursor_wake_after_toggle(override_setting: Option<bool>, configured: bool) -> (enabled: bool)
    ensures
        enabled == !(match override_setting {
            Some(v) => v,
            None => configured,
        }),
{
    match override_setting {
        Some(v) => !v,
        None => !configured,
    }
}

} // verus!
