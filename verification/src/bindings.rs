//! Key-binding actions and the built-in bindings.

use vstd::prelude::*;

use crate::config::{binding_views, ActionView, BindingView, ConfigAction, KeyBinding, REAL_ONE};
use crate::config_doc::Number;
use crate::config_error::ConfigError;
use crate::direction::{direction_named, Direction};
use crate::keys::{quoted, Key, KeyChord};
use crate::text::is_word;

verus! {

/// The direction named by what follows `prefix` in `value`, if `value`
/// starts with `prefix`.
pub open spec fn direction_after(value: Seq<char>, prefix: Seq<char>) -> Option<Direction> {
    if prefix.len() <= value.len() && value.take(prefix.len() as int) == prefix {
        direction_named(value.skip(prefix.len() as int))
    } else {
        None
    }
}

/// The action a binding names. Directional actions are a prefix and a
/// direction (`focus-left`); the prefixes are tried in a fixed order.
pub open spec fn action_named(value: Seq<char>) -> Result<ActionView, Seq<char>> {
    if let Some(d) = direction_after(value, "focus-"@) {
        Ok(ActionView::Focus(d))
    } else if let Some(d) = direction_after(value, "camera-"@) {
        Ok(ActionView::Camera(d))
    } else if let Some(d) = direction_after(value, "camera-nudge-"@) {
        Ok(ActionView::CameraNudge(d))
    } else if let Some(d) = direction_after(value, "move-"@) {
        Ok(ActionView::Move(d))
    } else if let Some(d) = direction_after(value, "resize-"@) {
        Ok(ActionView::Resize(d))
    } else if let Some(d) = direction_after(value, "place-next-"@) {
        Ok(ActionView::PlaceNext(d))
    } else if value == "close"@ {
        Ok(ActionView::Close)
    } else if value == "cycle-output"@ {
        Ok(ActionView::CycleOutput)
    } else if value == "toggle-floating"@ {
        Ok(ActionView::ToggleFloating)
    } else if value == "toggle-fullscreen"@ {
        Ok(ActionView::ToggleFullscreen)
    } else if value == "toggle-maximized"@ {
        Ok(ActionView::ToggleMaximized)
    } else if value == "toggle-window-size"@ {
        Ok(ActionView::ToggleWindowSize)
    } else if value == "toggle-opacity"@ {
        Ok(ActionView::ToggleOpacity)
    } else if value == "toggle-blur"@ {
        Ok(ActionView::ToggleBlur)
    } else if value == "toggle-cursor-wake"@ {
        Ok(ActionView::ToggleCursorWake)
    } else if value == "clear-opacity"@ {
        Ok(ActionView::ClearOpacity)
    } else if value == "toggle-overview"@ {
        Ok(ActionView::ToggleOverview)
    } else if value == "select-overview"@ {
        Ok(ActionView::SelectOverview)
    } else if value == "reload-config"@ {
        Ok(ActionView::ReloadConfig)
    } else {
        Err(quoted("unknown action "@, value))
    }
}

fn direction_after_prefix(value: &Vec<char>, prefix: &str) -> (d: Option<Direction>)
    ensures
        d == direction_after(value@, prefix@),
{
    let p = crate::text::chars_of(prefix);
    if crate::text::starts_with(value, &p) {
        let rest = crate::text::slice_chars(value, p.len(), value.len());
        assert(rest@ == value@.skip(p@.len() as int));
        crate::direction::parse_direction(&rest)
    } else {
        None
    }
}

/// The action a binding names.
pub fn parse_action(value: &Vec<char>) -> (action: Result<ConfigAction, ConfigError>)
    ensures
        match action_named(value@) {
            Ok(a) => action matches Ok(b) && b@ == a,
            Err(m) => action matches Err(e) && e.0@ == m,
        },
{
    if let Some(d) = direction_after_prefix(value, "focus-") {
        return Ok(ConfigAction::Focus(d));
    }
    if let Some(d) = direction_after_prefix(value, "camera-") {
        return Ok(ConfigAction::Camera(d));
    }
    if let Some(d) = direction_after_prefix(value, "camera-nudge-") {
        return Ok(ConfigAction::CameraNudge(d));
    }
    if let Some(d) = direction_after_prefix(value, "move-") {
        return Ok(ConfigAction::Move(d));
    }
    if let Some(d) = direction_after_prefix(value, "resize-") {
        return Ok(ConfigAction::Resize(d));
    }
    if let Some(d) = direction_after_prefix(value, "place-next-") {
        return Ok(ConfigAction::PlaceNext(d));
    }
    if is_word(value, "close") {
        Ok(ConfigAction::Close)
    } else if is_word(value, "cycle-output") {
        Ok(ConfigAction::CycleOutput)
    } else if is_word(value, "toggle-floating") {
        Ok(ConfigAction::ToggleFloating)
    } else if is_word(value, "toggle-fullscreen") {
        Ok(ConfigAction::ToggleFullscreen)
    } else if is_word(value, "toggle-maximized") {
        Ok(ConfigAction::ToggleMaximized)
    } else if is_word(value, "toggle-window-size") {
        Ok(ConfigAction::ToggleWindowSize)
    } else if is_word(value, "toggle-opacity") {
        Ok(ConfigAction::ToggleOpacity)
    } else if is_word(value, "toggle-blur") {
        Ok(ConfigAction::ToggleBlur)
    } else if is_word(value, "toggle-cursor-wake") {
        Ok(ConfigAction::ToggleCursorWake)
    } else if is_word(value, "clear-opacity") {
        Ok(ConfigAction::ClearOpacity)
    } else if is_word(value, "toggle-overview") {
        Ok(ConfigAction::ToggleOverview)
    } else if is_word(value, "select-overview") {
        Ok(ConfigAction::SelectOverview)
    } else if is_word(value, "reload-config") {
        Ok(ConfigAction::ReloadConfig)
    } else {
        Err(crate::keys::quoted_error("unknown action ", value))
    }
}

/// A chord of `key` with the Super modifier and, as flagged, Ctrl and Shift.
pub open spec fn super_chord(ctrl: bool, shift: bool, key: Key) -> KeyChord {
    KeyChord { ctrl, alt: false, shift, logo: true, key }
}

/// A binding of a Super chord.
pub open spec fn bound(ctrl: bool, shift: bool, key: Key, action: ActionView) -> BindingView {
    BindingView { chord: super_chord(ctrl, shift, key), action }
}

/// The bindings of an arrow key: focus, camera, move and resize.
pub open spec fn arrow_bindings(key: Key, d: Direction) -> Seq<BindingView> {
    seq![
        bound(false, false, key, ActionView::Focus(d)),
        bound(true, false, key, ActionView::Camera(d)),
        bound(false, true, key, ActionView::Move(d)),
        bound(true, true, key, ActionView::Resize(d)),
    ]
}

/// The bindings of a home-row letter: focus, camera, camera nudge and placement.
pub open spec fn letter_bindings(letter: char, d: Direction) -> Seq<BindingView> {
    seq![
        bound(false, false, Key::Letter(letter), ActionView::Focus(d)),
        bound(true, false, Key::Letter(letter), ActionView::Camera(d)),
        bound(true, true, Key::Letter(letter), ActionView::CameraNudge(d)),
        bound(false, true, Key::Letter(letter), ActionView::PlaceNext(d)),
    ]
}

/// The binary64 bits of the camera zoom bound to digit `n` (1 to 9 give
/// tenths, 0 gives the whole view).
pub open spec fn zoom_bits(digit: char) -> u64 {
    if digit == '1' {
        0x3FB9_9999_9999_999A
    } else if digit == '2' {
        0x3FC9_9999_9999_999A
    } else if digit == '3' {
        0x3FD3_3333_3333_3333
    } else if digit == '4' {
        0x3FD9_9999_9999_999A
    } else if digit == '5' {
        0x3FE0_0000_0000_0000
    } else if digit == '6' {
        0x3FE3_3333_3333_3333
    } else if digit == '7' {
        0x3FE6_6666_6666_6666
    } else if digit == '8' {
        0x3FE9_9999_9999_999A
    } else if digit == '9' {
        0x3FEC_CCCC_CCCC_CCCD
    } else {
        REAL_ONE
    }
}

/// The zoom binding of a digit.
pub open spec fn zoom_binding(digit: char) -> BindingView {
    bound(false, false, Key::Letter(digit), ActionView::CameraZoom(Number::Real(zoom_bits(digit))))
}

/// The bindings Mio starts with.
pub open spec fn default_bindings_view() -> Seq<BindingView> {
    arrow_bindings(Key::Left, Direction::Left) + arrow_bindings(Key::Right, Direction::Right)
        + arrow_bindings(Key::Up, Direction::Up) + arrow_bindings(Key::Down, Direction::Down)
        + seq![
        zoom_binding('1'),
        zoom_binding('2'),
        zoom_binding('3'),
        zoom_binding('4'),
        zoom_binding('5'),
        zoom_binding('6'),
        zoom_binding('7'),
        zoom_binding('8'),
        zoom_binding('9'),
        zoom_binding('0'),
    ] + letter_bindings('h', Direction::Left) + letter_bindings('l', Direction::Right)
        + letter_bindings('k', Direction::Up) + letter_bindings('j', Direction::Down) + seq![
        bound(false, false, Key::Letter('f'), ActionView::ToggleFloating),
        bound(false, false, Key::Letter('n'), ActionView::CycleOutput),
        bound(false, false, Key::Enter, ActionView::ToggleFullscreen),
        bound(false, false, Key::Letter('m'), ActionView::ToggleMaximized),
        bound(false, false, Key::Letter('z'), ActionView::ToggleWindowSize),
        bound(false, false, Key::Letter('q'), ActionView::Close),
        bound(false, false, Key::Letter('o'), ActionView::ToggleOpacity),
        bound(false, false, Key::Letter('b'), ActionView::ToggleBlur),
        bound(false, false, Key::Letter('w'), ActionView::ToggleCursorWake),
        bound(false, true, Key::Letter('o'), ActionView::ClearOpacity),
        bound(false, false, Key::Letter('v'), ActionView::ToggleOverview),
        bound(false, false, Key::Letter('s'), ActionView::SelectOverview),
        bound(false, false, Key::Letter('r'), ActionView::ReloadConfig),
    ]
}

fn push_bound(bindings: &mut Vec<KeyBinding>, ctrl: bool, shift: bool, key: Key, action: ConfigAction)
    ensures
        binding_views(final(bindings)@) == binding_views(old(bindings)@).push(bound(ctrl, shift, key, action@)),
{
    let chord = KeyChord { ctrl, alt: false, shift, logo: true, key };
    bindings.push(KeyBinding { chord, action });
    assert(binding_views(bindings@) =~= binding_views(old(bindings)@).push(bound(ctrl, shift, key, action@)));
}

fn push_arrow_bindings(bindings: &mut Vec<KeyBinding>, key: Key, d: Direction)
    ensures
        binding_views(final(bindings)@) == binding_views(old(bindings)@) + arrow_bindings(key, d),
{
    push_bound(bindings, false, false, key, ConfigAction::Focus(d));
    push_bound(bindings, true, false, key, ConfigAction::Camera(d));
    push_bound(bindings, false, true, key, ConfigAction::Move(d));
    push_bound(bindings, true, true, key, ConfigAction::Resize(d));
    assert(binding_views(bindings@) =~= binding_views(old(bindings)@) + arrow_bindings(key, d));
}

fn push_letter_bindings(bindings: &mut Vec<KeyBinding>, letter: char, d: Direction)
    ensures
        binding_views(final(bindings)@) == binding_views(old(bindings)@) + letter_bindings(letter, d),
{
    push_bound(bindings, false, false, Key::Letter(letter), ConfigAction::Focus(d));
    push_bound(bindings, true, false, Key::Letter(letter), ConfigAction::Camera(d));
    push_bound(bindings, true, true, Key::Letter(letter), ConfigAction::CameraNudge(d));
    push_bound(bindings, false, true, Key::Letter(letter), ConfigAction::PlaceNext(d));
    assert(binding_views(bindings@) =~= binding_views(old(bindings)@) + letter_bindings(letter, d));
}

fn push_zoom_binding(bindings: &mut Vec<KeyBinding>, digit: char, bits: u64)
    requires
        bits == zoom_bits(digit),
    ensures
        binding_views(final(bindings)@) == binding_views(old(bindings)@).push(zoom_binding(digit)),
{
    push_bound(bindings, false, false, Key::Letter(digit), ConfigAction::CameraZoom(Number::Real(bits)));
}

fn push_zoom_bindings(bindings: &mut Vec<KeyBinding>)
    ensures
        binding_views(final(bindings)@) == binding_views(old(bindings)@) + seq![
            zoom_binding('1'),
            zoom_binding('2'),
            zoom_binding('3'),
            zoom_binding('4'),
            zoom_binding('5'),
            zoom_binding('6'),
            zoom_binding('7'),
            zoom_binding('8'),
            zoom_binding('9'),
            zoom_binding('0'),
        ],
{
    push_zoom_binding(bindings, '1', 0x3FB9_9999_9999_999A);
    push_zoom_binding(bindings, '2', 0x3FC9_9999_9999_999A);
    push_zoom_binding(bindings, '3', 0x3FD3_3333_3333_3333);
    push_zoom_binding(bindings, '4', 0x3FD9_9999_9999_999A);
    push_zoom_binding(bindings, '5', 0x3FE0_0000_0000_0000);
    push_zoom_binding(bindings, '6', 0x3FE3_3333_3333_3333);
    push_zoom_binding(bindings, '7', 0x3FE6_6666_6666_6666);
    push_zoom_binding(bindings, '8', 0x3FE9_9999_9999_999A);
    push_zoom_binding(bindings, '9', 0x3FEC_CCCC_CCCC_CCCD);
    push_zoom_binding(bindings, '0', REAL_ONE);
    assert(binding_views(bindings@) =~= binding_views(old(bindings)@) + seq![
        zoom_binding('1'),
        zoom_binding('2'),
        zoom_binding('3'),
        zoom_binding('4'),
        zoom_binding('5'),
        zoom_binding('6'),
        zoom_binding('7'),
        zoom_binding('8'),
        zoom_binding('9'),
        zoom_binding('0'),
    ]);
}

fn push_single_bindings(bindings: &mut Vec<KeyBinding>)
    ensures
        binding_views(final(bindings)@) == binding_views(old(bindings)@) + seq![
            bound(false, false, Key::Letter('f'), ActionView::ToggleFloating),
            bound(false, false, Key::Letter('n'), ActionView::CycleOutput),
            bound(false, false, Key::Enter, ActionView::ToggleFullscreen),
            bound(false, false, Key::Letter('m'), ActionView::ToggleMaximized),
            bound(false, false, Key::Letter('z'), ActionView::ToggleWindowSize),
            bound(false, false, Key::Letter('q'), ActionView::Close),
            bound(false, false, Key::Letter('o'), ActionView::ToggleOpacity),
            bound(false, false, Key::Letter('b'), ActionView::ToggleBlur),
            bound(false, false, Key::Letter('w'), ActionView::ToggleCursorWake),
            bound(false, true, Key::Letter('o'), ActionView::ClearOpacity),
            bound(false, false, Key::Letter('v'), ActionView::ToggleOverview),
            bound(false, false, Key::Letter('s'), ActionView::SelectOverview),
            bound(false, false, Key::Letter('r'), ActionView::ReloadConfig),
        ],
{
    push_bound(bindings, false, false, Key::Letter('f'), ConfigAction::ToggleFloating);
    push_bound(bindings, false, false, Key::Letter('n'), ConfigAction::CycleOutput);
    push_bound(bindings, false, false, Key::Enter, ConfigAction::ToggleFullscreen);
    push_bound(bindings, false, false, Key::Letter('m'), ConfigAction::ToggleMaximized);
    push_bound(bindings, false, false, Key::Letter('z'), ConfigAction::ToggleWindowSize);
    push_bound(bindings, false, false, Key::Letter('q'), ConfigAction::Close);
    push_bound(bindings, false, false, Key::Letter('o'), ConfigAction::ToggleOpacity);
    push_bound(bindings, false, false, Key::Letter('b'), ConfigAction::ToggleBlur);
    push_bound(bindings, false, false, Key::Letter('w'), ConfigAction::ToggleCursorWake);
    push_bound(bindings, false, true, Key::Letter('o'), ConfigAction::ClearOpacity);
    push_bound(bindings, false, false, Key::Letter('v'), ConfigAction::ToggleOverview);
    push_bound(bindings, false, false, Key::Letter('s'), ConfigAction::SelectOverview);
    push_bound(bindings, false, false, Key::Letter('r'), ConfigAction::ReloadConfig);
    assert(binding_views(bindings@) =~= binding_views(old(bindings)@) + seq![
        bound(false, false, Key::Letter('f'), ActionView::ToggleFloating),
        bound(false, false, Key::Letter('n'), ActionView::CycleOutput),
        bound(false, false, Key::Enter, ActionView::ToggleFullscreen),
        bound(false, false, Key::Letter('m'), ActionView::ToggleMaximized),
        bound(false, false, Key::Letter('z'), ActionView::ToggleWindowSize),
        bound(false, false, Key::Letter('q'), ActionView::Close),
        bound(false, false, Key::Letter('o'), ActionView::ToggleOpacity),
        bound(false, false, Key::Letter('b'), ActionView::ToggleBlur),
        bound(false, false, Key::Letter('w'), ActionView::ToggleCursorWake),
        bound(false, true, Key::Letter('o'), ActionView::ClearOpacity),
        bound(false, false, Key::Letter('v'), ActionView::ToggleOverview),
        bound(false, false, Key::Letter('s'), ActionView::SelectOverview),
        bound(false, false, Key::Letter('r'), ActionView::ReloadConfig),
    ]);
}

/// The bindings Mio starts with: Super with the arrows or `H`/`J`/`K`/`L`
/// moves focus, the camera and windows; Super with a digit zooms the camera
/// to tenths of the view; Super with a letter toggles window states. A
/// one-character key name is the character's keysym, and libxkbcommon's
/// keysyms for printable ASCII characters are their code points, so each
/// letter key is the lowercase letter itself.
pub fn default_bindings() -> (bindings: Vec<KeyBinding>)
    ensures
        binding_views(bindings@) == default_bindings_view(),
{
    let mut bindings: Vec<KeyBinding> = Vec::new();
    assert(binding_views(bindings@) =~= Seq::<BindingView>::empty());
    push_arrow_bindings(&mut bindings, Key::Left, Direction::Left);
    push_arrow_bindings(&mut bindings, Key::Right, Direction::Right);
    push_arrow_bindings(&mut bindings, Key::Up, Direction::Up);
    push_arrow_bindings(&mut bindings, Key::Down, Direction::Down);
    push_zoom_bindings(&mut bindings);
    push_letter_bindings(&mut bindings, 'h', Direction::Left);
    push_letter_bindings(&mut bindings, 'l', Direction::Right);
    push_letter_bindings(&mut bindings, 'k', Direction::Up);
    push_letter_bindings(&mut bindings, 'j', Direction::Down);
    push_single_bindings(&mut bindings);
    assert(binding_views(bindings@) =~= default_bindings_view());
    bindings
}

/// The position a chord has among the built-in bindings (and `-1` for a
/// chord that is not built in); every built-in chord has its own.
pub open spec fn chord_index(c: KeyChord) -> int {
    let arrow = if !c.ctrl && !c.shift {
        0int
    } else if c.ctrl && !c.shift {
        1
    } else if !c.ctrl && c.shift {
        2
    } else {
        3
    };
    let letter = if !c.ctrl && !c.shift {
        0int
    } else if c.ctrl && !c.shift {
        1
    } else if c.ctrl && c.shift {
        2
    } else {
        3
    };
    if c.alt || !c.logo {
        -1
    } else {
        match c.key {
            Key::Left => arrow,
            Key::Right => 4 + arrow,
            Key::Up => 8 + arrow,
            Key::Down => 12 + arrow,
            Key::Enter => if !c.ctrl && !c.shift { 44 } else { -1 },
            Key::Symbol(_) => -1,
            Key::Letter(ch) => if ch == 'h' {
                26 + letter
            } else if ch == 'l' {
                30 + letter
            } else if ch == 'k' {
                34 + letter
            } else if ch == 'j' {
                38 + letter
            } else if c.ctrl {
                -1
            } else if ch == 'o' {
                if c.shift { 51 } else { 48 }
            } else if c.shift {
                -1
            } else if ch == '1' {
                16
            } else if ch == '2' {
                17
            } else if ch == '3' {
                18
            } else if ch == '4' {
                19
            } else if ch == '5' {
                20
            } else if ch == '6' {
                21
            } else if ch == '7' {
                22
            } else if ch == '8' {
                23
            } else if ch == '9' {
                24
            } else if ch == '0' {
                25
            } else if ch == 'f' {
                42
            } else if ch == 'n' {
                43
            } else if ch == 'm' {
                45
            } else if ch == 'z' {
                46
            } else if ch == 'q' {
                47
            } else if ch == 'b' {
                49
            } else if ch == 'w' {
                50
            } else if ch == 'v' {
                52
            } else if ch == 's' {
                53
            } else if ch == 'r' {
                54
            } else {
                -1
            },
        }
    }
}

/// The built-in bindings bind every chord at most once.
pub proof fn lemma_default_bindings_are_distinct()
    ensures
        forall|i: int, j: int|
            0 <= i < j < default_bindings_view().len() ==> default_bindings_view()[i].chord
                != default_bindings_view()[j].chord,
{
    let l = default_bindings_view();
    assert(l.len() == 55);
    assert forall|k: int| 0 <= k < 55 implies chord_index(#[trigger] l[k].chord) == k by {
        if k == 0 {
            assert(chord_index(l[0].chord) == 0);
        } else         if k == 1 {
            assert(chord_index(l[1].chord) == 1);
        } else         if k == 2 {
            assert(chord_index(l[2].chord) == 2);
        } else         if k == 3 {
            assert(chord_index(l[3].chord) == 3);
        } else         if k == 4 {
            assert(chord_index(l[4].chord) == 4);
        } else         if k == 5 {
            assert(chord_index(l[5].chord) == 5);
        } else         if k == 6 {
            assert(chord_index(l[6].chord) == 6);
        } else         if k == 7 {
            assert(chord_index(l[7].chord) == 7);
        } else         if k == 8 {
            assert(chord_index(l[8].chord) == 8);
        } else         if k == 9 {
            assert(chord_index(l[9].chord) == 9);
        } else         if k == 10 {
            assert(chord_index(l[10].chord) == 10);
        } else         if k == 11 {
            assert(chord_index(l[11].chord) == 11);
        } else         if k == 12 {
            assert(chord_index(l[12].chord) == 12);
        } else         if k == 13 {
            assert(chord_index(l[13].chord) == 13);
        } else         if k == 14 {
            assert(chord_index(l[14].chord) == 14);
        } else         if k == 15 {
            assert(chord_index(l[15].chord) == 15);
        } else         if k == 16 {
            assert(chord_index(l[16].chord) == 16);
        } else         if k == 17 {
            assert(chord_index(l[17].chord) == 17);
        } else         if k == 18 {
            assert(chord_index(l[18].chord) == 18);
        } else         if k == 19 {
            assert(chord_index(l[19].chord) == 19);
        } else         if k == 20 {
            assert(chord_index(l[20].chord) == 20);
        } else         if k == 21 {
            assert(chord_index(l[21].chord) == 21);
        } else         if k == 22 {
            assert(chord_index(l[22].chord) == 22);
        } else         if k == 23 {
            assert(chord_index(l[23].chord) == 23);
        } else         if k == 24 {
            assert(chord_index(l[24].chord) == 24);
        } else         if k == 25 {
            assert(chord_index(l[25].chord) == 25);
        } else         if k == 26 {
            assert(chord_index(l[26].chord) == 26);
        } else         if k == 27 {
            assert(chord_index(l[27].chord) == 27);
        } else         if k == 28 {
            assert(chord_index(l[28].chord) == 28);
        } else         if k == 29 {
            assert(chord_index(l[29].chord) == 29);
        } else         if k == 30 {
            assert(chord_index(l[30].chord) == 30);
        } else         if k == 31 {
            assert(chord_index(l[31].chord) == 31);
        } else         if k == 32 {
            assert(chord_index(l[32].chord) == 32);
        } else         if k == 33 {
            assert(chord_index(l[33].chord) == 33);
        } else         if k == 34 {
            assert(chord_index(l[34].chord) == 34);
        } else         if k == 35 {
            assert(chord_index(l[35].chord) == 35);
        } else         if k == 36 {
            assert(chord_index(l[36].chord) == 36);
        } else         if k == 37 {
            assert(chord_index(l[37].chord) == 37);
        } else         if k == 38 {
            assert(chord_index(l[38].chord) == 38);
        } else         if k == 39 {
            assert(chord_index(l[39].chord) == 39);
        } else         if k == 40 {
            assert(chord_index(l[40].chord) == 40);
        } else         if k == 41 {
            assert(chord_index(l[41].chord) == 41);
        } else         if k == 42 {
            assert(chord_index(l[42].chord) == 42);
        } else         if k == 43 {
            assert(chord_index(l[43].chord) == 43);
        } else         if k == 44 {
            assert(chord_index(l[44].chord) == 44);
        } else         if k == 45 {
            assert(chord_index(l[45].chord) == 45);
        } else         if k == 46 {
            assert(chord_index(l[46].chord) == 46);
        } else         if k == 47 {
            assert(chord_index(l[47].chord) == 47);
        } else         if k == 48 {
            assert(chord_index(l[48].chord) == 48);
        } else         if k == 49 {
            assert(chord_index(l[49].chord) == 49);
        } else         if k == 50 {
            assert(chord_index(l[50].chord) == 50);
        } else         if k == 51 {
            assert(chord_index(l[51].chord) == 51);
        } else         if k == 52 {
            assert(chord_index(l[52].chord) == 52);
        } else         if k == 53 {
            assert(chord_index(l[53].chord) == 53);
        } else         if k == 54 {
            assert(chord_index(l[54].chord) == 54);
        } else {
        }
    }
    assert forall|i: int, j: int| 0 <= i < j < l.len() implies l[i].chord != l[j].chord by {
        assert(chord_index(l[i].chord) == i);
        assert(chord_index(l[j].chord) == j);
    }
}

/// The arrow key of a direction.
pub open spec fn arrow_key(d: Direction) -> Key {
    match d {
        Direction::Left => Key::Left,
        Direction::Right => Key::Right,
        Direction::Up => Key::Up,
        Direction::Down => Key::Down,
    }
}

/// The home-row letter of a direction (`h j k l`).
pub open spec fn home_row_letter(d: Direction) -> char {
    match d {
        Direction::Left => 'h',
        Direction::Down => 'j',
        Direction::Up => 'k',
        Direction::Right => 'l',
    }
}

/// Whether the built-in bindings bind the Super chord with `ctrl` and
/// `shift` on `key` to `action`.
pub open spec fn binds(ctrl: bool, shift: bool, key: Key, action: ActionView) -> bool {
    exists|i: int|
        0 <= i < default_bindings_view().len() && #[trigger] default_bindings_view()[i] == bound(ctrl, shift, key, action)
}

/// The built-in bindings act in the direction of the key pressed:
/// Super+Arrow focuses that way, with Ctrl moves the camera, with Shift
/// moves the window and with both resizes it; Super+H/J/K/L focus, with
/// Ctrl move the camera, with both nudge it, and with Shift choose where
/// the next window goes.
pub proof fn lemma_default_bindings_follow_directions(d: Direction)
    ensures
        binds(false, false, arrow_key(d), ActionView::Focus(d)),
        binds(true, false, arrow_key(d), ActionView::Camera(d)),
        binds(false, true, arrow_key(d), ActionView::Move(d)),
        binds(true, true, arrow_key(d), ActionView::Resize(d)),
        binds(false, false, Key::Letter(home_row_letter(d)), ActionView::Focus(d)),
        binds(true, false, Key::Letter(home_row_letter(d)), ActionView::Camera(d)),
        binds(true, true, Key::Letter(home_row_letter(d)), ActionView::CameraNudge(d)),
        binds(false, true, Key::Letter(home_row_letter(d)), ActionView::PlaceNext(d)),
{
    let l = default_bindings_view();
    let a = match d {
        Direction::Left => 0int,
        Direction::Right => 4,
        Direction::Up => 8,
        Direction::Down => 12,
    };
    let h = match d {
        Direction::Left => 26int,
        Direction::Right => 30,
        Direction::Up => 34,
        Direction::Down => 38,
    };
    assert(l[a] == bound(false, false, arrow_key(d), ActionView::Focus(d)));
    assert(l[a + 1] == bound(true, false, arrow_key(d), ActionView::Camera(d)));
    assert(l[a + 2] == bound(false, true, arrow_key(d), ActionView::Move(d)));
    assert(l[a + 3] == bound(true, true, arrow_key(d), ActionView::Resize(d)));
    assert(l[h] == bound(false, false, Key::Letter(home_row_letter(d)), ActionView::Focus(d)));
    assert(l[h + 1] == bound(true, false, Key::Letter(home_row_letter(d)), ActionView::Camera(d)));
    assert(l[h + 2] == bound(true, true, Key::Letter(home_row_letter(d)), ActionView::CameraNudge(d)));
    assert(l[h + 3] == bound(false, true, Key::Letter(home_row_letter(d)), ActionView::PlaceNext(d)));
}


/// The word that names a direction.
pub open spec fn direction_word(d: Direction) -> Seq<char> {
    match d {
        Direction::Left => "left"@,
        Direction::Right => "right"@,
        Direction::Up => "up"@,
        Direction::Down => "down"@,
    }
}

proof fn lemma_direction_word_lengths(d: Direction)
    ensures
        2 <= direction_word(d).len() <= 5,
        direction_named(direction_word(d)) == Some(d),
        forall|w: Seq<char>| w.len() > 5 ==> #[trigger] direction_named(w) is None,
{
    reveal_strlit("left");
    reveal_strlit("right");
    reveal_strlit("up");
    reveal_strlit("down");
    assert("left"@.len() == 4 && "left"@[0] == 'l');
    assert("right"@.len() == 5);
    assert("up"@.len() == 2);
    assert("down"@.len() == 4 && "down"@[0] == 'd');
}

proof fn lemma_action_prefixes()
    ensures
        "focus-"@.len() == 6 && "focus-"@[0] == 'f',
        "camera-"@.len() == 7 && "camera-"@[0] == 'c' && "camera-"@[1] == 'a',
        "camera-nudge-"@.len() == 13 && "camera-nudge-"@.take(7) == "camera-"@,
        "camera-nudge-"@[0] == 'c' && "camera-nudge-"@[1] == 'a',
        "move-"@.len() == 5 && "move-"@[0] == 'm',
        "resize-"@.len() == 7 && "resize-"@[0] == 'r' && "resize-"@[2] == 's',
        "place-next-"@.len() == 11 && "place-next-"@[0] == 'p',
{
    reveal_strlit("focus-");
    reveal_strlit("camera-");
    reveal_strlit("camera-nudge-");
    reveal_strlit("move-");
    reveal_strlit("resize-");
    reveal_strlit("place-next-");
    assert("camera-nudge-"@.take(7) =~= "camera-"@);
}

proof fn lemma_prefix_reads_direction(p: Seq<char>, d: Direction)
    ensures
        direction_after(p + direction_word(d), p) == Some(d),
{
    lemma_direction_word_lengths(d);
    let v = p + direction_word(d);
    assert(v.take(p.len() as int) =~= p);
    assert(v.skip(p.len() as int) =~= direction_word(d));
}

proof fn lemma_other_first_char(v: Seq<char>, q: Seq<char>, i: int)
    requires
        0 <= i < q.len(),
        i < v.len(),
        v[i] != q[i],
    ensures
        direction_after(v, q) is None,
{
    if q.len() <= v.len() {
        assert(v.take(q.len() as int)[i] == v[i]);
    }
}

/// A directional action is written as its prefix and a direction word
/// (`focus-left`, `camera-nudge-up`, `place-next-down`), and names that
/// action in that direction.
pub proof fn lemma_directional_action_names(d: Direction)
    ensures
        action_named("focus-"@ + direction_word(d)) == Ok::<ActionView, Seq<char>>(ActionView::Focus(d)),
        action_named("camera-"@ + direction_word(d)) == Ok::<ActionView, Seq<char>>(ActionView::Camera(d)),
        action_named("camera-nudge-"@ + direction_word(d)) == Ok::<ActionView, Seq<char>>(
            ActionView::CameraNudge(d),
        ),
        action_named("move-"@ + direction_word(d)) == Ok::<ActionView, Seq<char>>(ActionView::Move(d)),
        action_named("resize-"@ + direction_word(d)) == Ok::<ActionView, Seq<char>>(ActionView::Resize(d)),
        action_named("place-next-"@ + direction_word(d)) == Ok::<ActionView, Seq<char>>(
            ActionView::PlaceNext(d),
        ),
{
    lemma_action_prefixes();
    lemma_direction_word_lengths(d);
    let w = direction_word(d);
    let focus = "focus-"@;
    let camera = "camera-"@;
    let nudge = "camera-nudge-"@;
    let mv = "move-"@;
    let resize = "resize-"@;
    let place = "place-next-"@;
    lemma_prefix_reads_direction(focus, d);
    lemma_prefix_reads_direction(camera, d);
    lemma_prefix_reads_direction(nudge, d);
    lemma_prefix_reads_direction(mv, d);
    lemma_prefix_reads_direction(resize, d);
    lemma_prefix_reads_direction(place, d);

    let vc = camera + w;
    lemma_other_first_char(vc, focus, 0);

    let vn = nudge + w;
    assert(vn[0] == nudge[0] && vn[1] == nudge[1]);
    assert(nudge[0] == 'c' && nudge[1] == 'a') by {
        assert(nudge.take(7)[0] == camera[0]);
        assert(nudge.take(7)[1] == camera[1]);
    }
    lemma_other_first_char(vn, focus, 0);
    assert(vn.take(7) =~= camera) by {
        assert forall|i: int| 0 <= i < 7 implies vn.take(7)[i] == camera[i] by {
            assert(nudge.take(7)[i] == camera[i]);
        }
    }
    assert(direction_named(vn.skip(7)) is None) by {
        assert(vn.skip(7).len() > 5);
    }
    assert(direction_after(vn, camera) is None);

    let vm = mv + w;
    assert(vm[0] == 'm');
    lemma_other_first_char(vm, focus, 0);
    lemma_other_first_char(vm, camera, 0);
    lemma_other_first_char(vm, nudge, 0);

    let vr = resize + w;
    assert(vr[0] == 'r');
    lemma_other_first_char(vr, focus, 0);
    lemma_other_first_char(vr, camera, 0);
    lemma_other_first_char(vr, nudge, 0);
    lemma_other_first_char(vr, mv, 0);

    let vp = place + w;
    assert(vp[0] == 'p');
    lemma_other_first_char(vp, focus, 0);
    lemma_other_first_char(vp, camera, 0);
    lemma_other_first_char(vp, nudge, 0);
    lemma_other_first_char(vp, mv, 0);
    lemma_other_first_char(vp, resize, 0);
}


proof fn lemma_not_directional(v: Seq<char>)
    requires
        v.len() >= 3,
        (v[0] != 'f' && v[0] != 'c' && v[0] != 'm' && v[0] != 'r' && v[0] != 'p') || (v[0] == 'c' && v[1]
            != 'a') || (v[0] == 'r' && v[2] != 's'),
    ensures
        direction_after(v, "focus-"@) is None,
        direction_after(v, "camera-"@) is None,
        direction_after(v, "camera-nudge-"@) is None,
        direction_after(v, "move-"@) is None,
        direction_after(v, "resize-"@) is None,
        direction_after(v, "place-next-"@) is None,
{
    lemma_action_prefixes();
    lemma_other_first_char(v, "focus-"@, 0);
    lemma_other_first_char(v, "move-"@, 0);
    lemma_other_first_char(v, "place-next-"@, 0);
    if v[0] == 'c' {
        lemma_other_first_char(v, "camera-"@, 1);
        lemma_other_first_char(v, "camera-nudge-"@, 1);
    } else {
        lemma_other_first_char(v, "camera-"@, 0);
        lemma_other_first_char(v, "camera-nudge-"@, 0);
    }
    if v[0] == 'r' {
        lemma_other_first_char(v, "resize-"@, 2);
    } else {
        lemma_other_first_char(v, "resize-"@, 0);
    }
}

proof fn lemma_action_words()
    ensures
        "close"@.len() == 5 && "close"@[0] == 'c' && "close"@[1] == 'l',
        "cycle-output"@.len() == 12 && "cycle-output"@[0] == 'c' && "cycle-output"@[1] == 'y',
        "toggle-floating"@.len() == 15 && "toggle-floating"@[0] == 't' && "toggle-floating"@[7] == 'f',
        "toggle-fullscreen"@.len() == 17 && "toggle-fullscreen"@[0] == 't',
        "toggle-maximized"@.len() == 16 && "toggle-maximized"@[0] == 't',
        "toggle-window-size"@.len() == 18 && "toggle-window-size"@[0] == 't' && "toggle-window-size"@[7] == 'w',
        "toggle-opacity"@.len() == 14 && "toggle-opacity"@[0] == 't',
        "toggle-blur"@.len() == 11 && "toggle-blur"@[0] == 't',
        "toggle-cursor-wake"@.len() == 18 && "toggle-cursor-wake"@[0] == 't' && "toggle-cursor-wake"@[7] == 'c',
        "clear-opacity"@.len() == 13 && "clear-opacity"@[0] == 'c' && "clear-opacity"@[1] == 'l',
        "toggle-overview"@.len() == 15 && "toggle-overview"@[0] == 't' && "toggle-overview"@[7] == 'o',
        "select-overview"@.len() == 15 && "select-overview"@[0] == 's',
        "reload-config"@.len() == 13 && "reload-config"@[0] == 'r' && "reload-config"@[2] == 'l',
{
    reveal_strlit("close");
    reveal_strlit("cycle-output");
    reveal_strlit("toggle-floating");
    reveal_strlit("toggle-fullscreen");
    reveal_strlit("toggle-maximized");
    reveal_strlit("toggle-window-size");
    reveal_strlit("toggle-opacity");
    reveal_strlit("toggle-blur");
    reveal_strlit("toggle-cursor-wake");
    reveal_strlit("clear-opacity");
    reveal_strlit("toggle-overview");
    reveal_strlit("select-overview");
    reveal_strlit("reload-config");
}

/// Each plain action name names its own action.
pub proof fn lemma_action_names()
    ensures
        action_named("close"@) == Ok::<ActionView, Seq<char>>(ActionView::Close),
        action_named("cycle-output"@) == Ok::<ActionView, Seq<char>>(ActionView::CycleOutput),
        action_named("toggle-floating"@) == Ok::<ActionView, Seq<char>>(ActionView::ToggleFloating),
        action_named("toggle-fullscreen"@) == Ok::<ActionView, Seq<char>>(ActionView::ToggleFullscreen),
        action_named("toggle-maximized"@) == Ok::<ActionView, Seq<char>>(ActionView::ToggleMaximized),
        action_named("toggle-window-size"@) == Ok::<ActionView, Seq<char>>(ActionView::ToggleWindowSize),
        action_named("toggle-opacity"@) == Ok::<ActionView, Seq<char>>(ActionView::ToggleOpacity),
        action_named("toggle-blur"@) == Ok::<ActionView, Seq<char>>(ActionView::ToggleBlur),
        action_named("toggle-cursor-wake"@) == Ok::<ActionView, Seq<char>>(ActionView::ToggleCursorWake),
        action_named("clear-opacity"@) == Ok::<ActionView, Seq<char>>(ActionView::ClearOpacity),
        action_named("toggle-overview"@) == Ok::<ActionView, Seq<char>>(ActionView::ToggleOverview),
        action_named("select-overview"@) == Ok::<ActionView, Seq<char>>(ActionView::SelectOverview),
        action_named("reload-config"@) == Ok::<ActionView, Seq<char>>(ActionView::ReloadConfig),
{
    lemma_action_words();
    lemma_not_directional("close"@);
    lemma_not_directional("cycle-output"@);
    lemma_not_directional("toggle-floating"@);
    lemma_not_directional("toggle-fullscreen"@);
    lemma_not_directional("toggle-maximized"@);
    lemma_not_directional("toggle-window-size"@);
    lemma_not_directional("toggle-opacity"@);
    lemma_not_directional("toggle-blur"@);
    lemma_not_directional("toggle-cursor-wake"@);
    lemma_not_directional("clear-opacity"@);
    lemma_not_directional("toggle-overview"@);
    lemma_not_directional("select-overview"@);
    lemma_not_directional("reload-config"@);
}

} // verus!
