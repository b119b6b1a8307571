//! Keys and key chords as the configuration names them. Key names are looked
//! up in libxkbcommon's keysym tables by the caller; this module decides which
//! lookup a name needs and what key the answer denotes.

use vstd::prelude::*;

use crate::config_error::ConfigError;
use crate::text::{ascii_lower, ascii_lower_seq, is_word};

verus! {

/// Whether `u` is a Unicode scalar value, i.e. a valid `char`.
pub open spec fn is_scalar(u: u32) -> bool {
    u <= 0x10FFFF && !(0xD800 <= u && u <= 0xDFFF)
}

/// `char::from_u32`: the character with code point `u`, if `u` is a scalar value.
#[verifier::external_body]
pub(crate) fn char_from_code(u: u32) -> (c: Option<char>)
    ensures
        is_scalar(u) ==> c == Some(u as char),
        !is_scalar(u) ==> c is None,
{
    char::from_u32(u)
}

/// The keysyms of the keys that the configuration names directly.
pub const KEYSYM_RETURN: u32 = 0xff0d;

pub const KEYSYM_LEFT: u32 = 0xff51;

pub const KEYSYM_UP: u32 = 0xff52;

pub const KEYSYM_RIGHT: u32 = 0xff53;

pub const KEYSYM_DOWN: u32 = 0xff54;

/// A key of a binding.
#[derive(Clone, Copy, Debug, PartialEq, Eq, Hash, Structural)]
pub enum Key {
    Left,
    Right,
    Up,
    Down,
    Enter,
    /// A key that types a character, by its lowercase form.
    Letter(char),
    /// Any other key, by its raw keysym.
    Symbol(u32),
}

/// A key with the modifiers that must be held.
#[derive(Clone, Copy, Debug, PartialEq, Eq, Hash, Structural)]
pub struct KeyChord {
    pub ctrl: bool,
    pub alt: bool,
    pub shift: bool,
    pub logo: bool,
    pub key: Key,
}

/// The key of a raw keysym whose character (per `xkb_keysym_to_utf32`) is
/// `unicode`: the arrows and Return by name, keysyms that type a character as
/// that (lowercased) character, everything else by keysym.
pub open spec fn key_of_keysym(raw: u32, unicode: u32) -> Key {
    if raw == KEYSYM_LEFT {
        Key::Left
    } else if raw == KEYSYM_RIGHT {
        Key::Right
    } else if raw == KEYSYM_UP {
        Key::Up
    } else if raw == KEYSYM_DOWN {
        Key::Down
    } else if raw == KEYSYM_RETURN {
        Key::Enter
    } else {
        if unicode != 0 && is_scalar(unicode) {
            Key::Letter(ascii_lower(unicode as char))
        } else {
            Key::Symbol(raw)
        }
    }
}

/// The key of a raw keysym whose character is `unicode` (zero for none).
pub fn key_from_keysym_raw(raw: u32, unicode: u32) -> (key: Key)
    ensures
        key == key_of_keysym(raw, unicode),
{
    if raw == KEYSYM_LEFT {
        Key::Left
    } else if raw == KEYSYM_RIGHT {
        Key::Right
    } else if raw == KEYSYM_UP {
        Key::Up
    } else if raw == KEYSYM_DOWN {
        Key::Down
    } else if raw == KEYSYM_RETURN {
        Key::Enter
    } else {
        if unicode != 0 {
            match char_from_code(unicode) {
                Some(c) => Key::Letter(crate::text::lower_char(c)),
                None => Key::Symbol(raw),
            }
        } else {
            Key::Symbol(raw)
        }
    }
}

/// The xkb name that a common key alias stands for; other names are kept.
pub open spec fn key_alias(value: Seq<char>) -> Seq<char> {
    let lower = ascii_lower_seq(value);
    if lower == "esc"@ {
        "Escape"@
    } else if lower == "spacebar"@ {
        "space"@
    } else if lower == "printscreen"@ || lower == "prtsc"@ || lower == "prtscr"@ {
        "Print"@
    } else if lower == "pageup"@ || lower == "pgup"@ {
        "Page_Up"@
    } else if lower == "pagedown"@ || lower == "pgdown"@ || lower == "pgdn"@ {
        "Page_Down"@
    } else if lower == "backspace"@ {
        "BackSpace"@
    } else if lower == "capslock"@ {
        "Caps_Lock"@
    } else if lower == "numlock"@ {
        "Num_Lock"@
    } else if lower == "scrolllock"@ {
        "Scroll_Lock"@
    } else {
        value
    }
}

/// `text` between backticks, as error messages quote names.
pub open spec fn quoted(before: Seq<char>, text: Seq<char>) -> Seq<char> {
    before + "`"@ + text + "`"@
}

/// The keysym-table lookup that a key name calls for.
pub enum KeyLookup {
    /// The key is known without a lookup.
    Direct(Key),
    /// A one-character name: the keysym of this (ASCII-lowercased) code point.
    CodePoint(u32),
    /// Any other name: the keysym named by this xkb name (an alias resolved),
    /// first exactly and then ignoring case.
    ByName(String),
    /// The name cannot be looked up.
    Rejected(ConfigError),
}

/// The lookup a key name calls for, with `Err` for a rejected name.
pub open spec fn lookup_for(value: Seq<char>) -> Result<KeyLookupPlan, Seq<char>> {
    let lower = ascii_lower_seq(value);
    if lower == "left"@ {
        Ok(KeyLookupPlan::Direct(Key::Left))
    } else if lower == "right"@ {
        Ok(KeyLookupPlan::Direct(Key::Right))
    } else if lower == "up"@ {
        Ok(KeyLookupPlan::Direct(Key::Up))
    } else if lower == "down"@ {
        Ok(KeyLookupPlan::Direct(Key::Down))
    } else if lower == "enter"@ || lower == "return"@ {
        Ok(KeyLookupPlan::Direct(Key::Enter))
    } else if value.len() == 1 {
        Ok(KeyLookupPlan::CodePoint(ascii_lower(value[0]) as u32))
    } else if value.contains('\0') {
        Err("key name cannot contain NUL"@)
    } else {
        Ok(KeyLookupPlan::ByName(key_alias(value)))
    }
}

/// The mathematical form of a [`KeyLookup`].
pub enum KeyLookupPlan {
    Direct(Key),
    CodePoint(u32),
    ByName(Seq<char>),
}

/// Whether `lookup` is the lookup that `value` calls for.
pub open spec fn is_lookup_for(lookup: KeyLookup, value: Seq<char>) -> bool {
    match (lookup_for(value), lookup) {
        (Ok(KeyLookupPlan::Direct(k)), KeyLookup::Direct(l)) => k == l,
        (Ok(KeyLookupPlan::CodePoint(c)), KeyLookup::CodePoint(d)) => c == d,
        (Ok(KeyLookupPlan::ByName(n)), KeyLookup::ByName(m)) => n == m@,
        (Err(message), KeyLookup::Rejected(e)) => e.0@ == message,
        _ => false,
    }
}

/// The key that a name denotes once its keysym lookup has been answered with
/// `keysym` (zero when the table has none) and that keysym's character
/// `unicode`: a name no table knows is unsupported.
pub open spec fn key_from_answer(value: Seq<char>, keysym: u32, unicode: u32) -> Result<Key, Seq<char>> {
    match lookup_for(value) {
        Err(message) => Err(message),
        Ok(KeyLookupPlan::Direct(k)) => Ok(k),
        Ok(KeyLookupPlan::CodePoint(_)) => Ok(key_of_keysym(keysym, unicode)),
        Ok(KeyLookupPlan::ByName(_)) => if keysym == 0 {
            Err(quoted("unsupported key "@, value))
        } else {
            Ok(key_of_keysym(keysym, unicode))
        },
    }
}

/// An error whose message is `before`, then `text` in backticks.
pub fn quoted_error(before: &str, text: &Vec<char>) -> (error: ConfigError)
    ensures
        error.0@ == quoted(before@, text@),
{
    let mut message = crate::text::owned(before);
    crate::text::push_char(&mut message, '`');
    crate::text::push_chars(&mut message, text);
    crate::text::push_char(&mut message, '`');
    proof {
        reveal_strlit("`");
        assert(message@ =~= quoted(before@, text@));
    }
    ConfigError(message)
}

fn contains_char(s: &Vec<char>, c: char) -> (r: bool)
    ensures
        r == s@.contains(c),
{
    let mut i: usize = 0;
    while i < s.len()
        invariant
            i <= s.len(),
            forall|j: int| 0 <= j < i ==> s@[j] != c,
        decreases s.len() - i,
    {
        if s[i] == c {
            return true;
        }
        i = i + 1;
    }
    false
}

/// The xkb name that a common key alias stands for.
fn alias_of(value: &Vec<char>) -> (name: Vec<char>)
    ensures
        name@ == key_alias(value@),
{
    let lower = crate::text::lower_chars(value);
    if is_word(&lower, "esc") {
        crate::text::chars_of("Escape")
    } else if is_word(&lower, "spacebar") {
        crate::text::chars_of("space")
    } else if is_word(&lower, "printscreen") || is_word(&lower, "prtsc") || is_word(&lower, "prtscr") {
        crate::text::chars_of("Print")
    } else if is_word(&lower, "pageup") || is_word(&lower, "pgup") {
        crate::text::chars_of("Page_Up")
    } else if is_word(&lower, "pagedown") || is_word(&lower, "pgdown") || is_word(&lower, "pgdn") {
        crate::text::chars_of("Page_Down")
    } else if is_word(&lower, "backspace") {
        crate::text::chars_of("BackSpace")
    } else if is_word(&lower, "capslock") {
        crate::text::chars_of("Caps_Lock")
    } else if is_word(&lower, "numlock") {
        crate::text::chars_of("Num_Lock")
    } else if is_word(&lower, "scrolllock") {
        crate::text::chars_of("Scroll_Lock")
    } else {
        value.clone()
    }
}

/// The keysym-table lookup that the key name `value` calls for.
pub fn key_lookup(value: &Vec<char>) -> (lookup: KeyLookup)
    ensures
        is_lookup_for(lookup, value@),
{
    let lower = crate::text::lower_chars(value);
    if is_word(&lower, "left") {
        KeyLookup::Direct(Key::Left)
    } else if is_word(&lower, "right") {
        KeyLookup::Direct(Key::Right)
    } else if is_word(&lower, "up") {
        KeyLookup::Direct(Key::Up)
    } else if is_word(&lower, "down") {
        KeyLookup::Direct(Key::Down)
    } else if is_word(&lower, "enter") || is_word(&lower, "return") {
        KeyLookup::Direct(Key::Enter)
    } else if value.len() == 1 {
        let c = crate::text::lower_char(value[0]);
        KeyLookup::CodePoint(c as u32)
    } else if contains_char(value, '\0') {
        KeyLookup::Rejected(ConfigError::from_str("key name cannot contain NUL"))
    } else {
        KeyLookup::ByName(crate::text::string_of(&alias_of(value)))
    }
}

/// The key that `value` denotes, given the answer to its lookup: `keysym` is
/// what the keysym table returned (zero for none) and `unicode` is the
/// character of that keysym (zero for none).
pub fn key_from_lookup_answer(value: &Vec<char>, keysym: u32, unicode: u32) -> (key: Result<Key, ConfigError>)
    ensures
        match key_from_answer(value@, keysym, unicode) {
            Ok(k) => key == Ok::<Key, ConfigError>(k),
            Err(message) => key matches Err(e) && e.0@ == message,
        },
{
    match key_lookup(value) {
        KeyLookup::Rejected(e) => Err(e),
        KeyLookup::Direct(k) => Ok(k),
        KeyLookup::CodePoint(_) => Ok(key_from_keysym_raw(keysym, unicode)),
        KeyLookup::ByName(_) => if keysym == 0 {
            Err(quoted_error("unsupported key ", value))
        } else {
            Ok(key_from_keysym_raw(keysym, unicode))
        },
    }
}

/// `s` cut at every `sep`, as `str::split` cuts it: `n` separators give
/// `n + 1` pieces, some of them possibly empty.
pub open spec fn split_on(s: Seq<char>, sep: char) -> Seq<Seq<char>>
    decreases s.len(),
{
    if s.len() == 0 {
        seq![Seq::<char>::empty()]
    } else {
        let prev = split_on(s.drop_last(), sep);
        if s.last() == sep {
            prev.push(Seq::<char>::empty())
        } else {
            prev.update(prev.len() - 1, prev.last().push(s.last()))
        }
    }
}

pub proof fn lemma_split_nonempty(s: Seq<char>, sep: char)
    ensures
        split_on(s, sep).len() >= 1,
    decreases s.len(),
{
    if s.len() > 0 {
        lemma_split_nonempty(s.drop_last(), sep);
    }
}

/// The pieces of `s` between the separators `sep`.
pub fn split_chars(s: &Vec<char>, sep: char) -> (pieces: Vec<Vec<char>>)
    ensures
        pieces@.map_values(|p: Vec<char>| p@) == split_on(s@, sep),
{
    let mut pieces: Vec<Vec<char>> = Vec::new();
    let mut current: Vec<char> = Vec::new();
    let mut i: usize = 0;
    while i < s.len()
        invariant
            i <= s.len(),
            pieces@.map_values(|p: Vec<char>| p@).push(current@) == split_on(s@.take(i as int), sep),
        decreases s.len() - i,
    {
        let ghost before = pieces@.map_values(|p: Vec<char>| p@).push(current@);
        proof {
            assert(s@.take(i as int + 1).drop_last() == s@.take(i as int));
            assert(s@.take(i as int + 1).last() == s@[i as int]);
            lemma_split_nonempty(s@.take(i as int), sep);
        }
        if s[i] == sep {
            let done = current;
            pieces.push(done);
            current = Vec::new();
            assert(pieces@.map_values(|p: Vec<char>| p@).push(current@) =~= before.push(Seq::<char>::empty()));
        } else {
            current.push(s[i]);
            assert(pieces@.map_values(|p: Vec<char>| p@).push(current@) =~= before.update(
                before.len() - 1,
                before.last().push(s@[i as int]),
            ));
        }
        i = i + 1;
    }
    assert(s@.take(s.len() as int) == s@);
    let last = current;
    pieces.push(last);
    assert(pieces@.map_values(|p: Vec<char>| p@) =~= split_on(s@, sep));
    pieces
}

/// `chord` with the modifier named `modifier` added.
pub open spec fn with_modifier(modifier: Seq<char>, chord: KeyChord) -> Result<KeyChord, Seq<char>> {
    let lower = ascii_lower_seq(modifier);
    if lower == "ctrl"@ || lower == "control"@ {
        Ok(KeyChord { ctrl: true, ..chord })
    } else if lower == "alt"@ {
        Ok(KeyChord { alt: true, ..chord })
    } else if lower == "shift"@ {
        Ok(KeyChord { shift: true, ..chord })
    } else if lower == "super"@ || lower == "logo"@ {
        Ok(KeyChord { logo: true, ..chord })
    } else {
        Err(quoted("unknown modifier "@, modifier))
    }
}

/// `chord` with all `modifiers` added in order; the first unknown one fails.
pub open spec fn with_modifiers(modifiers: Seq<Seq<char>>, chord: KeyChord) -> Result<KeyChord, Seq<char>>
    decreases modifiers.len(),
{
    if modifiers.len() == 0 {
        Ok(chord)
    } else {
        match with_modifiers(modifiers.drop_last(), chord) {
            Err(e) => Err(e),
            Ok(c) => with_modifier(modifiers.last(), c),
        }
    }
}

proof fn lemma_modifier_error_persists(mods: Seq<Seq<char>>, chord: KeyChord, n: int)
    requires
        0 <= n <= mods.len(),
        with_modifiers(mods.take(n), chord) is Err,
    ensures
        with_modifiers(mods, chord) == with_modifiers(mods.take(n), chord),
    decreases mods.len() - n,
{
    if n < mods.len() {
        assert(mods.take(n + 1).drop_last() == mods.take(n));
        lemma_modifier_error_persists(mods, chord, n + 1);
    } else {
        assert(mods.take(n) == mods);
    }
}

/// Whether one of `modifiers` is, ignoring ASCII case, `name` or `alias`.
pub open spec fn writes_modifier(modifiers: Seq<Seq<char>>, name: Seq<char>, alias: Seq<char>) -> bool {
    exists|i: int|
        0 <= i < modifiers.len() && (ascii_lower_seq(#[trigger] modifiers[i]) == name || ascii_lower_seq(
            modifiers[i],
        ) == alias)
}

proof fn lemma_modifier_words()
    ensures
        "ctrl"@.len() == 4 && "ctrl"@[0] == 'c',
        "control"@.len() == 7,
        "alt"@.len() == 3,
        "shift"@.len() == 5 && "shift"@[1] == 'h',
        "super"@.len() == 5 && "super"@[1] == 'u',
        "logo"@.len() == 4 && "logo"@[0] == 'l',
{
    reveal_strlit("ctrl");
    reveal_strlit("control");
    reveal_strlit("alt");
    reveal_strlit("shift");
    reveal_strlit("super");
    reveal_strlit("logo");
}

/// Writing modifiers sets exactly their flags: after reading `modifiers`
/// onto `chord`, Ctrl is held exactly when it was or `ctrl`/`control` is
/// written, Alt when `alt` is, Shift when `shift` is, and Super when
/// `super`/`logo` is (in any case); the key stays.
pub proof fn lemma_modifiers_set_their_flags(modifiers: Seq<Seq<char>>, chord: KeyChord)
    requires
        with_modifiers(modifiers, chord) is Ok,
    ensures
        ({
            let r = with_modifiers(modifiers, chord)->Ok_0;
            &&& r.key == chord.key
            &&& r.ctrl == (chord.ctrl || writes_modifier(modifiers, "ctrl"@, "control"@))
            &&& r.alt == (chord.alt || writes_modifier(modifiers, "alt"@, "alt"@))
            &&& r.shift == (chord.shift || writes_modifier(modifiers, "shift"@, "shift"@))
            &&& r.logo == (chord.logo || writes_modifier(modifiers, "super"@, "logo"@))
        }),
    decreases modifiers.len(),
{
    lemma_modifier_words();
    if modifiers.len() > 0 {
        let init = modifiers.drop_last();
        let last = modifiers.last();
        lemma_modifiers_set_their_flags(init, chord);
        assert forall|a: Seq<char>, b: Seq<char>| #[trigger] writes_modifier(modifiers, a, b) == (writes_modifier(init, a, b)
            || ascii_lower_seq(last) == a || ascii_lower_seq(last) == b) by {
            if writes_modifier(init, a, b) {
                let i = choose|i: int| 0 <= i < init.len() && (ascii_lower_seq(#[trigger] init[i]) == a || ascii_lower_seq(init[i]) == b);
                assert(modifiers[i] == init[i]);
            }
            if ascii_lower_seq(last) == a || ascii_lower_seq(last) == b {
                assert(modifiers[modifiers.len() - 1] == last);
            }
            if writes_modifier(modifiers, a, b) {
                let i = choose|i: int| 0 <= i < modifiers.len() && (ascii_lower_seq(#[trigger] modifiers[i]) == a || ascii_lower_seq(modifiers[i]) == b);
                if i < modifiers.len() - 1 {
                    assert(init[i] == modifiers[i]);
                }
            }
        }
    } else {
        assert(!writes_modifier(modifiers, "ctrl"@, "control"@));
        assert(!writes_modifier(modifiers, "alt"@, "alt"@));
        assert(!writes_modifier(modifiers, "shift"@, "shift"@));
        assert(!writes_modifier(modifiers, "super"@, "logo"@));
    }
}

/// Whether `m` names a modifier: `ctrl`, `control`, `alt`, `shift`, `super`
/// or `logo`, in any case.
pub open spec fn names_modifier(m: Seq<char>) -> bool {
    let lower = ascii_lower_seq(m);
    lower == "ctrl"@ || lower == "control"@ || lower == "alt"@ || lower == "shift"@ || lower == "super"@
        || lower == "logo"@
}

/// Modifiers are read exactly when each of them names a modifier; any
/// other word before the key is refused.
pub proof fn lemma_modifiers_accepted_iff_named(modifiers: Seq<Seq<char>>, chord: KeyChord)
    ensures
        with_modifiers(modifiers, chord) is Ok <==> forall|i: int|
            0 <= i < modifiers.len() ==> names_modifier(#[trigger] modifiers[i]),
    decreases modifiers.len(),
{
    if modifiers.len() > 0 {
        let init = modifiers.drop_last();
        lemma_modifiers_accepted_iff_named(init, chord);
        if forall|i: int| 0 <= i < modifiers.len() ==> names_modifier(#[trigger] modifiers[i]) {
            assert forall|i: int| 0 <= i < init.len() implies names_modifier(#[trigger] init[i]) by {
                assert(init[i] == modifiers[i]);
            }
            assert(names_modifier(modifiers[modifiers.len() - 1]));
        } else {
            let k = choose|i: int| 0 <= i < modifiers.len() && !names_modifier(#[trigger] modifiers[i]);
            if k < modifiers.len() - 1 {
                assert(init[k] == modifiers[k]);
            }
        }
    }
}

/// The chord `Ctrl+Super+H` (any modifiers, any case) holds exactly the
/// modifiers it writes: the flags of a chord read from `value` are those of
/// the modifiers before its key name.
pub proof fn lemma_chord_holds_written_modifiers(value: Seq<char>, key: Key)
    requires
        chord_named(value, Ok(key)) is Ok,
    ensures
        ({
            let mods = split_on(value, '+').drop_last();
            let c = chord_named(value, Ok(key))->Ok_0;
            &&& c.key == key
            &&& c.ctrl == writes_modifier(mods, "ctrl"@, "control"@)
            &&& c.alt == writes_modifier(mods, "alt"@, "alt"@)
            &&& c.shift == writes_modifier(mods, "shift"@, "shift"@)
            &&& c.logo == writes_modifier(mods, "super"@, "logo"@)
        }),
{
    lemma_modifiers_set_their_flags(
        split_on(value, '+').drop_last(),
        KeyChord { ctrl: false, alt: false, shift: false, logo: false, key },
    );
}

proof fn lemma_key_name_words()
    ensures
        "left"@.len() == 4 && "left"@[0] == 'l' && "left"@[1] == 'e' && "left"@[2] == 'f' && "left"@[3] == 't',
        "right"@.len() == 5 && "right"@[0] == 'r' && "right"@[1] == 'i' && "right"@[2] == 'g' && "right"@[3] == 'h' && "right"@[4] == 't',
        "up"@.len() == 2 && "up"@[0] == 'u' && "up"@[1] == 'p',
        "down"@.len() == 4 && "down"@[0] == 'd' && "down"@[1] == 'o' && "down"@[2] == 'w' && "down"@[3] == 'n',
        "enter"@.len() == 5 && "enter"@[0] == 'e' && "enter"@[1] == 'n' && "enter"@[2] == 't' && "enter"@[3] == 'e' && "enter"@[4] == 'r',
        "return"@.len() == 6 && "return"@[0] == 'r' && "return"@[1] == 'e' && "return"@[2] == 't' && "return"@[3] == 'u' && "return"@[4] == 'r' && "return"@[5] == 'n',
        "esc"@.len() == 3 && "esc"@[0] == 'e' && "esc"@[1] == 's' && "esc"@[2] == 'c',
        "spacebar"@.len() == 8 && "spacebar"@[0] == 's' && "spacebar"@[1] == 'p' && "spacebar"@[2] == 'a' && "spacebar"@[3] == 'c' && "spacebar"@[4] == 'e' && "spacebar"@[5] == 'b' && "spacebar"@[6] == 'a' && "spacebar"@[7] == 'r',
        "printscreen"@.len() == 11 && "printscreen"@[0] == 'p' && "printscreen"@[1] == 'r' && "printscreen"@[2] == 'i' && "printscreen"@[3] == 'n' && "printscreen"@[4] == 't' && "printscreen"@[5] == 's' && "printscreen"@[6] == 'c' && "printscreen"@[7] == 'r' && "printscreen"@[8] == 'e' && "printscreen"@[9] == 'e' && "printscreen"@[10] == 'n',
        "prtsc"@.len() == 5 && "prtsc"@[0] == 'p' && "prtsc"@[1] == 'r' && "prtsc"@[2] == 't' && "prtsc"@[3] == 's' && "prtsc"@[4] == 'c',
        "prtscr"@.len() == 6 && "prtscr"@[0] == 'p' && "prtscr"@[1] == 'r' && "prtscr"@[2] == 't' && "prtscr"@[3] == 's' && "prtscr"@[4] == 'c' && "prtscr"@[5] == 'r',
        "pageup"@.len() == 6 && "pageup"@[0] == 'p' && "pageup"@[1] == 'a' && "pageup"@[2] == 'g' && "pageup"@[3] == 'e' && "pageup"@[4] == 'u' && "pageup"@[5] == 'p',
        "pgup"@.len() == 4 && "pgup"@[0] == 'p' && "pgup"@[1] == 'g' && "pgup"@[2] == 'u' && "pgup"@[3] == 'p',
        "pagedown"@.len() == 8 && "pagedown"@[0] == 'p' && "pagedown"@[1] == 'a' && "pagedown"@[2] == 'g' && "pagedown"@[3] == 'e' && "pagedown"@[4] == 'd' && "pagedown"@[5] == 'o' && "pagedown"@[6] == 'w' && "pagedown"@[7] == 'n',
        "pgdown"@.len() == 6 && "pgdown"@[0] == 'p' && "pgdown"@[1] == 'g' && "pgdown"@[2] == 'd' && "pgdown"@[3] == 'o' && "pgdown"@[4] == 'w' && "pgdown"@[5] == 'n',
        "pgdn"@.len() == 4 && "pgdn"@[0] == 'p' && "pgdn"@[1] == 'g' && "pgdn"@[2] == 'd' && "pgdn"@[3] == 'n',
        "backspace"@.len() == 9 && "backspace"@[0] == 'b' && "backspace"@[1] == 'a' && "backspace"@[2] == 'c' && "backspace"@[3] == 'k' && "backspace"@[4] == 's' && "backspace"@[5] == 'p' && "backspace"@[6] == 'a' && "backspace"@[7] == 'c' && "backspace"@[8] == 'e',
        "capslock"@.len() == 8 && "capslock"@[0] == 'c' && "capslock"@[1] == 'a' && "capslock"@[2] == 'p' && "capslock"@[3] == 's' && "capslock"@[4] == 'l' && "capslock"@[5] == 'o' && "capslock"@[6] == 'c' && "capslock"@[7] == 'k',
        "numlock"@.len() == 7 && "numlock"@[0] == 'n' && "numlock"@[1] == 'u' && "numlock"@[2] == 'm' && "numlock"@[3] == 'l' && "numlock"@[4] == 'o' && "numlock"@[5] == 'c' && "numlock"@[6] == 'k',
        "scrolllock"@.len() == 10 && "scrolllock"@[0] == 's' && "scrolllock"@[1] == 'c' && "scrolllock"@[2] == 'r' && "scrolllock"@[3] == 'o' && "scrolllock"@[4] == 'l' && "scrolllock"@[5] == 'l' && "scrolllock"@[6] == 'l' && "scrolllock"@[7] == 'o' && "scrolllock"@[8] == 'c' && "scrolllock"@[9] == 'k',
        "Escape"@.len() == 6 && "Escape"@[0] == 'E' && "Escape"@[1] == 's' && "Escape"@[2] == 'c' && "Escape"@[3] == 'a' && "Escape"@[4] == 'p' && "Escape"@[5] == 'e',
        "space"@.len() == 5 && "space"@[0] == 's' && "space"@[1] == 'p' && "space"@[2] == 'a' && "space"@[3] == 'c' && "space"@[4] == 'e',
        "Print"@.len() == 5 && "Print"@[0] == 'P' && "Print"@[1] == 'r' && "Print"@[2] == 'i' && "Print"@[3] == 'n' && "Print"@[4] == 't',
        "Page_Up"@.len() == 7 && "Page_Up"@[0] == 'P' && "Page_Up"@[1] == 'a' && "Page_Up"@[2] == 'g' && "Page_Up"@[3] == 'e' && "Page_Up"@[4] == '_' && "Page_Up"@[5] == 'U' && "Page_Up"@[6] == 'p',
        "Page_Down"@.len() == 9 && "Page_Down"@[0] == 'P' && "Page_Down"@[1] == 'a' && "Page_Down"@[2] == 'g' && "Page_Down"@[3] == 'e' && "Page_Down"@[4] == '_' && "Page_Down"@[5] == 'D' && "Page_Down"@[6] == 'o' && "Page_Down"@[7] == 'w' && "Page_Down"@[8] == 'n',
        "BackSpace"@.len() == 9 && "BackSpace"@[0] == 'B' && "BackSpace"@[1] == 'a' && "BackSpace"@[2] == 'c' && "BackSpace"@[3] == 'k' && "BackSpace"@[4] == 'S' && "BackSpace"@[5] == 'p' && "BackSpace"@[6] == 'a' && "BackSpace"@[7] == 'c' && "BackSpace"@[8] == 'e',
        "Caps_Lock"@.len() == 9 && "Caps_Lock"@[0] == 'C' && "Caps_Lock"@[1] == 'a' && "Caps_Lock"@[2] == 'p' && "Caps_Lock"@[3] == 's' && "Caps_Lock"@[4] == '_' && "Caps_Lock"@[5] == 'L' && "Caps_Lock"@[6] == 'o' && "Caps_Lock"@[7] == 'c' && "Caps_Lock"@[8] == 'k',
        "Num_Lock"@.len() == 8 && "Num_Lock"@[0] == 'N' && "Num_Lock"@[1] == 'u' && "Num_Lock"@[2] == 'm' && "Num_Lock"@[3] == '_' && "Num_Lock"@[4] == 'L' && "Num_Lock"@[5] == 'o' && "Num_Lock"@[6] == 'c' && "Num_Lock"@[7] == 'k',
        "Scroll_Lock"@.len() == 11 && "Scroll_Lock"@[0] == 'S' && "Scroll_Lock"@[1] == 'c' && "Scroll_Lock"@[2] == 'r' && "Scroll_Lock"@[3] == 'o' && "Scroll_Lock"@[4] == 'l' && "Scroll_Lock"@[5] == 'l' && "Scroll_Lock"@[6] == '_' && "Scroll_Lock"@[7] == 'L' && "Scroll_Lock"@[8] == 'o' && "Scroll_Lock"@[9] == 'c' && "Scroll_Lock"@[10] == 'k',
{
    reveal_strlit("left");
    reveal_strlit("right");
    reveal_strlit("up");
    reveal_strlit("down");
    reveal_strlit("enter");
    reveal_strlit("return");
    reveal_strlit("esc");
    reveal_strlit("spacebar");
    reveal_strlit("printscreen");
    reveal_strlit("prtsc");
    reveal_strlit("prtscr");
    reveal_strlit("pageup");
    reveal_strlit("pgup");
    reveal_strlit("pagedown");
    reveal_strlit("pgdown");
    reveal_strlit("pgdn");
    reveal_strlit("backspace");
    reveal_strlit("capslock");
    reveal_strlit("numlock");
    reveal_strlit("scrolllock");
    reveal_strlit("Escape");
    reveal_strlit("space");
    reveal_strlit("Print");
    reveal_strlit("Page_Up");
    reveal_strlit("Page_Down");
    reveal_strlit("BackSpace");
    reveal_strlit("Caps_Lock");
    reveal_strlit("Num_Lock");
    reveal_strlit("Scroll_Lock");
}

/// The common key aliases, written in any case, are looked up under their
/// xkb names: `Esc` as `Escape`, `SpaceBar` as `space`, `PrtSc`, `PrtScr`
/// and `PrintScreen` as `Print`, `PgUp` and `PageUp` as `Page_Up`, `PgDn`,
/// `PgDown` and `PageDown` as `Page_Down`, and so on.
pub proof fn lemma_key_aliases(a: Seq<char>)
    ensures
        ascii_lower_seq(a) == "esc"@ ==> lookup_for(a) == Ok::<KeyLookupPlan, Seq<char>>(KeyLookupPlan::ByName("Escape"@)),
        ascii_lower_seq(a) == "spacebar"@ ==> lookup_for(a) == Ok::<KeyLookupPlan, Seq<char>>(KeyLookupPlan::ByName("space"@)),
        ascii_lower_seq(a) == "printscreen"@ || ascii_lower_seq(a) == "prtsc"@ || ascii_lower_seq(a) == "prtscr"@ ==> lookup_for(a) == Ok::<KeyLookupPlan, Seq<char>>(KeyLookupPlan::ByName("Print"@)),
        ascii_lower_seq(a) == "pageup"@ || ascii_lower_seq(a) == "pgup"@ ==> lookup_for(a) == Ok::<KeyLookupPlan, Seq<char>>(KeyLookupPlan::ByName("Page_Up"@)),
        ascii_lower_seq(a) == "pagedown"@ || ascii_lower_seq(a) == "pgdown"@ || ascii_lower_seq(a) == "pgdn"@ ==> lookup_for(a) == Ok::<KeyLookupPlan, Seq<char>>(KeyLookupPlan::ByName("Page_Down"@)),
        ascii_lower_seq(a) == "backspace"@ ==> lookup_for(a) == Ok::<KeyLookupPlan, Seq<char>>(KeyLookupPlan::ByName("BackSpace"@)),
        ascii_lower_seq(a) == "capslock"@ ==> lookup_for(a) == Ok::<KeyLookupPlan, Seq<char>>(KeyLookupPlan::ByName("Caps_Lock"@)),
        ascii_lower_seq(a) == "numlock"@ ==> lookup_for(a) == Ok::<KeyLookupPlan, Seq<char>>(KeyLookupPlan::ByName("Num_Lock"@)),
        ascii_lower_seq(a) == "scrolllock"@ ==> lookup_for(a) == Ok::<KeyLookupPlan, Seq<char>>(KeyLookupPlan::ByName("Scroll_Lock"@)),
{
    lemma_key_name_words();
    let lower = ascii_lower_seq(a);
    assert(lower.len() == a.len());
    if a.contains('\0') {
        let i = choose|i: int| 0 <= i < a.len() && a[i] == '\0';
        assert(lower[i] == '\0');
        assert(lower.contains('\0'));
    }
}

/// The xkb names that aliases stand for are looked up as themselves.
pub proof fn lemma_alias_targets()
    ensures
        lookup_for("Escape"@) == Ok::<KeyLookupPlan, Seq<char>>(KeyLookupPlan::ByName("Escape"@)),
        lookup_for("space"@) == Ok::<KeyLookupPlan, Seq<char>>(KeyLookupPlan::ByName("space"@)),
        lookup_for("Print"@) == Ok::<KeyLookupPlan, Seq<char>>(KeyLookupPlan::ByName("Print"@)),
        lookup_for("Page_Up"@) == Ok::<KeyLookupPlan, Seq<char>>(KeyLookupPlan::ByName("Page_Up"@)),
        lookup_for("Page_Down"@) == Ok::<KeyLookupPlan, Seq<char>>(KeyLookupPlan::ByName("Page_Down"@)),
        lookup_for("BackSpace"@) == Ok::<KeyLookupPlan, Seq<char>>(KeyLookupPlan::ByName("BackSpace"@)),
        lookup_for("Caps_Lock"@) == Ok::<KeyLookupPlan, Seq<char>>(KeyLookupPlan::ByName("Caps_Lock"@)),
        lookup_for("Num_Lock"@) == Ok::<KeyLookupPlan, Seq<char>>(KeyLookupPlan::ByName("Num_Lock"@)),
        lookup_for("Scroll_Lock"@) == Ok::<KeyLookupPlan, Seq<char>>(KeyLookupPlan::ByName("Scroll_Lock"@)),
{
    lemma_key_name_words();
    assert(ascii_lower_seq("Escape"@).len() == 6);
    assert(ascii_lower_seq("Escape"@)[0] == 'e');
    assert(ascii_lower_seq("Escape"@)[1] == 's');
    assert(!"Escape"@.contains('\0'));
    assert(ascii_lower_seq("space"@).len() == 5);
    assert(ascii_lower_seq("space"@)[0] == 's');
    assert(ascii_lower_seq("space"@)[1] == 'p');
    assert(!"space"@.contains('\0'));
    assert(ascii_lower_seq("Print"@).len() == 5);
    assert(ascii_lower_seq("Print"@)[0] == 'p');
    assert(ascii_lower_seq("Print"@)[1] == 'r');
    assert(!"Print"@.contains('\0'));
    assert(ascii_lower_seq("Page_Up"@).len() == 7);
    assert(ascii_lower_seq("Page_Up"@)[0] == 'p');
    assert(ascii_lower_seq("Page_Up"@)[1] == 'a');
    assert(!"Page_Up"@.contains('\0'));
    assert(ascii_lower_seq("Page_Down"@).len() == 9);
    assert(ascii_lower_seq("Page_Down"@)[0] == 'p');
    assert(ascii_lower_seq("Page_Down"@)[1] == 'a');
    assert(!"Page_Down"@.contains('\0'));
    assert(ascii_lower_seq("BackSpace"@).len() == 9);
    assert(ascii_lower_seq("BackSpace"@)[0] == 'b');
    assert(ascii_lower_seq("BackSpace"@)[1] == 'a');
    assert(!"BackSpace"@.contains('\0'));
    assert(ascii_lower_seq("Caps_Lock"@).len() == 9);
    assert(ascii_lower_seq("Caps_Lock"@)[0] == 'c');
    assert(ascii_lower_seq("Caps_Lock"@)[1] == 'a');
    assert(!"Caps_Lock"@.contains('\0'));
    assert(ascii_lower_seq("Num_Lock"@).len() == 8);
    assert(ascii_lower_seq("Num_Lock"@)[0] == 'n');
    assert(ascii_lower_seq("Num_Lock"@)[1] == 'u');
    assert(!"Num_Lock"@.contains('\0'));
    assert(ascii_lower_seq("Scroll_Lock"@).len() == 11);
    assert(ascii_lower_seq("Scroll_Lock"@)[0] == 's');
    assert(ascii_lower_seq("Scroll_Lock"@)[1] == 'c');
    assert(!"Scroll_Lock"@.contains('\0'));
}

/// The key name of a chord: the text after its last `+`.
pub open spec fn chord_key_name(value: Seq<char>) -> Seq<char> {
    split_on(value, '+').last()
}

/// The chord that `value` (`Mod+Mod+Key`) names, when its key name resolved
/// to `key`. The key is resolved first, then the modifiers from left to right.
pub open spec fn chord_named(value: Seq<char>, key: Result<Key, Seq<char>>) -> Result<KeyChord, Seq<char>> {
    let parts = split_on(value, '+');
    match key {
        Err(e) => Err(e),
        Ok(key) => with_modifiers(
            parts.drop_last(),
            KeyChord { ctrl: false, alt: false, shift: false, logo: false, key },
        ),
    }
}

fn add_modifier(modifier: &Vec<char>, chord: KeyChord) -> (r: Result<KeyChord, ConfigError>)
    ensures
        match with_modifier(modifier@, chord) {
            Ok(c) => r == Ok::<KeyChord, ConfigError>(c),
            Err(message) => r matches Err(e) && e.0@ == message,
        },
{
    let lower = crate::text::lower_chars(modifier);
    if is_word(&lower, "ctrl") || is_word(&lower, "control") {
        Ok(KeyChord { ctrl: true, ..chord })
    } else if is_word(&lower, "alt") {
        Ok(KeyChord { alt: true, ..chord })
    } else if is_word(&lower, "shift") {
        Ok(KeyChord { shift: true, ..chord })
    } else if is_word(&lower, "super") || is_word(&lower, "logo") {
        Ok(KeyChord { logo: true, ..chord })
    } else {
        Err(quoted_error("unknown modifier ", modifier))
    }
}

/// The key name of the chord `value`: its text after the last `+`.
pub fn key_name_of_chord(value: &str) -> (name: Vec<char>)
    ensures
        name@ == chord_key_name(value@),
{
    let chars = crate::text::chars_of(value);
    let mut parts = split_chars(&chars, '+');
    proof {
        lemma_split_nonempty(value@, '+');
        assert(parts@.map_values(|p: Vec<char>| p@).last() == parts@.last()@);
    }
    parts.pop().unwrap()
}

impl KeyChord {
    /// Parses a chord written as modifiers and a key joined by `+`, such as
    /// `Super+Shift+H`, given the resolution `key` of its key name (see
    /// [`key_name_of_chord`] and [`key_from_lookup_answer`]). Modifier names
    /// ignore ASCII case.
    pub fn from_str(value: &str, key: Result<Key, ConfigError>) -> (chord: Result<KeyChord, ConfigError>)
        ensures
            match chord_named(
                value@,
                match key {
                    Ok(k) => Ok::<Key, Seq<char>>(k),
                    Err(e) => Err::<Key, Seq<char>>(e.0@),
                },
            ) {
                Ok(c) => chord == Ok::<KeyChord, ConfigError>(c),
                Err(message) => chord matches Err(e) && e.0@ == message,
            },
    {
        let chars = crate::text::chars_of(value);
        let parts = split_chars(&chars, '+');
        let ghost views = parts@.map_values(|p: Vec<char>| p@);
        proof {
            lemma_split_nonempty(value@, '+');
        }
        let last = parts.len() - 1;
        let ghost given = key;
        let resolved = key?;
        let mut chord = KeyChord { ctrl: false, alt: false, shift: false, logo: false, key: resolved };
        let ghost start = chord;
        let mut i: usize = 0;
        while i < last
            invariant
                i <= last,
                last == parts@.len() - 1,
                views == parts@.map_values(|p: Vec<char>| p@),
                views == split_on(value@, '+'),
                start == (KeyChord { ctrl: false, alt: false, shift: false, logo: false, key: start.key }),
                start.key == resolved,
                given == key,
                given == Ok::<Key, ConfigError>(resolved),
                with_modifiers(views.take(i as int), start) == Ok::<KeyChord, Seq<char>>(chord),
            decreases last - i,
        {
            assert(views.take(i as int + 1).drop_last() == views.take(i as int));
            assert(views.take(i as int + 1).last() == parts@[i as int]@);
            match add_modifier(&parts[i], chord) {
                Ok(c) => chord = c,
                Err(e) => {
                    proof {
                        lemma_modifier_error_persists(views.drop_last(), start, i as int + 1);
                        assert(views.drop_last().take(i as int + 1) == views.take(i as int + 1));
                        assert(chord_named(value@, Ok::<Key, Seq<char>>(start.key)) == with_modifiers(views.drop_last(), start));
                        assert(given matches Ok(k) && k == start.key);
                    }
                    return Err(e);
                },
            }
            i = i + 1;
        }
        assert(views.take(last as int) == views.drop_last());
        Ok(chord)
    }
}

} // verus!
