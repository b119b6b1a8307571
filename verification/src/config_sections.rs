//! The blocks of the configuration: output, appearance, effects, mouse and
//! window rules, and the colors they name.

use vstd::prelude::*;

use crate::config::{default_appearance, Appearance, Color, Effects, OutputConfig, WindowRule, WindowRuleView};
use crate::config_doc::{
    about, argument, bool_first, fold_steps, i32_at, lemma_fold_all, lemma_fold_error, lemma_fold_next,
    number_at, optional_string_property, property, string_at, text_of, ticked, u32_first, u64_at,
    u64_property, Head, HeadView, Node, NodeView, Number, Value, ValueView,
};
use crate::config_error::ConfigError;
use crate::effects::WindowTransitionEffect;
use crate::keys::quoted;
use crate::mouse::{mouse_violation, MouseButton, MouseConfig};
use crate::text::{append_chars, append_str, ascii_lower_seq, is_word};

verus! {

/// The value of an ASCII hexadecimal digit.
pub open spec fn hex_digit(b: u8) -> Option<u8> {
    if 0x30 <= b <= 0x39 {
        Some((b - 0x30) as u8)
    } else if 0x61 <= b <= 0x66 {
        Some((b - 0x61 + 10) as u8)
    } else if 0x41 <= b <= 0x46 {
        Some((b - 0x41 + 10) as u8)
    } else {
        None
    }
}

/// A color channel written as the two bytes `x y` in base 16, as
/// `u8::from_str_radix` reads them: two digits, or `+` and one digit.
pub open spec fn hex_channel(x: u8, y: u8) -> Option<u8> {
    match (hex_digit(x), hex_digit(y)) {
        (Some(a), Some(b)) => Some((16 * a + b) as u8),
        (None, Some(b)) => if x == 0x2B {
            Some(b)
        } else {
            None
        },
        _ => None,
    }
}

/// The color that the UTF-8 text `bytes` writes as `#RRGGBB` or `#RRGGBBAA`;
/// without an alpha channel the color is opaque.
pub open spec fn color_of(bytes: Seq<u8>) -> Result<Color, Seq<char>> {
    if bytes.len() == 0 || bytes[0] != 0x23 {
        Err("color must start with #"@)
    } else {
        let hex = bytes.skip(1);
        if hex.len() != 6 && hex.len() != 8 {
            Err("color must use #RRGGBB or #RRGGBBAA"@)
        } else {
            match hex_channel(hex[0], hex[1]) {
                None => Err("invalid red color channel"@),
                Some(red) => match hex_channel(hex[2], hex[3]) {
                    None => Err("invalid green color channel"@),
                    Some(green) => match hex_channel(hex[4], hex[5]) {
                        None => Err("invalid blue color channel"@),
                        Some(blue) => if hex.len() == 8 {
                            match hex_channel(hex[6], hex[7]) {
                                None => Err("invalid alpha color channel"@),
                                Some(alpha) => Ok(Color { red, green, blue, alpha }),
                            }
                        } else {
                            Ok(Color { red, green, blue, alpha: 255 })
                        },
                    },
                },
            }
        }
    }
}

/// Hex digits are read in base 16 whatever their case: `0`–`9` are 0–9,
/// and `A`–`F` and `a`–`f` alike are 10–15; no other byte is a digit, and
/// no digit is worth 16 or more.
pub proof fn lemma_hex_digits_are_base_16()
    ensures
        forall|k: u8| k < 10 ==> #[trigger] hex_digit((0x30 + k) as u8) == Some(k),
        forall|k: u8| k < 6 ==> #[trigger] hex_digit((0x41 + k) as u8) == Some((10 + k) as u8),
        forall|k: u8| k < 6 ==> #[trigger] hex_digit((0x61 + k) as u8) == Some((10 + k) as u8),
        forall|k: u8| k < 6 ==> hex_digit((0x41 + k) as u8) == #[trigger] hex_digit((0x61 + k) as u8),
        forall|b: u8|
            #[trigger] hex_digit(b) is Some ==> (0x30 <= b <= 0x39 || 0x41 <= b <= 0x46 || 0x61 <= b <= 0x66)
                && hex_digit(b)->Some_0 < 16,
{
}

/// A channel of two hex digits is worth sixteen times the first plus the
/// second, so `FF` is 255 and `00` is 0 in either case.
pub proof fn lemma_two_digit_channels(x: u8, y: u8)
    requires
        hex_digit(x) is Some,
        hex_digit(y) is Some,
    ensures
        hex_channel(x, y) == Some((16 * hex_digit(x)->Some_0 + hex_digit(y)->Some_0) as u8),
        hex_channel(0x46, 0x46) == Some(255u8),
        hex_channel(0x66, 0x66) == Some(255u8),
        hex_channel(0x30, 0x30) == Some(0u8),
{
}

/// A color written without alpha is the same color written with alpha
/// `ff`: `#RRGGBB` is opaque.
pub proof fn lemma_missing_alpha_is_opaque(bytes: Seq<u8>)
    requires
        bytes.len() == 7,
    ensures
        color_of(bytes.push(0x66).push(0x66)) == color_of(bytes),
        color_of(bytes.push(0x46).push(0x46)) == color_of(bytes),
{
    lemma_hex_digits_are_base_16();
    let lower = bytes.push(0x66).push(0x66);
    let upper = bytes.push(0x46).push(0x46);
    assert(lower.skip(1) =~= bytes.skip(1).push(0x66).push(0x66));
    assert(upper.skip(1) =~= bytes.skip(1).push(0x46).push(0x46));
    assert(hex_digit(0x66) == Some(15u8));
    assert(hex_digit(0x46) == Some(15u8));
}

/// A channel may also be written as `+` and one digit, as
/// `u8::from_str_radix` reads a sign; any other pair that is not two digits
/// is no channel. A color is read only from `#` and six or eight more bytes.
pub proof fn lemma_channel_and_color_shapes(x: u8, y: u8, bytes: Seq<u8>)
    ensures
        x == 0x2B && hex_digit(y) is Some ==> hex_channel(x, y) == hex_digit(y),
        hex_digit(x) is None && x != 0x2B ==> hex_channel(x, y) is None,
        hex_digit(y) is None ==> hex_channel(x, y) is None,
        color_of(bytes) is Ok ==> bytes[0] == 0x23 && (bytes.len() == 7 || bytes.len() == 9),
{
}

/// The value of two hex digits, the first worth sixteen times its digit.
pub open spec fn two_digits(x: u8, y: u8) -> int {
    16 * hex_digit(x)->Some_0 + hex_digit(y)->Some_0
}

/// A color written in hex digits takes its channels in the order written:
/// red from the first pair after `#`, then green, then blue, then alpha
/// (255 when there is no fourth pair).
pub proof fn lemma_channels_in_written_order(bytes: Seq<u8>)
    requires
        bytes.len() == 7 || bytes.len() == 9,
        bytes[0] == 0x23,
        forall|i: int| 1 <= i < bytes.len() ==> #[trigger] hex_digit(bytes[i]) is Some,
    ensures
        color_of(bytes) matches Ok(c) && {
            &&& c.red == two_digits(bytes[1], bytes[2])
            &&& c.green == two_digits(bytes[3], bytes[4])
            &&& c.blue == two_digits(bytes[5], bytes[6])
            &&& c.alpha == if bytes.len() == 9 {
                two_digits(bytes[7], bytes[8])
            } else {
                255
            }
        },
{
    lemma_hex_digits_are_base_16();
    let hex = bytes.skip(1);
    assert forall|i: int| 0 <= i < hex.len() implies hex_digit(#[trigger] hex[i]) is Some && hex_digit(hex[i])->Some_0 < 16 by {
        assert(hex[i] == bytes[i + 1]);
        assert(hex_digit(bytes[i + 1]) is Some);
    }
    assert(hex[0] == bytes[1] && hex[1] == bytes[2] && hex[2] == bytes[3] && hex[3] == bytes[4]);
    assert(hex[4] == bytes[5] && hex[5] == bytes[6]);
    if bytes.len() == 9 {
        assert(hex[6] == bytes[7] && hex[7] == bytes[8]);
    }
}

/// Mouse buttons are named `left`, `right` and `middle`, in any case.
pub proof fn lemma_mouse_button_names(head: HeadView, index: int)
    ensures
        string_at(head, index) matches Ok(s) && ascii_lower_seq(s) == "left"@ ==> mouse_button_at(head, index)
            == Ok::<MouseButton, Seq<char>>(MouseButton::Left),
        string_at(head, index) matches Ok(s) && ascii_lower_seq(s) == "right"@ ==> mouse_button_at(head, index)
            == Ok::<MouseButton, Seq<char>>(MouseButton::Right),
        string_at(head, index) matches Ok(s) && ascii_lower_seq(s) == "middle"@ ==> mouse_button_at(head, index)
            == Ok::<MouseButton, Seq<char>>(MouseButton::Middle),
{
    reveal_strlit("left");
    reveal_strlit("right");
    reveal_strlit("middle");
    assert("left"@.len() == 4);
    assert("right"@.len() == 5);
    assert("middle"@.len() == 6);
}

fn hex_digit_of(b: u8) -> (d: Option<u8>)
    ensures
        d == hex_digit(b),
{
    if 0x30 <= b && b <= 0x39 {
        Some(b - 0x30)
    } else if 0x61 <= b && b <= 0x66 {
        Some(b - 0x61 + 10)
    } else if 0x41 <= b && b <= 0x46 {
        Some(b - 0x41 + 10)
    } else {
        None
    }
}

fn hex_channel_of(x: u8, y: u8) -> (c: Option<u8>)
    ensures
        c == hex_channel(x, y),
{
    match (hex_digit_of(x), hex_digit_of(y)) {
        (Some(a), Some(b)) => Some(16 * a + b),
        (None, Some(b)) => if x == 0x2B {
            Some(b)
        } else {
            None
        },
        _ => None,
    }
}

/// Reads a color written as `#RRGGBB` or `#RRGGBBAA`. A channel is read from
/// two bytes of the text; one that does not hold two hexadecimal digits (or
/// `+` and one digit) is invalid.
pub fn parse_color(value: &str) -> (color: Result<Color, ConfigError>)
    ensures
        match color_of(vstd::utf8::encode_utf8(value@)) {
            Ok(c) => color == Ok::<Color, ConfigError>(c),
            Err(m) => color matches Err(e) && e.0@ == m,
        },
{
    let bytes = value.as_bytes();
    let ghost all = vstd::utf8::encode_utf8(value@);
    assert(bytes@ == all);
    if bytes.len() == 0 || bytes[0] != 0x23 {
        return Err(ConfigError::from_str("color must start with #"));
    }
    let n = bytes.len() - 1;
    if n != 6 && n != 8 {
        return Err(ConfigError::from_str("color must use #RRGGBB or #RRGGBBAA"));
    }
    let red = match hex_channel_of(bytes[1], bytes[2]) {
        Some(c) => c,
        None => return Err(ConfigError::from_str("invalid red color channel")),
    };
    let green = match hex_channel_of(bytes[3], bytes[4]) {
        Some(c) => c,
        None => return Err(ConfigError::from_str("invalid green color channel")),
    };
    let blue = match hex_channel_of(bytes[5], bytes[6]) {
        Some(c) => c,
        None => return Err(ConfigError::from_str("invalid blue color channel")),
    };
    let alpha = if n == 8 {
        match hex_channel_of(bytes[7], bytes[8]) {
            Some(c) => c,
            None => return Err(ConfigError::from_str("invalid alpha color channel")),
        }
    } else {
        255
    };
    Ok(Color { red, green, blue, alpha })
}

/// The color written as the first positional string of a node.
pub open spec fn color_first(head: HeadView) -> Result<Color, Seq<char>> {
    match string_at(head, 0) {
        Err(e) => Err(e),
        Ok(s) => color_of(vstd::utf8::encode_utf8(s)),
    }
}

fn color_first_of(head: &Head) -> (r: Result<Color, ConfigError>)
    ensures
        match color_first(head@) {
            Ok(c) => r == Ok::<Color, ConfigError>(c),
            Err(m) => r matches Err(e) && e.0@ == m,
        },
{
    let s = head.string_at(0)?;
    parse_color(s.as_str())
}

/// The error for a node without a block of children.
pub open spec fn missing_block(head: HeadView) -> Seq<char> {
    about(head, " requires a child block"@)
}

// ---------------------------------------------------------------- output

/// The output settings after one option, with whether `scale` was seen.
pub open spec fn output_option(state: (OutputConfig, bool), child: HeadView) -> Result<(OutputConfig, bool), Seq<char>> {
    if child.name == "scale"@ {
        if state.1 {
            Err("duplicate output option `scale`"@)
        } else {
            match number_at(child, 0) {
                Err(e) => Err(e),
                Ok(n) => Ok((OutputConfig { scale: n }, true)),
            }
        }
    } else {
        Err(quoted("unknown output option "@, child.name))
    }
}

/// [`output_option`] as a step of a walk.
pub open spec fn output_step() -> spec_fn((OutputConfig, bool), HeadView) -> Result<(OutputConfig, bool), Seq<char>> {
    |s: (OutputConfig, bool), c: HeadView| output_option(s, c)
}

/// The output block: exactly one `scale`.
pub open spec fn output_section(node: NodeView, output: OutputConfig) -> Result<OutputConfig, Seq<char>> {
    if !node.head.has_children {
        Err(missing_block(node.head))
    } else {
        match fold_steps(node.children, (output, false), output_step()) {
            Err(e) => Err(e),
            Ok((o, saw)) => if saw {
                Ok(o)
            } else {
                Err("`output` requires `scale`"@)
            },
        }
    }
}

fn name_chars(head: &Head) -> (v: Vec<char>)
    ensures
        v@ == head@.name,
{
    crate::text::chars_of(head.name.as_str())
}

/// Reads an `output` block into `output`.
pub fn parse_output(node: &Node, output: &mut OutputConfig) -> (r: Result<(), ConfigError>)
    ensures
        match output_section(node@, *old(output)) {
            Ok(o) => r is Ok && *final(output) == o,
            Err(m) => r matches Err(e) && e.0@ == m,
        },
{
    if !node.head.has_children {
        return Err(node.head.error(" requires a child block"));
    }
    let ghost children = node@.children;
    let ghost step = output_step();
    let ghost start = (*output, false);
    let mut saw = false;
    let mut i: usize = 0;
    while i < node.children.len()
        invariant
            i <= node.children.len(),
            children == node@.children,
            children.len() == node.children.len(),
            step == output_step(),
            start == (*old(output), false),
            node.head.has_children,
            fold_steps(children.take(i as int), start, step) == Ok::<(OutputConfig, bool), Seq<char>>((*output, saw)),
        decreases node.children.len() - i,
    {
        proof {
            lemma_fold_next(children, start, step, i as int);
        }
        let child = &node.children[i];
        assert(children[i as int] == child@);
        if child.is_named("scale") {
            if saw {
                proof {
                    lemma_fold_error(children, start, step, i as int + 1);

                }
                return Err(ConfigError::from_str("duplicate output option `scale`"));
            }
            match child.number_at(0) {
                Ok(n) => {
                    output.scale = n;
                    saw = true;
                },
                Err(e) => {
                    proof {
                        lemma_fold_error(children, start, step, i as int + 1);
                    }
                    return Err(e);
                },
            }
        } else {
            proof {
                lemma_fold_error(children, start, step, i as int + 1);
            }
            return Err(crate::keys::quoted_error("unknown output option ", &name_chars(child)));
        }
        i = i + 1;
    }
    proof {
        lemma_fold_all(children, start, step);
    }
    if !saw {
        return Err(ConfigError::from_str("`output` requires `scale`"));
    }
    Ok(())
}

// ---------------------------------------------------------------- mouse

/// The mouse button named by the positional string at `index`, ignoring ASCII case.
pub open spec fn mouse_button_at(head: HeadView, index: int) -> Result<MouseButton, Seq<char>> {
    match string_at(head, index) {
        Err(e) => Err(e),
        Ok(s) => {
            let lower = ascii_lower_seq(s);
            if lower == "left"@ {
                Ok(MouseButton::Left)
            } else if lower == "right"@ {
                Ok(MouseButton::Right)
            } else if lower == "middle"@ {
                Ok(MouseButton::Middle)
            } else {
                Err("mouse button must be left, right, or middle, got "@ + ticked(lower))
            }
        },
    }
}

/// The two buttons at positions 0 and 1.
pub open spec fn mouse_pair(head: HeadView) -> Result<[MouseButton; 2], Seq<char>> {
    match mouse_button_at(head, 0) {
        Err(e) => Err(e),
        Ok(a) => match mouse_button_at(head, 1) {
            Err(e) => Err(e),
            Ok(b) => Ok([a, b]),
        },
    }
}

/// The click count property of a gesture.
pub open spec fn clicks(head: HeadView, too_large: Seq<char>) -> Result<u8, Seq<char>> {
    match u64_property(head, "clicks"@) {
        Err(e) => Err(e),
        Ok(n) => if n <= u8::MAX {
            Ok(n as u8)
        } else {
            Err(too_large)
        },
    }
}

/// The mouse gestures after one option.
pub open spec fn mouse_option(mouse: MouseConfig, child: HeadView) -> Result<MouseConfig, Seq<char>> {
    let name = child.name;
    if name == "cursor-hide-delay-ms"@ {
        match u64_at(child, 0) {
            Err(e) => Err(e),
            Ok(n) => if n <= u32::MAX {
                Ok(MouseConfig { cursor_hide_delay_ms: n as u32, ..mouse })
            } else {
                Err("mouse cursor-hide-delay-ms is too large"@)
            },
        }
    } else if name == "camera-pan"@ {
        match mouse_button_at(child, 0) {
            Err(e) => Err(e),
            Ok(b) => Ok(MouseConfig { camera_pan: b, ..mouse }),
        }
    } else if name == "camera-zoom"@ {
        match mouse_button_at(child, 0) {
            Err(e) => Err(e),
            Ok(b) => Ok(MouseConfig { camera_zoom: b, ..mouse }),
        }
    } else if name == "move-window"@ {
        match mouse_pair(child) {
            Err(e) => Err(e),
            Ok(p) => Ok(MouseConfig { move_window: p, ..mouse }),
        }
    } else if name == "resize-window"@ {
        match mouse_button_at(child, 0) {
            Err(e) => Err(e),
            Ok(b) => Ok(MouseConfig { resize_window: b, ..mouse }),
        }
    } else if name == "reset-window"@ {
        match mouse_button_at(child, 0) {
            Err(e) => Err(e),
            Ok(b) => match clicks(child, "mouse reset-window clicks is too large"@) {
                Err(e) => Err(e),
                Ok(c) => Ok(MouseConfig { reset_window: b, reset_window_clicks: c, ..mouse }),
            },
        }
    } else if name == "toggle-floating"@ {
        match mouse_pair(child) {
            Err(e) => Err(e),
            Ok(p) => Ok(MouseConfig { toggle_floating: p, ..mouse }),
        }
    } else if name == "place-next"@ {
        match mouse_button_at(child, 0) {
            Err(e) => Err(e),
            Ok(b) => Ok(MouseConfig { place_next: b, ..mouse }),
        }
    } else if name == "center-window"@ {
        match mouse_pair(child) {
            Err(e) => Err(e),
            Ok(p) => match clicks(child, "mouse center-window clicks is too large"@) {
                Err(e) => Err(e),
                Ok(c) => Ok(MouseConfig { center_window: p, center_window_clicks: c, ..mouse }),
            },
        }
    } else if name == "close-window"@ {
        match mouse_pair(child) {
            Err(e) => Err(e),
            Ok(p) => match clicks(child, "mouse close-window clicks is too large"@) {
                Err(e) => Err(e),
                Ok(c) => Ok(MouseConfig { close_window: p, close_window_clicks: c, ..mouse }),
            },
        }
    } else {
        Err(quoted("unknown mouse option "@, name))
    }
}

/// [`mouse_option`] as a step of a walk.
pub open spec fn mouse_step() -> spec_fn(MouseConfig, HeadView) -> Result<MouseConfig, Seq<char>> {
    |m: MouseConfig, c: HeadView| mouse_option(m, c)
}

/// The mouse block: its options in order, then the consistency rules.
pub open spec fn mouse_section(node: NodeView, mouse: MouseConfig) -> Result<MouseConfig, Seq<char>> {
    if !node.head.has_children {
        Err(missing_block(node.head))
    } else {
        match fold_steps(node.children, mouse, mouse_step()) {
            Err(e) => Err(e),
            Ok(m) => match mouse_violation(m) {
                Some(message) => Err(message),
                None => Ok(m),
            },
        }
    }
}

fn mouse_button_of(head: &Head, index: usize) -> (r: Result<MouseButton, ConfigError>)
    ensures
        match mouse_button_at(head@, index as int) {
            Ok(b) => r == Ok::<MouseButton, ConfigError>(b),
            Err(m) => r matches Err(e) && e.0@ == m,
        },
{
    let s = head.string_at(index)?;
    let lower = crate::text::lower_chars(&crate::text::chars_of(s.as_str()));
    if is_word(&lower, "left") {
        Ok(MouseButton::Left)
    } else if is_word(&lower, "right") {
        Ok(MouseButton::Right)
    } else if is_word(&lower, "middle") {
        Ok(MouseButton::Middle)
    } else {
        let mut m = crate::text::chars_of("mouse button must be left, right, or middle, got ");
        append_str(&mut m, "`");
        append_chars(&mut m, &lower);
        append_str(&mut m, "`");
        assert(m@ =~= "mouse button must be left, right, or middle, got "@ + ticked(lower@));
        Err(ConfigError::from_chars(&m))
    }
}

fn mouse_pair_of(head: &Head) -> (r: Result<[MouseButton; 2], ConfigError>)
    ensures
        match mouse_pair(head@) {
            Ok(p) => r matches Ok(q) && q[0] == p[0] && q[1] == p[1],
            Err(m) => r matches Err(e) && e.0@ == m,
        },
{
    let a = mouse_button_of(head, 0)?;
    let b = mouse_button_of(head, 1)?;
    Ok([a, b])
}

fn clicks_of(head: &Head, too_large: &str) -> (r: Result<u8, ConfigError>)
    ensures
        match clicks(head@, too_large@) {
            Ok(c) => r == Ok::<u8, ConfigError>(c),
            Err(m) => r matches Err(e) && e.0@ == m,
        },
{
    let n = head.u64_property("clicks")?;
    if n <= u8::MAX as u64 {
        Ok(n as u8)
    } else {
        Err(ConfigError::from_str(too_large))
    }
}

proof fn lemma_pair_eq(p: [MouseButton; 2], q: [MouseButton; 2])
    requires
        q[0] == p[0],
        q[1] == p[1],
    ensures
        q == p,
{
    assert(q@ =~= p@);
}

fn mouse_option_of(mouse: &mut MouseConfig, child: &Head) -> (r: Result<(), ConfigError>)
    ensures
        match mouse_option(*old(mouse), child@) {
            Ok(m) => r is Ok && *final(mouse) == m,
            Err(m) => r matches Err(e) && e.0@ == m,
        },
{
    if child.is_named("cursor-hide-delay-ms") {
        let n = child.u64_at(0)?;
        if n > u32::MAX as u64 {
            return Err(ConfigError::from_str("mouse cursor-hide-delay-ms is too large"));
        }
        mouse.cursor_hide_delay_ms = n as u32;
    } else if child.is_named("camera-pan") {
        mouse.camera_pan = mouse_button_of(child, 0)?;
    } else if child.is_named("camera-zoom") {
        mouse.camera_zoom = mouse_button_of(child, 0)?;
    } else if child.is_named("move-window") {
        let p = mouse_pair_of(child)?;
        proof {
            lemma_pair_eq(mouse_pair(child@)->Ok_0, p);
        }
        mouse.move_window = p;
    } else if child.is_named("resize-window") {
        mouse.resize_window = mouse_button_of(child, 0)?;
    } else if child.is_named("reset-window") {
        let b = mouse_button_of(child, 0)?;
        let c = clicks_of(child, "mouse reset-window clicks is too large")?;
        mouse.reset_window = b;
        mouse.reset_window_clicks = c;
    } else if child.is_named("toggle-floating") {
        let p = mouse_pair_of(child)?;
        proof {
            lemma_pair_eq(mouse_pair(child@)->Ok_0, p);
        }
        mouse.toggle_floating = p;
    } else if child.is_named("place-next") {
        mouse.place_next = mouse_button_of(child, 0)?;
    } else if child.is_named("center-window") {
        let p = mouse_pair_of(child)?;
        proof {
            lemma_pair_eq(mouse_pair(child@)->Ok_0, p);
        }
        let c = clicks_of(child, "mouse center-window clicks is too large")?;
        mouse.center_window = p;
        mouse.center_window_clicks = c;
    } else if child.is_named("close-window") {
        let p = mouse_pair_of(child)?;
        proof {
            lemma_pair_eq(mouse_pair(child@)->Ok_0, p);
        }
        let c = clicks_of(child, "mouse close-window clicks is too large")?;
        mouse.close_window = p;
        mouse.close_window_clicks = c;
    } else {
        return Err(crate::keys::quoted_error("unknown mouse option ", &name_chars(child)));
    }
    Ok(())
}

/// Reads a `mouse` block into `mouse` and checks the resulting gestures.
pub fn parse_mouse(node: &Node, mouse: &mut MouseConfig) -> (r: Result<(), ConfigError>)
    ensures
        match mouse_section(node@, *old(mouse)) {
            Ok(m) => r is Ok && *final(mouse) == m,
            Err(m) => r matches Err(e) && e.0@ == m,
        },
{
    if !node.head.has_children {
        return Err(node.head.error(" requires a child block"));
    }
    let ghost children = node@.children;
    let ghost step = mouse_step();
    let ghost start = *mouse;
    let mut i: usize = 0;
    while i < node.children.len()
        invariant
            i <= node.children.len(),
            children == node@.children,
            children.len() == node.children.len(),
            step == mouse_step(),
            start == *old(mouse),
            node.head.has_children,
            fold_steps(children.take(i as int), start, step) == Ok::<MouseConfig, Seq<char>>(*mouse),
        decreases node.children.len() - i,
    {
        proof {
            lemma_fold_next(children, start, step, i as int);
        }
        let child = &node.children[i];
        assert(children[i as int] == child@);
        match mouse_option_of(mouse, child) {
            Ok(()) => {},
            Err(e) => {
                proof {
                    lemma_fold_error(children, start, step, i as int + 1);
                }
                return Err(e);
            },
        }
        i = i + 1;
    }
    proof {
        lemma_fold_all(children, start, step);
    }
    crate::mouse::validate_mouse(mouse)
}

// ---------------------------------------------------------------- effects

/// The message for a `window-transition` value that names no style.
pub open spec fn transition_error() -> Seq<char> {
    "window-transition expects \"water\", \"sci-fi\", \"none\", true, or false"@
}

/// The transition style a `window-transition` option names: a quoted style
/// name, or a boolean for the water style or none.
pub open spec fn transition_of(head: HeadView) -> Result<WindowTransitionEffect, Seq<char>> {
    match argument(head, 0) {
        Some(ValueView::Bool(b)) => if b {
            Ok(WindowTransitionEffect::Water)
        } else {
            Ok(WindowTransitionEffect::Disabled)
        },
        Some(ValueView::Text(s)) => if s == "water"@ {
            Ok(WindowTransitionEffect::Water)
        } else if s == "sci-fi"@ {
            Ok(WindowTransitionEffect::SciFi)
        } else if s == "none"@ {
            Ok(WindowTransitionEffect::Disabled)
        } else {
            Err(transition_error())
        },
        _ => Err(transition_error()),
    }
}

fn transition_error_of() -> (e: ConfigError)
    ensures
        e.0@ == transition_error(),
{
    ConfigError::from_str("window-transition expects \"water\", \"sci-fi\", \"none\", true, or false")
}

/// Reads the transition style of a `window-transition` option.
pub fn node_window_transition(head: &Head) -> (r: Result<WindowTransitionEffect, ConfigError>)
    ensures
        match transition_of(head@) {
            Ok(t) => r == Ok::<WindowTransitionEffect, ConfigError>(t),
            Err(m) => r matches Err(e) && e.0@ == m,
        },
{
    match head.argument_at(0) {
        Some(Value::Bool(b)) => if *b {
            Ok(WindowTransitionEffect::Water)
        } else {
            Ok(WindowTransitionEffect::Disabled)
        },
        Some(Value::Text(s)) => {
            let chars = crate::text::chars_of(s.as_str());
            if is_word(&chars, "water") {
                Ok(WindowTransitionEffect::Water)
            } else if is_word(&chars, "sci-fi") {
                Ok(WindowTransitionEffect::SciFi)
            } else if is_word(&chars, "none") {
                Ok(WindowTransitionEffect::Disabled)
            } else {
                Err(transition_error_of())
            }
        },
        _ => Err(transition_error_of()),
    }
}

/// The effects after one option.
pub open spec fn effects_option(e: Effects, child: HeadView) -> Result<Effects, Seq<char>> {
    let name = child.name;
    if name == "blur-passes"@ {
        match u32_first(child) {
            Err(m) => Err(m),
            Ok(n) => if n <= u8::MAX {
                Ok(Effects { blur_passes: n as u8, ..e })
            } else {
                Err("blur-passes is too large"@)
            },
        }
    } else if name == "blur-offset"@ {
        match number_at(child, 0) {
            Err(m) => Err(m),
            Ok(n) => Ok(Effects { blur_offset: n, ..e }),
        }
    } else if name == "shadow-radius"@ {
        match number_at(child, 0) {
            Err(m) => Err(m),
            Ok(n) => Ok(Effects { shadow_radius: n, ..e }),
        }
    } else if name == "shadow-offset"@ {
        match i32_at(child, 0) {
            Err(m) => Err(m),
            Ok(x) => match i32_at(child, 1) {
                Err(m) => Err(m),
                Ok(y) => Ok(Effects { shadow_offset: [x, y], ..e }),
            },
        }
    } else if name == "shadow-color"@ {
        match color_first(child) {
            Err(m) => Err(m),
            Ok(c) => Ok(Effects { shadow_color: Some(c), ..e }),
        }
    } else if name == "cursor-wake"@ {
        match bool_first(child) {
            Err(m) => Err(m),
            Ok(b) => Ok(Effects { cursor_wake: b, ..e }),
        }
    } else if name == "cursor-wake-threshold"@ {
        match number_at(child, 0) {
            Err(m) => Err(m),
            Ok(n) => Ok(Effects { cursor_wake_threshold: n, ..e }),
        }
    } else if name == "cursor-wake-strength"@ {
        match number_at(child, 0) {
            Err(m) => Err(m),
            Ok(n) => Ok(Effects { cursor_wake_strength: n, ..e }),
        }
    } else if name == "cursor-wake-width"@ {
        match number_at(child, 0) {
            Err(m) => Err(m),
            Ok(n) => Ok(Effects { cursor_wake_width: n, ..e }),
        }
    } else if name == "cursor-wake-duration"@ {
        match u32_first(child) {
            Err(m) => Err(m),
            Ok(n) => Ok(Effects { cursor_wake_duration: n, ..e }),
        }
    } else if name == "window-transition"@ {
        match transition_of(child) {
            Err(m) => Err(m),
            Ok(t) => Ok(Effects { window_transition: t, ..e }),
        }
    } else if name == "window-transition-duration"@ {
        match u32_first(child) {
            Err(m) => Err(m),
            Ok(n) => Ok(Effects { window_transition_duration: n, ..e }),
        }
    } else {
        Err(quoted("unknown effects option "@, name))
    }
}

/// [`effects_option`] as a step of a walk.
pub open spec fn effects_step() -> spec_fn(Effects, HeadView) -> Result<Effects, Seq<char>> {
    |e: Effects, c: HeadView| effects_option(e, c)
}

/// The effects block: its options in order.
pub open spec fn effects_section(node: NodeView, effects: Effects) -> Result<Effects, Seq<char>> {
    if !node.head.has_children {
        Err(missing_block(node.head))
    } else {
        fold_steps(node.children, effects, effects_step())
    }
}

fn effects_option_of(effects: &mut Effects, child: &Head) -> (r: Result<(), ConfigError>)
    ensures
        match effects_option(*old(effects), child@) {
            Ok(e) => r is Ok && *final(effects) == e,
            Err(m) => r matches Err(e) && e.0@ == m,
        },
{
    if child.is_named("blur-passes") {
        let n = child.u32_first()?;
        if n > u8::MAX as u32 {
            return Err(ConfigError::from_str("blur-passes is too large"));
        }
        effects.blur_passes = n as u8;
    } else if child.is_named("blur-offset") {
        effects.blur_offset = child.number_at(0)?;
    } else if child.is_named("shadow-radius") {
        effects.shadow_radius = child.number_at(0)?;
    } else if child.is_named("shadow-offset") {
        let x = child.i32_at(0)?;
        let y = child.i32_at(1)?;
        effects.shadow_offset = [x, y];
    } else if child.is_named("shadow-color") {
        effects.shadow_color = Some(color_first_of(child)?);
    } else if child.is_named("cursor-wake") {
        effects.cursor_wake = child.bool_first()?;
    } else if child.is_named("cursor-wake-threshold") {
        effects.cursor_wake_threshold = child.number_at(0)?;
    } else if child.is_named("cursor-wake-strength") {
        effects.cursor_wake_strength = child.number_at(0)?;
    } else if child.is_named("cursor-wake-width") {
        effects.cursor_wake_width = child.number_at(0)?;
    } else if child.is_named("cursor-wake-duration") {
        effects.cursor_wake_duration = child.u32_first()?;
    } else if child.is_named("window-transition") {
        effects.window_transition = node_window_transition(child)?;
    } else if child.is_named("window-transition-duration") {
        effects.window_transition_duration = child.u32_first()?;
    } else {
        return Err(crate::keys::quoted_error("unknown effects option ", &name_chars(child)));
    }
    Ok(())
}

/// Reads an `effects` block into `effects`.
pub fn parse_effects(node: &Node, effects: &mut Effects) -> (r: Result<(), ConfigError>)
    ensures
        match effects_section(node@, *old(effects)) {
            Ok(e) => r is Ok && *final(effects) == e,
            Err(m) => r matches Err(e) && e.0@ == m,
        },
{
    if !node.head.has_children {
        return Err(node.head.error(" requires a child block"));
    }
    let ghost children = node@.children;
    let ghost step = effects_step();
    let ghost start = *effects;
    let mut i: usize = 0;
    while i < node.children.len()
        invariant
            i <= node.children.len(),
            children == node@.children,
            children.len() == node.children.len(),
            step == effects_step(),
            start == *old(effects),
            node.head.has_children,
            fold_steps(children.take(i as int), start, step) == Ok::<Effects, Seq<char>>(*effects),
        decreases node.children.len() - i,
    {
        proof {
            lemma_fold_next(children, start, step, i as int);
        }
        let child = &node.children[i];
        assert(children[i as int] == child@);
        match effects_option_of(effects, child) {
            Ok(()) => {},
            Err(e) => {
                proof {
                    lemma_fold_error(children, start, step, i as int + 1);
                }
                return Err(e);
            },
        }
        i = i + 1;
    }
    proof {
        lemma_fold_all(children, start, step);
    }
    Ok(())
}

// ---------------------------------------------------------------- appearance

/// The appearance after one option.
pub open spec fn appearance_option(a: Appearance, child: HeadView) -> Result<Appearance, Seq<char>> {
    let name = child.name;
    if name == "background-color"@ {
        match color_first(child) {
            Err(m) => Err(m),
            Ok(c) => Ok(Appearance { background_color: c, ..a }),
        }
    } else if name == "focus-indicator-width"@ {
        match u32_first(child) {
            Err(m) => Err(m),
            Ok(n) => Ok(Appearance { focus_indicator_width: n, ..a }),
        }
    } else if name == "focus-indicator-height"@ {
        match u32_first(child) {
            Err(m) => Err(m),
            Ok(n) => Ok(Appearance { focus_indicator_height: n, ..a }),
        }
    } else if name == "focus-indicator-color"@ {
        match color_first(child) {
            Err(m) => Err(m),
            Ok(c) => Ok(Appearance { focus_indicator_color: c, ..a }),
        }
    } else if name == "window-border-width"@ {
        match u32_first(child) {
            Err(m) => Err(m),
            Ok(n) => Ok(Appearance { window_border_width: n, ..a }),
        }
    } else if name == "window-border-color"@ {
        match color_first(child) {
            Err(m) => Err(m),
            Ok(c) => Ok(Appearance { window_border_color: c, ..a }),
        }
    } else if name == "corner-radius"@ {
        match u32_first(child) {
            Err(m) => Err(m),
            Ok(n) => Ok(Appearance { corner_radius: n, ..a }),
        }
    } else if name == "gaps"@ {
        match u32_first(child) {
            Err(m) => Err(m),
            Ok(n) => Ok(Appearance { gaps: n, ..a }),
        }
    } else if name == "opacity"@ {
        match number_at(child, 0) {
            Err(m) => Err(m),
            Ok(n) => Ok(Appearance { opacity: n, ..a }),
        }
    } else if name == "opacity-toggle"@ {
        match number_at(child, 0) {
            Err(m) => Err(m),
            Ok(x) => match number_at(child, 1) {
                Err(m) => Err(m),
                Ok(y) => Ok(Appearance { opacity_toggle: [x, y], ..a }),
            },
        }
    } else {
        Err(quoted("unknown appearance option "@, name))
    }
}

/// [`appearance_option`] as a step of a walk.
pub open spec fn appearance_step() -> spec_fn(Appearance, HeadView) -> Result<Appearance, Seq<char>> {
    |a: Appearance, c: HeadView| appearance_option(a, c)
}

/// The appearance block: its options in order.
pub open spec fn appearance_section(node: NodeView, appearance: Appearance) -> Result<Appearance, Seq<char>> {
    if !node.head.has_children {
        Err(missing_block(node.head))
    } else {
        fold_steps(node.children, appearance, appearance_step())
    }
}

fn appearance_option_of(appearance: &mut Appearance, child: &Head) -> (r: Result<(), ConfigError>)
    ensures
        match appearance_option(*old(appearance), child@) {
            Ok(a) => r is Ok && *final(appearance) == a,
            Err(m) => r matches Err(e) && e.0@ == m,
        },
{
    if child.is_named("background-color") {
        appearance.background_color = color_first_of(child)?;
    } else if child.is_named("focus-indicator-width") {
        appearance.focus_indicator_width = child.u32_first()?;
    } else if child.is_named("focus-indicator-height") {
        appearance.focus_indicator_height = child.u32_first()?;
    } else if child.is_named("focus-indicator-color") {
        appearance.focus_indicator_color = color_first_of(child)?;
    } else if child.is_named("window-border-width") {
        appearance.window_border_width = child.u32_first()?;
    } else if child.is_named("window-border-color") {
        appearance.window_border_color = color_first_of(child)?;
    } else if child.is_named("corner-radius") {
        appearance.corner_radius = child.u32_first()?;
    } else if child.is_named("gaps") {
        appearance.gaps = child.u32_first()?;
    } else if child.is_named("opacity") {
        appearance.opacity = child.number_at(0)?;
    } else if child.is_named("opacity-toggle") {
        let x = child.number_at(0)?;
        let y = child.number_at(1)?;
        appearance.opacity_toggle = [x, y];
    } else {
        return Err(crate::keys::quoted_error("unknown appearance option ", &name_chars(child)));
    }
    Ok(())
}

/// Reads an `appearance` block into `appearance`.
pub fn parse_appearance(node: &Node, appearance: &mut Appearance) -> (r: Result<(), ConfigError>)
    ensures
        match appearance_section(node@, *old(appearance)) {
            Ok(a) => r is Ok && *final(appearance) == a,
            Err(m) => r matches Err(e) && e.0@ == m,
        },
{
    if !node.head.has_children {
        return Err(node.head.error(" requires a child block"));
    }
    let ghost children = node@.children;
    let ghost step = appearance_step();
    let ghost start = *appearance;
    let mut i: usize = 0;
    while i < node.children.len()
        invariant
            i <= node.children.len(),
            children == node@.children,
            children.len() == node.children.len(),
            step == appearance_step(),
            start == *old(appearance),
            node.head.has_children,
            fold_steps(children.take(i as int), start, step) == Ok::<Appearance, Seq<char>>(*appearance),
        decreases node.children.len() - i,
    {
        proof {
            lemma_fold_next(children, start, step, i as int);
        }
        let child = &node.children[i];
        assert(children[i as int] == child@);
        match appearance_option_of(appearance, child) {
            Ok(()) => {},
            Err(e) => {
                proof {
                    lemma_fold_error(children, start, step, i as int + 1);
                }
                return Err(e);
            },
        }
        i = i + 1;
    }
    proof {
        lemma_fold_all(children, start, step);
    }
    Ok(())
}

} // verus!
