//! The JSON answers to IPC read requests: windows, the camera, outputs and the
//! whole state. Decimal numbers arrive as the text `Display` writes for them.

use vstd::prelude::*;

use crate::ipc::{escaped, json_string_text, presentation_text};
use crate::shell::Presentation;
use crate::text::{append_chars, append_str, decimal};

verus! {

/// What the answer reports of one window.
#[derive(Clone, Debug)]
pub struct WindowReport {
    pub id: u64,
    pub app_id: Option<String>,
    pub title: Option<String>,
    /// The world position of the window's origin, as written by `Display`.
    pub x: String,
    pub y: String,
    pub width: u64,
    pub height: u64,
    pub focused: bool,
    pub presentation: Presentation,
    /// The effective opacity, as written by `Display`.
    pub opacity: String,
    pub floating: bool,
    pub blur: bool,
}

/// `true` or `false`.
pub open spec fn bool_text(b: bool) -> Seq<char> {
    if b {
        "true"@
    } else {
        "false"@
    }
}

/// The text of an optional string.
pub open spec fn opt_text(s: Option<String>) -> Option<Seq<char>> {
    match s {
        Some(t) => Some(t@),
        None => None,
    }
}

/// The JSON object of one window.
pub open spec fn window_text(w: WindowReport) -> Seq<char> {
    "{\"id\":"@ + decimal(w.id as nat) + ",\"app_id\":"@ + json_string_text(opt_text(w.app_id)) + ",\"title\":"@
        + json_string_text(opt_text(w.title)) + ",\"rect\":{\"x\":"@ + w.x@ + ",\"y\":"@ + w.y@ + ",\"width\":"@
        + decimal(w.width as nat) + ",\"height\":"@ + decimal(w.height as nat) + "},\"focused\":"@ + bool_text(
        w.focused,
    ) + ",\"presentation\":\""@ + presentation_text(w.presentation) + "\",\"opacity\":"@ + w.opacity@
        + ",\"floating\":"@ + bool_text(w.floating) + ",\"blur\":"@ + bool_text(w.blur) + "}"@
}

fn push_bool(out: &mut Vec<char>, b: bool)
    ensures
        final(out)@ == old(out)@ + bool_text(b),
{
    if b {
        append_str(out, "true");
    } else {
        append_str(out, "false");
    }
}

fn push_json_string(out: &mut Vec<char>, value: &Option<String>)
    ensures
        final(out)@ == old(out)@ + json_string_text(opt_text(*value)),
{
    let text = match value {
        Some(s) => crate::ipc::json_string(Some(s.as_str())),
        None => crate::ipc::json_string(None),
    };
    append_chars(out, &crate::text::chars_of(text.as_str()));
}

/// Writes the JSON object of one window.
pub fn window_json(w: &WindowReport) -> (json: Vec<char>)
    ensures
        json@ == window_text(*w),
{
    let mut out = crate::text::chars_of("{\"id\":");
    append_chars(&mut out, &crate::text::decimal_of(w.id));
    append_str(&mut out, ",\"app_id\":");
    push_json_string(&mut out, &w.app_id);
    append_str(&mut out, ",\"title\":");
    push_json_string(&mut out, &w.title);
    append_str(&mut out, ",\"rect\":{\"x\":");
    append_chars(&mut out, &crate::text::chars_of(w.x.as_str()));
    append_str(&mut out, ",\"y\":");
    append_chars(&mut out, &crate::text::chars_of(w.y.as_str()));
    append_str(&mut out, ",\"width\":");
    append_chars(&mut out, &crate::text::decimal_of(w.width));
    append_str(&mut out, ",\"height\":");
    append_chars(&mut out, &crate::text::decimal_of(w.height));
    append_str(&mut out, "},\"focused\":");
    push_bool(&mut out, w.focused);
    append_str(&mut out, ",\"presentation\":\"");
    append_str(&mut out, crate::ipc::presentation_name(w.presentation));
    append_str(&mut out, "\",\"opacity\":");
    append_chars(&mut out, &crate::text::chars_of(w.opacity.as_str()));
    append_str(&mut out, ",\"floating\":");
    push_bool(&mut out, w.floating);
    append_str(&mut out, ",\"blur\":");
    push_bool(&mut out, w.blur);
    append_str(&mut out, "}");
    assert(out@ =~= window_text(*w));
    out
}

/// `items` joined by commas.
pub open spec fn comma_joined(items: Seq<Seq<char>>) -> Seq<char>
    decreases items.len(),
{
    if items.len() == 0 {
        Seq::empty()
    } else if items.len() == 1 {
        items[0]
    } else {
        comma_joined(items.drop_last()) + ","@ + items.last()
    }
}

/// A JSON array of the objects `items`.
pub open spec fn array_text(items: Seq<Seq<char>>) -> Seq<char> {
    "["@ + comma_joined(items) + "]"@
}

/// Writes a JSON array of already written values.
pub fn json_array(items: &Vec<Vec<char>>) -> (json: Vec<char>)
    ensures
        json@ == array_text(item_texts(items@)),
{
    let ghost views = item_texts(items@);
    let mut out = crate::text::chars_of("[");
    let ghost head = out@;
    let mut i: usize = 0;
    while i < items.len()
        invariant
            i <= items@.len(),
            views == item_texts(items@),
            head == "["@,
            out@ == head + comma_joined(views.take(i as int)),
        decreases items.len() - i,
    {
        assert(views.take(i as int + 1).drop_last() =~= views.take(i as int));
        assert(views.take(i as int + 1).last() == items@[i as int]@);
        if i > 0 {
            append_str(&mut out, ",");
        } else {
            assert(views.take(1) =~= seq![views[0]]);
        }
        append_chars(&mut out, &items[i]);
        proof {
            assert(out@ =~= head + comma_joined(views.take(i as int + 1)));
        }
        i = i + 1;
    }
    assert(views.take(items.len() as int) =~= views);
    append_str(&mut out, "]");
    assert(out@ =~= array_text(views));
    out
}

/// The JSON objects of a list of windows.
pub open spec fn window_texts(windows: Seq<WindowReport>) -> Seq<Seq<char>> {
    windows.map_values(|w: WindowReport| window_text(w))
}

/// The characters of a list of written values.
pub open spec fn item_texts(items: Seq<Vec<char>>) -> Seq<Seq<char>> {
    items.map_values(|v: Vec<char>| v@)
}

/// The JSON array of windows.
pub open spec fn windows_text(windows: Seq<WindowReport>) -> Seq<char> {
    array_text(window_texts(windows))
}

/// Writes the JSON array of windows.
pub fn windows_json(windows: &Vec<WindowReport>) -> (json: Vec<char>)
    ensures
        json@ == windows_text(windows@),
{
    let mut items: Vec<Vec<char>> = Vec::new();
    let mut i: usize = 0;
    while i < windows.len()
        invariant
            i <= windows@.len(),
            item_texts(items@) == window_texts(windows@.take(i as int)),
        decreases windows.len() - i,
    {
        let ghost before = items@;
        let item = window_json(&windows[i]);
        assert(item@ == window_text(windows@[i as int]));
        items.push(item);
        assert(items@ == before.push(item));
        assert(item_texts(before).len() == before.len());
        assert(window_texts(windows@.take(i as int)).len() == i);
        assert(before.len() == i);
        assert(windows@.take(i as int + 1) =~= windows@.take(i as int).push(windows@[i as int]));
        assert forall|k: int| 0 <= k < i + 1 implies #[trigger] item_texts(items@)[k] == window_texts(
            windows@.take(i as int + 1),
        )[k] by {
            if k < i {
                assert(item_texts(items@)[k] == items@[k]@);
                assert(items@[k] == before[k]);
                assert(item_texts(before)[k] == before[k]@);
                assert(window_texts(windows@.take(i as int))[k] == window_text(windows@[k]));
            } else {
                assert(items@[k] == item);
            }
        }
        assert(item_texts(items@) =~= window_texts(windows@.take(i as int + 1)));
        i = i + 1;
    }
    assert(windows@.take(windows.len() as int) =~= windows@);
    json_array(&items)
}

/// The camera of the active output.
#[derive(Clone, Debug)]
pub struct CameraReport {
    pub output_id: u64,
    /// The camera position and zoom, as written by `Display`.
    pub x: String,
    pub y: String,
    pub zoom: String,
}

/// The JSON object of the camera.
pub open spec fn camera_text(c: CameraReport) -> Seq<char> {
    "{\"output_id\":"@ + decimal(c.output_id as nat) + ",\"x\":"@ + c.x@ + ",\"y\":"@ + c.y@ + ",\"zoom\":"@
        + c.zoom@ + "}"@
}

/// Writes the JSON object of the camera.
pub fn camera_json(c: &CameraReport) -> (json: Vec<char>)
    ensures
        json@ == camera_text(*c),
{
    let mut out = crate::text::chars_of("{\"output_id\":");
    append_chars(&mut out, &crate::text::decimal_of(c.output_id));
    append_str(&mut out, ",\"x\":");
    append_chars(&mut out, &crate::text::chars_of(c.x.as_str()));
    append_str(&mut out, ",\"y\":");
    append_chars(&mut out, &crate::text::chars_of(c.y.as_str()));
    append_str(&mut out, ",\"zoom\":");
    append_chars(&mut out, &crate::text::chars_of(c.zoom.as_str()));
    append_str(&mut out, "}");
    assert(out@ =~= camera_text(*c));
    out
}

/// An output as the answer reports it.
#[derive(Clone, Debug)]
pub struct OutputReport {
    /// Mio's id of the output, if it has one.
    pub id: Option<u64>,
    pub name: String,
    pub x: i32,
    pub y: i32,
    pub width: i32,
    pub height: i32,
    /// The fractional scale, as written by `Display`.
    pub scale: String,
}

/// The decimal text of an `i32`.
pub open spec fn signed_text(v: i32) -> Seq<char> {
    if v < 0 {
        "-"@ + decimal((-(v as int)) as nat)
    } else {
        decimal(v as nat)
    }
}

fn signed_decimal(v: i32) -> (text: Vec<char>)
    ensures
        text@ == signed_text(v),
{
    if v < 0 {
        let magnitude: u64 = (0i64 - v as i64) as u64;
        let mut out = crate::text::chars_of("-");
        append_chars(&mut out, &crate::text::decimal_of(magnitude));
        out
    } else {
        crate::text::decimal_of(v as u64)
    }
}

/// The JSON object of an output.
pub open spec fn output_text(o: OutputReport) -> Seq<char> {
    "{\"id\":"@ + match o.id {
        Some(id) => decimal(id as nat),
        None => "null"@,
    } + ",\"name\":\""@ + escaped(o.name@) + "\",\"x\":"@ + signed_text(o.x) + ",\"y\":"@ + signed_text(o.y)
        + ",\"width\":"@ + signed_text(o.width) + ",\"height\":"@ + signed_text(o.height) + ",\"scale\":"@
        + o.scale@ + "}"@
}

/// Writes the JSON object of an output.
pub fn output_json(o: &OutputReport) -> (json: Vec<char>)
    ensures
        json@ == output_text(*o),
{
    let mut out = crate::text::chars_of("{\"id\":");
    match o.id {
        Some(id) => append_chars(&mut out, &crate::text::decimal_of(id)),
        None => append_str(&mut out, "null"),
    }
    append_str(&mut out, ",\"name\":\"");
    append_chars(&mut out, &crate::text::chars_of(crate::ipc::escape_json(o.name.as_str()).as_str()));
    append_str(&mut out, "\",\"x\":");
    append_chars(&mut out, &signed_decimal(o.x));
    append_str(&mut out, ",\"y\":");
    append_chars(&mut out, &signed_decimal(o.y));
    append_str(&mut out, ",\"width\":");
    append_chars(&mut out, &signed_decimal(o.width));
    append_str(&mut out, ",\"height\":");
    append_chars(&mut out, &signed_decimal(o.height));
    append_str(&mut out, ",\"scale\":");
    append_chars(&mut out, &crate::text::chars_of(o.scale.as_str()));
    append_str(&mut out, "}");
    assert(out@ =~= output_text(*o));
    out
}

/// The camera of one output, as the answer reports it.
#[derive(Clone, Debug)]
pub struct OutputCameraReport {
    pub id: u64,
    pub active: bool,
    /// The camera position and zoom, as written by `Display`.
    pub x: String,
    pub y: String,
    pub zoom: String,
}

/// The JSON object of an output's camera.
pub open spec fn output_camera_text(c: OutputCameraReport) -> Seq<char> {
    "{\"id\":"@ + decimal(c.id as nat) + ",\"active\":"@ + bool_text(c.active) + ",\"x\":"@ + c.x@ + ",\"y\":"@
        + c.y@ + ",\"zoom\":"@ + c.zoom@ + "}"@
}

/// Writes the JSON object of an output's camera.
pub fn output_camera_json(c: &OutputCameraReport) -> (json: Vec<char>)
    ensures
        json@ == output_camera_text(*c),
{
    let mut out = crate::text::chars_of("{\"id\":");
    append_chars(&mut out, &crate::text::decimal_of(c.id));
    append_str(&mut out, ",\"active\":");
    push_bool(&mut out, c.active);
    append_str(&mut out, ",\"x\":");
    append_chars(&mut out, &crate::text::chars_of(c.x.as_str()));
    append_str(&mut out, ",\"y\":");
    append_chars(&mut out, &crate::text::chars_of(c.y.as_str()));
    append_str(&mut out, ",\"zoom\":");
    append_chars(&mut out, &crate::text::chars_of(c.zoom.as_str()));
    append_str(&mut out, "}");
    assert(out@ =~= output_camera_text(*c));
    out
}

/// The answer to `state`: the windows, the focused window (or `null`), the
/// camera, the outputs and their cameras, each already written as JSON.
pub open spec fn state_text(
    windows: Seq<char>,
    focused: Seq<char>,
    camera: Seq<char>,
    outputs: Seq<char>,
    cameras: Seq<char>,
) -> Seq<char> {
    "{\"ok\":true,\"windows\":"@ + windows + ",\"focused_window\":"@ + focused + ",\"camera\":"@ + camera
        + ",\"outputs\":"@ + outputs + ",\"cameras\":"@ + cameras + "}"@
}

/// Writes the answer to `state`.
pub fn state_json(
    windows: &Vec<char>,
    focused: &Vec<char>,
    camera: &Vec<char>,
    outputs: &Vec<char>,
    cameras: &Vec<char>,
) -> (json: Vec<char>)
    ensures
        json@ == state_text(windows@, focused@, camera@, outputs@, cameras@),
{
    let mut out = crate::text::chars_of("{\"ok\":true,\"windows\":");
    append_chars(&mut out, windows);
    append_str(&mut out, ",\"focused_window\":");
    append_chars(&mut out, focused);
    append_str(&mut out, ",\"camera\":");
    append_chars(&mut out, camera);
    append_str(&mut out, ",\"outputs\":");
    append_chars(&mut out, outputs);
    append_str(&mut out, ",\"cameras\":");
    append_chars(&mut out, cameras);
    append_str(&mut out, "}");
    assert(out@ =~= state_text(windows@, focused@, camera@, outputs@, cameras@));
    out
}

/// An answer `{"ok":true,"<key>":<value>}` to a single read request.
pub open spec fn answer_text(key: Seq<char>, value: Seq<char>) -> Seq<char> {
    "{\"ok\":true,\""@ + key + "\":"@ + value + "}"@
}

/// Writes an answer to a single read request (`windows`, `window`,
/// `camera`).
pub fn answer_json(key: &str, value: &Vec<char>) -> (json: Vec<char>)
    ensures
        json@ == answer_text(key@, value@),
{
    let mut out = crate::text::chars_of("{\"ok\":true,\"");
    append_str(&mut out, key);
    append_str(&mut out, "\":");
    append_chars(&mut out, value);
    append_str(&mut out, "}");
    assert(out@ =~= answer_text(key@, value@));
    out
}

/// The answer to `outputs`: the outputs and their cameras.
pub open spec fn outputs_answer_text(outputs: Seq<char>, cameras: Seq<char>) -> Seq<char> {
    "{\"ok\":true,\"outputs\":"@ + outputs + ",\"cameras\":"@ + cameras + "}"@
}

/// Writes the answer to `outputs`.
pub fn outputs_answer_json(outputs: &Vec<char>, cameras: &Vec<char>) -> (json: Vec<char>)
    ensures
        json@ == outputs_answer_text(outputs@, cameras@),
{
    let mut out = crate::text::chars_of("{\"ok\":true,\"outputs\":");
    append_chars(&mut out, outputs);
    append_str(&mut out, ",\"cameras\":");
    append_chars(&mut out, cameras);
    append_str(&mut out, "}");
    assert(out@ =~= outputs_answer_text(outputs@, cameras@));
    out
}

} // verus!
