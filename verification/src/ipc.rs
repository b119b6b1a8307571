//! The IPC protocol of `mioctl`: one request line of whitespace-separated
//! words, answered by one JSON object.

use vstd::prelude::*;

use crate::direction::{direction_named, parse_direction, Direction};
use crate::shell::Presentation;
use crate::text::{is_word, push_char};
use crate::words::{bool_text, float_text_ok, is_float_text, parse_bool, parse_u64, split_words, u64_text, words};

verus! {

/// The longest request accepted, in bytes, without its newline.
pub const MAX_REQUEST_BYTES: usize = 4096;

/// A window property that a client can set.
#[derive(Clone, Debug, PartialEq)]
pub enum WindowProperty {
    /// Opacity, as the decimal text the client sent; `f32::from_str` accepts it.
    Opacity(String),
    Floating(bool),
    Blur(bool),
}

/// A window property that a client can clear.
#[derive(Clone, Copy, Debug, PartialEq, Eq, Structural)]
pub enum WindowPropertyKind {
    Opacity,
    Floating,
    Blur,
}

/// A parsed IPC request.
#[derive(Clone, Debug, PartialEq)]
pub enum IpcRequest {
    Quit,
    State,
    Windows,
    FocusedWindow,
    Camera,
    Outputs,
    ActivateOutput { id: u64 },
    Focus { id: u64 },
    CameraStep { direction: Direction },
    MoveWindow { id: u64, direction: Direction },
    ResizeWindow { id: u64, direction: Direction },
    ToggleFloating { id: u64 },
    Close { id: u64 },
    /// Opacity, as decimal text that `f32::from_str` accepts.
    SetOpacity { id: u64, opacity: String },
    ClearOpacity { id: u64 },
    CameraTo { id: u64 },
    SetProperty { id: u64, property: WindowProperty },
    ClearProperty { id: u64, kind: WindowPropertyKind },
}

/// The mathematical form of a [`WindowProperty`].
pub enum PropertyView {
    Opacity(Seq<char>),
    Floating(bool),
    Blur(bool),
}

/// The mathematical form of an [`IpcRequest`].
pub enum RequestView {
    Quit,
    State,
    Windows,
    FocusedWindow,
    Camera,
    Outputs,
    ActivateOutput(u64),
    Focus(u64),
    CameraStep(Direction),
    MoveWindow(u64, Direction),
    ResizeWindow(u64, Direction),
    ToggleFloating(u64),
    Close(u64),
    SetOpacity(u64, Seq<char>),
    ClearOpacity(u64),
    CameraTo(u64),
    SetProperty(u64, PropertyView),
    ClearProperty(u64, WindowPropertyKind),
}

impl WindowProperty {
    pub open spec fn view(&self) -> PropertyView {
        match self {
            WindowProperty::Opacity(text) => PropertyView::Opacity(text@),
            WindowProperty::Floating(b) => PropertyView::Floating(*b),
            WindowProperty::Blur(b) => PropertyView::Blur(*b),
        }
    }
}

impl IpcRequest {
    pub open spec fn view(&self) -> RequestView {
        match self {
            IpcRequest::Quit => RequestView::Quit,
            IpcRequest::State => RequestView::State,
            IpcRequest::Windows => RequestView::Windows,
            IpcRequest::FocusedWindow => RequestView::FocusedWindow,
            IpcRequest::Camera => RequestView::Camera,
            IpcRequest::Outputs => RequestView::Outputs,
            IpcRequest::ActivateOutput { id } => RequestView::ActivateOutput(*id),
            IpcRequest::Focus { id } => RequestView::Focus(*id),
            IpcRequest::CameraStep { direction } => RequestView::CameraStep(*direction),
            IpcRequest::MoveWindow { id, direction } => RequestView::MoveWindow(*id, *direction),
            IpcRequest::ResizeWindow { id, direction } => RequestView::ResizeWindow(*id, *direction),
            IpcRequest::ToggleFloating { id } => RequestView::ToggleFloating(*id),
            IpcRequest::Close { id } => RequestView::Close(*id),
            IpcRequest::SetOpacity { id, opacity } => RequestView::SetOpacity(*id, opacity@),
            IpcRequest::ClearOpacity { id } => RequestView::ClearOpacity(*id),
            IpcRequest::CameraTo { id } => RequestView::CameraTo(*id),
            IpcRequest::SetProperty { id, property } => RequestView::SetProperty(*id, property.view()),
            IpcRequest::ClearProperty { id, kind } => RequestView::ClearProperty(*id, *kind),
        }
    }
}

/// The `i`-th word, if there is one.
pub open spec fn word_at(ws: Seq<Seq<char>>, i: int) -> Option<Seq<char>> {
    if 0 <= i < ws.len() {
        Some(ws[i])
    } else {
        None
    }
}

/// A window id argument.
pub open spec fn window_id_arg(w: Option<Seq<char>>) -> Result<u64, Seq<char>> {
    match w {
        None => Err("window ID is required"@),
        Some(t) => match u64_text(t) {
            Some(v) => Ok(v),
            None => Err("window ID must be an unsigned integer"@),
        },
    }
}

/// An output id argument.
pub open spec fn output_id_arg(w: Option<Seq<char>>) -> Result<u64, Seq<char>> {
    match w {
        None => Err("output ID is required"@),
        Some(t) => match u64_text(t) {
            Some(v) => Ok(v),
            None => Err("output ID must be an unsigned integer"@),
        },
    }
}

/// A direction argument.
pub open spec fn direction_arg(w: Option<Seq<char>>) -> Result<Direction, Seq<char>> {
    match w {
        None => Err("direction is required"@),
        Some(t) => match direction_named(t) {
            Some(d) => Ok(d),
            None => Err("direction must be left, right, up, or down"@),
        },
    }
}

/// A property name and value. The value is checked for presence first.
pub open spec fn property_arg(name: Option<Seq<char>>, value: Option<Seq<char>>) -> Result<PropertyView, Seq<char>> {
    match value {
        None => Err("property value is required"@),
        Some(v) => match name {
            None => Err("property name is required"@),
            Some(n) => if n == "opacity"@ {
                if is_float_text(v) {
                    Ok(PropertyView::Opacity(v))
                } else {
                    Err("opacity must be a number"@)
                }
            } else if n == "floating"@ {
                match bool_text(v) {
                    Some(b) => Ok(PropertyView::Floating(b)),
                    None => Err("floating must be true or false"@),
                }
            } else if n == "blur"@ {
                match bool_text(v) {
                    Some(b) => Ok(PropertyView::Blur(b)),
                    None => Err("blur must be true or false"@),
                }
            } else {
                Err("property must be opacity, floating, or blur"@)
            },
        },
    }
}

/// A property kind argument.
pub open spec fn property_kind_arg(name: Option<Seq<char>>) -> Result<WindowPropertyKind, Seq<char>> {
    match name {
        None => Err("property name is required"@),
        Some(n) => if n == "opacity"@ {
            Ok(WindowPropertyKind::Opacity)
        } else if n == "floating"@ {
            Ok(WindowPropertyKind::Floating)
        } else if n == "blur"@ {
            Ok(WindowPropertyKind::Blur)
        } else {
            Err("property must be opacity, floating, or blur"@)
        },
    }
}

/// A command word and its arguments, before the check for extra words.
/// Returns the request and how many words it used.
pub open spec fn command_of(ws: Seq<Seq<char>>) -> Result<(RequestView, int), Seq<char>> {
    let c = ws[0];
    let a1 = word_at(ws, 1);
    let a2 = word_at(ws, 2);
    let a3 = word_at(ws, 3);
    if c == "quit"@ {
        Ok((RequestView::Quit, 1))
    } else if c == "state"@ {
        Ok((RequestView::State, 1))
    } else if c == "windows"@ {
        Ok((RequestView::Windows, 1))
    } else if c == "focused-window"@ {
        Ok((RequestView::FocusedWindow, 1))
    } else if c == "camera"@ {
        Ok((RequestView::Camera, 1))
    } else if c == "outputs"@ {
        Ok((RequestView::Outputs, 1))
    } else if c == "activate-output"@ {
        match output_id_arg(a1) {
            Ok(id) => Ok((RequestView::ActivateOutput(id), 2)),
            Err(e) => Err(e),
        }
    } else if c == "focus"@ || c == "toggle-floating"@ || c == "close"@ || c == "clear-opacity"@
        || c == "camera-to"@ {
        match window_id_arg(a1) {
            Ok(id) => Ok((
                if c == "focus"@ {
                    RequestView::Focus(id)
                } else if c == "toggle-floating"@ {
                    RequestView::ToggleFloating(id)
                } else if c == "close"@ {
                    RequestView::Close(id)
                } else if c == "clear-opacity"@ {
                    RequestView::ClearOpacity(id)
                } else {
                    RequestView::CameraTo(id)
                },
                2,
            )),
            Err(e) => Err(e),
        }
    } else if c == "camera-step"@ {
        match direction_arg(a1) {
            Ok(d) => Ok((RequestView::CameraStep(d), 2)),
            Err(e) => Err(e),
        }
    } else if c == "move-window"@ || c == "resize-window"@ {
        match window_id_arg(a1) {
            Err(e) => Err(e),
            Ok(id) => match direction_arg(a2) {
                Err(e) => Err(e),
                Ok(d) => Ok((
                    if c == "move-window"@ {
                        RequestView::MoveWindow(id, d)
                    } else {
                        RequestView::ResizeWindow(id, d)
                    },
                    3,
                )),
            },
        }
    } else if c == "set-opacity"@ {
        match window_id_arg(a1) {
            Err(e) => Err(e),
            Ok(id) => match a2 {
                None => Err("set-opacity requires ID and VALUE"@),
                Some(v) => if is_float_text(v) {
                    Ok((RequestView::SetOpacity(id, v), 3))
                } else {
                    Err("opacity must be a number"@)
                },
            },
        }
    } else if c == "set-property"@ {
        match window_id_arg(a1) {
            Err(e) => Err(e),
            Ok(id) => match property_arg(a2, a3) {
                Err(e) => Err(e),
                Ok(p) => Ok((RequestView::SetProperty(id, p), 4)),
            },
        }
    } else if c == "clear-property"@ {
        match window_id_arg(a1) {
            Err(e) => Err(e),
            Ok(id) => match property_kind_arg(a2) {
                Err(e) => Err(e),
                Ok(k) => Ok((RequestView::ClearProperty(id, k), 3)),
            },
        }
    } else {
        Err("unknown command"@)
    }
}

/// What a request line means: the request, or the error it is rejected with.
pub open spec fn request_of(line: Seq<char>) -> Result<RequestView, Seq<char>> {
    let ws = words(line);
    if ws.len() == 0 {
        Err("empty request"@)
    } else {
        match command_of(ws) {
            Err(e) => Err(e),
            Ok((request, used)) => if ws.len() > used {
                Err("too many arguments"@)
            } else {
                Ok(request)
            },
        }
    }
}

proof fn lemma_command_words()
    ensures
        "quit"@.len() == 4 && "quit"@[0] == 'q',
        "state"@.len() == 5 && "state"@[0] == 's',
        "windows"@.len() == 7 && "windows"@[0] == 'w',
        "focused-window"@.len() == 14 && "focused-window"@[0] == 'f',
        "camera"@.len() == 6 && "camera"@[0] == 'c',
        "outputs"@.len() == 7 && "outputs"@[0] == 'o',
        "activate-output"@.len() == 15 && "activate-output"@[0] == 'a',
        "focus"@.len() == 5 && "focus"@[0] == 'f',
        "toggle-floating"@.len() == 15 && "toggle-floating"@[0] == 't',
        "close"@.len() == 5 && "close"@[0] == 'c',
        "clear-opacity"@.len() == 13 && "clear-opacity"@[0] == 'c',
        "camera-to"@.len() == 9 && "camera-to"@[0] == 'c',
        "camera-step"@.len() == 11 && "camera-step"@[0] == 'c',
        "move-window"@.len() == 11 && "move-window"@[0] == 'm',
        "resize-window"@.len() == 13 && "resize-window"@[0] == 'r',
        "set-opacity"@.len() == 11 && "set-opacity"@[0] == 's',
        "set-property"@.len() == 12 && "set-property"@[0] == 's',
        "clear-property"@.len() == 14 && "clear-property"@[0] == 'c',
        "opacity"@.len() == 7 && "opacity"@[0] == 'o',
        "floating"@.len() == 8 && "floating"@[0] == 'f',
        "blur"@.len() == 4 && "blur"@[0] == 'b',
{
    reveal_strlit("quit");
    reveal_strlit("state");
    reveal_strlit("windows");
    reveal_strlit("focused-window");
    reveal_strlit("camera");
    reveal_strlit("outputs");
    reveal_strlit("activate-output");
    reveal_strlit("focus");
    reveal_strlit("toggle-floating");
    reveal_strlit("close");
    reveal_strlit("clear-opacity");
    reveal_strlit("camera-to");
    reveal_strlit("camera-step");
    reveal_strlit("move-window");
    reveal_strlit("resize-window");
    reveal_strlit("set-opacity");
    reveal_strlit("set-property");
    reveal_strlit("clear-property");
    reveal_strlit("opacity");
    reveal_strlit("floating");
    reveal_strlit("blur");
}

/// Each command word names its own request: a line of one word among the
/// read commands and `quit` asks for exactly that.
pub proof fn lemma_single_word_requests(line: Seq<char>)
    requires
        words(line).len() == 1,
    ensures
        words(line)[0] == "quit"@ ==> request_of(line) == Ok::<RequestView, Seq<char>>(RequestView::Quit),
        words(line)[0] == "state"@ ==> request_of(line) == Ok::<RequestView, Seq<char>>(RequestView::State),
        words(line)[0] == "windows"@ ==> request_of(line) == Ok::<RequestView, Seq<char>>(RequestView::Windows),
        words(line)[0] == "focused-window"@ ==> request_of(line) == Ok::<RequestView, Seq<char>>(
            RequestView::FocusedWindow,
        ),
        words(line)[0] == "camera"@ ==> request_of(line) == Ok::<RequestView, Seq<char>>(RequestView::Camera),
        words(line)[0] == "outputs"@ ==> request_of(line) == Ok::<RequestView, Seq<char>>(RequestView::Outputs),
{
    lemma_command_words();
}

/// A command word followed by an id names the request of that word on that
/// window (or output): `toggle-floating N` toggles window N's floating
/// state, and only `close N` closes it.
pub proof fn lemma_id_requests(line: Seq<char>, n: u64)
    requires
        words(line).len() == 2,
        u64_text(words(line)[1]) == Some(n),
    ensures
        words(line)[0] == "focus"@ ==> request_of(line) == Ok::<RequestView, Seq<char>>(RequestView::Focus(n)),
        words(line)[0] == "toggle-floating"@ ==> request_of(line) == Ok::<RequestView, Seq<char>>(
            RequestView::ToggleFloating(n),
        ),
        words(line)[0] == "close"@ ==> request_of(line) == Ok::<RequestView, Seq<char>>(RequestView::Close(n)),
        words(line)[0] == "clear-opacity"@ ==> request_of(line) == Ok::<RequestView, Seq<char>>(
            RequestView::ClearOpacity(n),
        ),
        words(line)[0] == "camera-to"@ ==> request_of(line) == Ok::<RequestView, Seq<char>>(
            RequestView::CameraTo(n),
        ),
        words(line)[0] == "activate-output"@ ==> request_of(line) == Ok::<RequestView, Seq<char>>(
            RequestView::ActivateOutput(n),
        ),
        request_of(line) matches Ok(RequestView::Close(m)) ==> m == n && words(line)[0] == "close"@,
        request_of(line) matches Ok(RequestView::ToggleFloating(m)) ==> m == n && words(line)[0]
            == "toggle-floating"@,
{
    lemma_command_words();
}

/// Direction words name their own direction, and only they name one.
pub proof fn lemma_direction_words(w: Seq<char>)
    ensures
        direction_named("left"@) == Some(Direction::Left),
        direction_named("right"@) == Some(Direction::Right),
        direction_named("up"@) == Some(Direction::Up),
        direction_named("down"@) == Some(Direction::Down),
        direction_named(w) is Some ==> w == "left"@ || w == "right"@ || w == "up"@ || w == "down"@,
{
    reveal_strlit("left");
    reveal_strlit("right");
    reveal_strlit("up");
    reveal_strlit("down");
    assert("left"@.len() == 4);
    assert("right"@.len() == 5);
    assert("up"@.len() == 2);
    assert("down"@.len() == 4);
    assert("left"@[0] == 'l');
    assert("down"@[0] == 'd');
}

/// Moving and resizing name the window, then the direction, of their words.
pub proof fn lemma_window_direction_requests(line: Seq<char>, n: u64, d: Direction)
    requires
        u64_text(words(line)[1]) == Some(n),
        direction_named(words(line)[2]) == Some(d),
        words(line).len() == 3,
    ensures
        words(line)[0] == "move-window"@ ==> request_of(line) == Ok::<RequestView, Seq<char>>(
            RequestView::MoveWindow(n, d),
        ),
        words(line)[0] == "resize-window"@ ==> request_of(line) == Ok::<RequestView, Seq<char>>(
            RequestView::ResizeWindow(n, d),
        ),
{
    lemma_command_words();
}

/// Setting a property names the window, the property and the value written.
pub proof fn lemma_set_property_requests(line: Seq<char>, n: u64, b: bool)
    requires
        words(line).len() == 4,
        words(line)[0] == "set-property"@,
        u64_text(words(line)[1]) == Some(n),
        bool_text(words(line)[3]) == Some(b),
    ensures
        words(line)[2] == "blur"@ ==> request_of(line) == Ok::<RequestView, Seq<char>>(
            RequestView::SetProperty(n, PropertyView::Blur(b)),
        ),
        words(line)[2] == "floating"@ ==> request_of(line) == Ok::<RequestView, Seq<char>>(
            RequestView::SetProperty(n, PropertyView::Floating(b)),
        ),
{
    lemma_command_words();
}

/// The remaining commands keep what their words say: `camera-step DIR`
/// steps the camera that way, `set-opacity N V` and `set-property N opacity V`
/// give window N the number V as written, and `clear-property N KIND`
/// clears that kind on window N.
pub proof fn lemma_argument_requests(line: Seq<char>, n: u64)
    requires
        words(line).len() >= 2,
    ensures
        words(line).len() == 2 && words(line)[0] == "camera-step"@ && direction_named(words(line)[1]) is Some
            ==> request_of(line) == Ok::<RequestView, Seq<char>>(
            RequestView::CameraStep(direction_named(words(line)[1])->0),
        ),
        words(line).len() == 3 && words(line)[0] == "set-opacity"@ && u64_text(words(line)[1]) == Some(n)
            && is_float_text(words(line)[2]) ==> request_of(line) == Ok::<RequestView, Seq<char>>(
            RequestView::SetOpacity(n, words(line)[2]),
        ),
        words(line).len() == 4 && words(line)[0] == "set-property"@ && u64_text(words(line)[1]) == Some(n)
            && words(line)[2] == "opacity"@ && is_float_text(words(line)[3]) ==> request_of(line) == Ok::<
            RequestView,
            Seq<char>,
        >(RequestView::SetProperty(n, PropertyView::Opacity(words(line)[3]))),
        words(line).len() == 3 && words(line)[0] == "clear-property"@ && u64_text(words(line)[1]) == Some(n)
            ==> {
            &&& words(line)[2] == "opacity"@ ==> request_of(line) == Ok::<RequestView, Seq<char>>(
                RequestView::ClearProperty(n, WindowPropertyKind::Opacity),
            )
            &&& words(line)[2] == "floating"@ ==> request_of(line) == Ok::<RequestView, Seq<char>>(
                RequestView::ClearProperty(n, WindowPropertyKind::Floating),
            )
            &&& words(line)[2] == "blur"@ ==> request_of(line) == Ok::<RequestView, Seq<char>>(
                RequestView::ClearProperty(n, WindowPropertyKind::Blur),
            )
        },
{
    lemma_command_words();
}

/// A request means the same whatever spacing separates its words.
pub proof fn lemma_requests_depend_on_words(s: Seq<char>, t: Seq<char>)
    requires
        words(s) == words(t),
    ensures
        request_of(s) == request_of(t),
{
}

proof fn lemma_command_ignores_a_further_word(ws: Seq<Seq<char>>, w: Seq<char>)
    requires
        ws.len() > 0,
        command_of(ws) is Ok,
    ensures
        command_of(ws)->Ok_0.1 <= ws.len(),
        command_of(ws)->Ok_0.1 == ws.len() ==> command_of(ws.push(w)) == command_of(ws),
{
    let longer = ws.push(w);
    assert(longer[0] == ws[0]);
    assert(forall|i: int| 0 <= i < ws.len() ==> word_at(longer, i) == word_at(ws, i));
    assert(word_at(longer, 1) == if 1 < ws.len() { word_at(ws, 1) } else if ws.len() == 1 { Some(w) } else { None });
}

/// A request that is accepted is refused once a further word follows it.
pub proof fn lemma_extra_word_is_refused(s: Seq<char>, x: char)
    requires
        request_of(s) is Ok,
        !crate::text::is_space(x),
    ensures
        request_of(s + seq![' ', x]) == Err::<RequestView, Seq<char>>("too many arguments"@),
{
    let t = s + seq![' ', x];
    assert(t.drop_last() =~= s + seq![' ']);
    assert((s + seq![' ']).drop_last() =~= s);
    assert(words(s + seq![' ']) == words(s));
    assert(words(t) == words(s).push(seq![x]));
    lemma_command_ignores_a_further_word(words(s), seq![x]);
}

/// The word at `i`, as characters.
fn word(ws: &Vec<Vec<char>>, i: usize) -> (w: Option<Vec<char>>)
    ensures
        match word_at(ws@.map_values(|x: Vec<char>| x@), i as int) {
            None => w is None,
            Some(t) => w matches Some(v) && v@ == t,
        },
{
    if i < ws.len() {
        Some(ws[i].clone())
    } else {
        None
    }
}

fn window_id(w: &Option<Vec<char>>) -> (r: Result<u64, &'static str>)
    ensures
        match window_id_arg(match w { Some(v) => Some(v@), None => None }) {
            Ok(id) => r == Ok::<u64, &'static str>(id),
            Err(e) => r matches Err(m) && m@ == e,
        },
{
    match w {
        None => Err("window ID is required"),
        Some(t) => match parse_u64(t) {
            Some(v) => Ok(v),
            None => Err("window ID must be an unsigned integer"),
        },
    }
}

fn output_id(w: &Option<Vec<char>>) -> (r: Result<u64, &'static str>)
    ensures
        match output_id_arg(match w { Some(v) => Some(v@), None => None }) {
            Ok(id) => r == Ok::<u64, &'static str>(id),
            Err(e) => r matches Err(m) && m@ == e,
        },
{
    match w {
        None => Err("output ID is required"),
        Some(t) => match parse_u64(t) {
            Some(v) => Ok(v),
            None => Err("output ID must be an unsigned integer"),
        },
    }
}

fn direction(w: &Option<Vec<char>>) -> (r: Result<Direction, &'static str>)
    ensures
        match direction_arg(match w { Some(v) => Some(v@), None => None }) {
            Ok(d) => r == Ok::<Direction, &'static str>(d),
            Err(e) => r matches Err(m) && m@ == e,
        },
{
    match w {
        None => Err("direction is required"),
        Some(t) => match parse_direction(t) {
            Some(d) => Ok(d),
            None => Err("direction must be left, right, up, or down"),
        },
    }
}

fn property(name: &Option<Vec<char>>, value: &Option<Vec<char>>) -> (r: Result<WindowProperty, &'static str>)
    ensures
        match property_arg(
            match name { Some(v) => Some(v@), None => None },
            match value { Some(v) => Some(v@), None => None },
        ) {
            Ok(p) => r matches Ok(q) && q.view() == p,
            Err(e) => r matches Err(m) && m@ == e,
        },
{
    let v = match value {
        None => return Err("property value is required"),
        Some(v) => v,
    };
    let n = match name {
        None => return Err("property name is required"),
        Some(n) => n,
    };
    if is_word(n, "opacity") {
        if float_text_ok(v) {
            Ok(WindowProperty::Opacity(crate::text::string_of(v)))
        } else {
            Err("opacity must be a number")
        }
    } else if is_word(n, "floating") {
        match parse_bool(v) {
            Some(b) => Ok(WindowProperty::Floating(b)),
            None => Err("floating must be true or false"),
        }
    } else if is_word(n, "blur") {
        match parse_bool(v) {
            Some(b) => Ok(WindowProperty::Blur(b)),
            None => Err("blur must be true or false"),
        }
    } else {
        Err("property must be opacity, floating, or blur")
    }
}

fn property_kind(name: &Option<Vec<char>>) -> (r: Result<WindowPropertyKind, &'static str>)
    ensures
        match property_kind_arg(match name { Some(v) => Some(v@), None => None }) {
            Ok(k) => r == Ok::<WindowPropertyKind, &'static str>(k),
            Err(e) => r matches Err(m) && m@ == e,
        },
{
    match name {
        None => Err("property name is required"),
        Some(n) => if is_word(n, "opacity") {
            Ok(WindowPropertyKind::Opacity)
        } else if is_word(n, "floating") {
            Ok(WindowPropertyKind::Floating)
        } else if is_word(n, "blur") {
            Ok(WindowPropertyKind::Blur)
        } else {
            Err("property must be opacity, floating, or blur")
        },
    }
}

fn command(ws: &Vec<Vec<char>>) -> (r: Result<(IpcRequest, usize), &'static str>)
    requires
        ws@.len() > 0,
    ensures
        match command_of(ws@.map_values(|x: Vec<char>| x@)) {
            Ok((request, used)) => r matches Ok((q, n)) && q.view() == request && n == used,
            Err(e) => r matches Err(m) && m@ == e,
        },
{
    let ghost views = ws@.map_values(|x: Vec<char>| x@);
    let c = &ws[0];
    assert(c@ == views[0]);
    let a1 = word(ws, 1);
    let a2 = word(ws, 2);
    let a3 = word(ws, 3);
    if is_word(c, "quit") {
        Ok((IpcRequest::Quit, 1))
    } else if is_word(c, "state") {
        Ok((IpcRequest::State, 1))
    } else if is_word(c, "windows") {
        Ok((IpcRequest::Windows, 1))
    } else if is_word(c, "focused-window") {
        Ok((IpcRequest::FocusedWindow, 1))
    } else if is_word(c, "camera") {
        Ok((IpcRequest::Camera, 1))
    } else if is_word(c, "outputs") {
        Ok((IpcRequest::Outputs, 1))
    } else if is_word(c, "activate-output") {
        let id = output_id(&a1)?;
        Ok((IpcRequest::ActivateOutput { id }, 2))
    } else if is_word(c, "focus") {
        let id = window_id(&a1)?;
        Ok((IpcRequest::Focus { id }, 2))
    } else if is_word(c, "toggle-floating") {
        let id = window_id(&a1)?;
        Ok((IpcRequest::ToggleFloating { id }, 2))
    } else if is_word(c, "close") {
        let id = window_id(&a1)?;
        Ok((IpcRequest::Close { id }, 2))
    } else if is_word(c, "clear-opacity") {
        let id = window_id(&a1)?;
        Ok((IpcRequest::ClearOpacity { id }, 2))
    } else if is_word(c, "camera-to") {
        let id = window_id(&a1)?;
        Ok((IpcRequest::CameraTo { id }, 2))
    } else if is_word(c, "camera-step") {
        let d = direction(&a1)?;
        Ok((IpcRequest::CameraStep { direction: d }, 2))
    } else if is_word(c, "move-window") {
        let id = window_id(&a1)?;
        let d = direction(&a2)?;
        Ok((IpcRequest::MoveWindow { id, direction: d }, 3))
    } else if is_word(c, "resize-window") {
        let id = window_id(&a1)?;
        let d = direction(&a2)?;
        Ok((IpcRequest::ResizeWindow { id, direction: d }, 3))
    } else if is_word(c, "set-opacity") {
        let id = window_id(&a1)?;
        match a2 {
            None => Err("set-opacity requires ID and VALUE"),
            Some(v) => if float_text_ok(&v) {
                Ok((IpcRequest::SetOpacity { id, opacity: crate::text::string_of(&v) }, 3))
            } else {
                Err("opacity must be a number")
            },
        }
    } else if is_word(c, "set-property") {
        let id = window_id(&a1)?;
        let p = property(&a2, &a3)?;
        Ok((IpcRequest::SetProperty { id, property: p }, 4))
    } else if is_word(c, "clear-property") {
        let id = window_id(&a1)?;
        let k = property_kind(&a2)?;
        Ok((IpcRequest::ClearProperty { id, kind: k }, 3))
    } else {
        Err("unknown command")
    }
}

/// Parses one request line.
pub fn parse_request(request: &str) -> (parsed: Result<IpcRequest, &'static str>)
    ensures
        match request_of(request@) {
            Ok(r) => parsed matches Ok(q) && q.view() == r,
            Err(e) => parsed matches Err(m) && m@ == e,
        },
{
    let chars = crate::text::chars_of(request);
    let ws = split_words(&chars);
    if ws.len() == 0 {
        return Err("empty request");
    }
    let (parsed, used) = command(&ws)?;
    if ws.len() > used {
        return Err("too many arguments");
    }
    Ok(parsed)
}

/// The JSON escape of one character.
pub open spec fn escape_char(c: char) -> Seq<char> {
    if c == '"' {
        seq!['\\', '"']
    } else if c == '\\' {
        seq!['\\', '\\']
    } else if c == '\n' {
        seq!['\\', 'n']
    } else if c == '\r' {
        seq!['\\', 'r']
    } else if c == '\t' {
        seq!['\\', 't']
    } else {
        seq![c]
    }
}

/// `s` with quotes, backslashes, newlines, carriage returns and tabs escaped
/// for a JSON string.
pub open spec fn escaped(s: Seq<char>) -> Seq<char>
    decreases s.len(),
{
    if s.len() == 0 {
        Seq::empty()
    } else {
        escaped(s.drop_last()) + escape_char(s.last())
    }
}

fn push_escaped_char(out: &mut String, c: char)
    ensures
        final(out)@ == old(out)@ + escape_char(c),
{
    if c == '"' {
        push_char(out, '\\');
        push_char(out, '"');
    } else if c == '\\' {
        push_char(out, '\\');
        push_char(out, '\\');
    } else if c == '\n' {
        push_char(out, '\\');
        push_char(out, 'n');
    } else if c == '\r' {
        push_char(out, '\\');
        push_char(out, 'r');
    } else if c == '\t' {
        push_char(out, '\\');
        push_char(out, 't');
    } else {
        push_char(out, c);
    }
    assert(final(out)@ =~= old(out)@ + escape_char(c));
}

fn push_escaped(out: &mut String, value: &Vec<char>)
    ensures
        final(out)@ == old(out)@ + escaped(value@),
{
    let mut i: usize = 0;
    while i < value.len()
        invariant
            i <= value.len(),
            out@ == old(out)@ + escaped(value@.take(i as int)),
        decreases value.len() - i,
    {
        assert(value@.take(i as int + 1).drop_last() == value@.take(i as int));
        push_escaped_char(out, value[i]);
        assert(out@ =~= old(out)@ + escaped(value@.take(i as int + 1)));
        i = i + 1;
    }
    assert(value@.take(value.len() as int) == value@);
}

/// Escapes text for a JSON string.
pub fn escape_json(value: &str) -> (escaped_value: String)
    ensures
        escaped_value@ == escaped(value@),
{
    let chars = crate::text::chars_of(value);
    let mut out = String::new();
    push_escaped(&mut out, &chars);
    out
}

/// The character a JSON escape `\\c` stands for, among those [`escaped`]
/// writes; `None` for any other.
pub open spec fn unescape_char(c: char) -> Option<char> {
    if c == '"' {
        Some('"')
    } else if c == '\\' {
        Some('\\')
    } else if c == 'n' {
        Some('\n')
    } else if c == 'r' {
        Some('\r')
    } else if c == 't' {
        Some('\t')
    } else {
        None
    }
}

/// Reads escaped JSON string text left to right: a backslash and one of
/// `"`, `\\`, `n`, `r`, `t` stand for a quote, backslash, newline, carriage
/// return or tab; anything else stands for itself.
pub open spec fn unescaped(s: Seq<char>) -> Seq<char>
    decreases s.len(),
{
    if s.len() == 0 {
        Seq::empty()
    } else if s.len() >= 2 && s[0] == '\\' && unescape_char(s[1]) is Some {
        seq![unescape_char(s[1])->Some_0] + unescaped(s.skip(2))
    } else {
        seq![s[0]] + unescaped(s.skip(1))
    }
}

proof fn lemma_escaped_concat(a: Seq<char>, b: Seq<char>)
    ensures
        escaped(a + b) == escaped(a) + escaped(b),
    decreases b.len(),
{
    if b.len() == 0 {
        assert(a + b =~= a);
        assert(escaped(b) =~= Seq::<char>::empty());
        assert(escaped(a) + escaped(b) =~= escaped(a));
    } else {
        assert((a + b).drop_last() =~= a + b.drop_last());
        assert((a + b).last() == b.last());
        lemma_escaped_concat(a, b.drop_last());
        assert(escaped(a + b) =~= escaped(a) + escaped(b));
    }
}

/// Reading escaped text back gives the text that was escaped.
pub proof fn lemma_unescape_escaped(s: Seq<char>)
    ensures
        unescaped(escaped(s)) == s,
    decreases s.len(),
{
    if s.len() > 0 {
        let first = s[0];
        let rest = s.skip(1);
        assert(s =~= seq![first] + rest);
        lemma_escaped_concat(seq![first], rest);
        assert(seq![first].drop_last() =~= Seq::<char>::empty());
        assert(seq![first].last() == first);
        assert(escaped(Seq::<char>::empty()) =~= Seq::<char>::empty());
        assert(escaped(seq![first]) == escaped(Seq::<char>::empty()) + escape_char(first));
        assert(escaped(seq![first]) =~= escape_char(first));
        let e = escaped(s);
        assert(e =~= escape_char(first) + escaped(rest));
        lemma_unescape_escaped(rest);
        if escape_char(first).len() == 2 {
            assert(e.skip(2) =~= escaped(rest));
        } else {
            assert(e.skip(1) =~= escaped(rest));
        }
        assert(unescaped(e) =~= s);
    }
}

/// Escaped text holds no newline, carriage return or tab.
pub proof fn lemma_escaped_has_no_line_breaks(s: Seq<char>)
    ensures
        !escaped(s).contains('\n'),
        !escaped(s).contains('\r'),
        !escaped(s).contains('\t'),
    decreases s.len(),
{
    if s.len() > 0 {
        lemma_escaped_has_no_line_breaks(s.drop_last());
        let e = escaped(s);
        let a = escaped(s.drop_last());
        let b = escape_char(s.last());
        assert forall|i: int| 0 <= i < e.len() implies e[i] != '\n' && e[i] != '\r' && e[i] != '\t' by {
            if i < a.len() {
                assert(e[i] == a[i]);
            } else {
                assert(e[i] == b[i - a.len()]);
            }
        }
    }
}

/// A JSON string literal, or `null`.
pub open spec fn json_string_text(value: Option<Seq<char>>) -> Seq<char> {
    match value {
        None => "null"@,
        Some(v) => seq!['"'] + escaped(v) + seq!['"'],
    }
}

/// A JSON string literal for `value`, or `null` when there is none.
pub fn json_string(value: Option<&str>) -> (json: String)
    ensures
        json@ == json_string_text(
            match value {
                Some(v) => Some(v@),
                None => None,
            },
        ),
{
    match value {
        None => crate::text::owned("null"),
        Some(v) => {
            let mut out = String::new();
            push_char(&mut out, '"');
            let chars = crate::text::chars_of(v);
            push_escaped(&mut out, &chars);
            push_char(&mut out, '"');
            assert(out@ =~= seq!['"'] + escaped(v@) + seq!['"']);
            out
        },
    }
}

/// The JSON answer to a rejected request.
pub open spec fn error_text(error: Seq<char>) -> Seq<char> {
    "{\"ok\":false,\"error\":\""@ + escaped(error) + "\"}"@
}

/// The JSON answer to a rejected request.
pub fn error_response(error: &str) -> (response: String)
    ensures
        response@ == error_text(error@),
{
    let mut out = crate::text::owned("{\"ok\":false,\"error\":\"");
    let chars = crate::text::chars_of(error);
    push_escaped(&mut out, &chars);
    let tail = crate::text::chars_of("\"}");
    crate::text::push_chars(&mut out, &tail);
    out
}

/// The answer to a request that names a window Mio does not manage.
pub fn unknown_window_response(id: u64) -> (response: String)
    ensures
        response@ == error_text("unknown window "@ + crate::text::decimal(id as nat)),
{
    let mut message = crate::text::chars_of("unknown window ");
    let mut digits = crate::text::decimal_of(id);
    message.append(&mut digits);
    let text = crate::text::string_of(&message);
    error_response(text.as_str())
}

/// The name a presentation has in JSON.
pub open spec fn presentation_text(presentation: Presentation) -> Seq<char> {
    match presentation {
        Presentation::Normal => "normal"@,
        Presentation::Maximized => "maximized"@,
        Presentation::Fullscreen => "fullscreen"@,
    }
}

/// The name a presentation has in JSON.
pub fn presentation_name(presentation: Presentation) -> (name: &'static str)
    ensures
        name@ == presentation_text(presentation),
{
    match presentation {
        Presentation::Normal => "normal",
        Presentation::Maximized => "maximized",
        Presentation::Fullscreen => "fullscreen",
    }
}

/// Why a framed request was refused.
#[derive(Clone, Copy, Debug, PartialEq, Eq, Structural)]
pub enum FrameError {
    /// The request is longer than [`MAX_REQUEST_BYTES`].
    TooLong,
}

/// The request carried by the bytes read up to the first newline (at most
/// `MAX_REQUEST_BYTES + 2` of them): one trailing newline is dropped, and a
/// request still longer than the limit is refused.
pub fn frame_request(received: Vec<u8>) -> (request: Result<Vec<u8>, FrameError>)
    ensures
        ({
            let body = if received@.len() > 0 && received@.last() == 10u8 {
                received@.drop_last()
            } else {
                received@
            };
            if body.len() > MAX_REQUEST_BYTES {
                request == Err::<Vec<u8>, FrameError>(FrameError::TooLong)
            } else {
                request matches Ok(b) && b@ == body
            }
        }),
{
    let mut bytes = received;
    if bytes.len() > 0 && bytes[bytes.len() - 1] == 10u8 {
        bytes.pop();
    }
    if bytes.len() > MAX_REQUEST_BYTES {
        return Err(FrameError::TooLong);
    }
    Ok(bytes)
}

/// The message a refused frame is answered with.
pub fn frame_error_message(error: FrameError) -> (message: &'static str)
    ensures
        message@ == "request exceeds 4096 bytes"@,
{
    match error {
        FrameError::TooLong => "request exceeds 4096 bytes",
    }
}

/// The size one `resize-window` step gives: one cell narrower, wider,
/// shorter or taller, without going below zero or past the largest size.
pub open spec fn resized_size(width: u64, height: u64, direction: Direction) -> (u64, u64) {
    match direction {
        Direction::Left => (if width > 0 { (width - 1) as u64 } else { 0u64 }, height),
        Direction::Right => (if width < u64::MAX { (width + 1) as u64 } else { u64::MAX }, height),
        Direction::Up => (width, if height > 0 { (height - 1) as u64 } else { 0u64 }),
        Direction::Down => (width, if height < u64::MAX { (height + 1) as u64 } else { u64::MAX }),
    }
}

/// Left and right steps change the width alone and up and down steps the
/// height alone; a step right undoes a step left from a nonzero width (and
/// a step left undoes one right below the largest width), and likewise down
/// and up for the height.
pub proof fn lemma_resize_steps_undo(width: u64, height: u64)
    ensures
        resized_size(width, height, Direction::Left).1 == height,
        resized_size(width, height, Direction::Right).1 == height,
        resized_size(width, height, Direction::Up).0 == width,
        resized_size(width, height, Direction::Down).0 == width,
        resized_size(width, height, Direction::Left).0 <= width <= resized_size(width, height, Direction::Right).0,
        resized_size(width, height, Direction::Up).1 <= height <= resized_size(width, height, Direction::Down).1,
        width > 0 ==> ({
            let (w, h) = resized_size(width, height, Direction::Left);
            resized_size(w, h, Direction::Right) == (width, height)
        }),
        width < u64::MAX ==> ({
            let (w, h) = resized_size(width, height, Direction::Right);
            resized_size(w, h, Direction::Left) == (width, height)
        }),
        height > 0 ==> ({
            let (w, h) = resized_size(width, height, Direction::Up);
            resized_size(w, h, Direction::Down) == (width, height)
        }),
        height < u64::MAX ==> ({
            let (w, h) = resized_size(width, height, Direction::Down);
            resized_size(w, h, Direction::Up) == (width, height)
        }),
{
}

/// The size a `resize-window` request asks for: one cell narrower, wider,
/// shorter or taller, without going below zero or past the largest size.
pub fn resized_by_one(width: u64, height: u64, direction: Direction) -> (size: (u64, u64))
    ensures
        size == resized_size(width, height, direction),
{
    match direction {
        Direction::Left => (width.saturating_sub(1), height),
        Direction::Right => (width.saturating_add(1), height),
        Direction::Up => (width, height.saturating_sub(1)),
        Direction::Down => (width, height.saturating_add(1)),
    }
}

/// What Mio does for a parsed IPC request: answer a read request, stop, or
/// apply one action to the world. The opacity aliases are the general
/// property actions on opacity.
#[derive(Clone, Debug, PartialEq)]
pub enum IpcStep {
    ReadState,
    ReadWindows,
    ReadFocusedWindow,
    ReadCamera,
    ReadOutputs,
    Quit,
    ActivateOutput(u64),
    FocusWindow(u64),
    CameraStep(Direction),
    MoveWindow(u64, Direction),
    ResizeWindow(u64, Direction),
    ToggleFloating(u64),
    CloseWindow(u64),
    SetProperty(u64, WindowProperty),
    ClearProperty(u64, WindowPropertyKind),
    CameraCenter(u64),
}

/// The step for each request.
pub open spec fn ipc_step_of(request: IpcRequest) -> IpcStep {
    match request {
        IpcRequest::Quit => IpcStep::Quit,
        IpcRequest::State => IpcStep::ReadState,
        IpcRequest::Windows => IpcStep::ReadWindows,
        IpcRequest::FocusedWindow => IpcStep::ReadFocusedWindow,
        IpcRequest::Camera => IpcStep::ReadCamera,
        IpcRequest::Outputs => IpcStep::ReadOutputs,
        IpcRequest::ActivateOutput { id } => IpcStep::ActivateOutput(id),
        IpcRequest::Focus { id } => IpcStep::FocusWindow(id),
        IpcRequest::CameraStep { direction } => IpcStep::CameraStep(direction),
        IpcRequest::MoveWindow { id, direction } => IpcStep::MoveWindow(id, direction),
        IpcRequest::ResizeWindow { id, direction } => IpcStep::ResizeWindow(id, direction),
        IpcRequest::ToggleFloating { id } => IpcStep::ToggleFloating(id),
        IpcRequest::Close { id } => IpcStep::CloseWindow(id),
        IpcRequest::SetOpacity { id, opacity } => IpcStep::SetProperty(id, WindowProperty::Opacity(opacity)),
        IpcRequest::ClearOpacity { id } => IpcStep::ClearProperty(id, WindowPropertyKind::Opacity),
        IpcRequest::CameraTo { id } => IpcStep::CameraCenter(id),
        IpcRequest::SetProperty { id, property } => IpcStep::SetProperty(id, property),
        IpcRequest::ClearProperty { id, kind } => IpcStep::ClearProperty(id, kind),
    }
}

/// The opacity requests are the property requests on opacity: setting
/// opacity V on window N does what setting property `opacity` V does, and
/// clearing it what clearing property `opacity` does. Every step that acts
/// on a window acts on the window the request names.
pub proof fn lemma_opacity_requests_are_property_requests(id: u64, opacity: String)
    ensures
        ipc_step_of(IpcRequest::SetOpacity { id, opacity }) == ipc_step_of(
            IpcRequest::SetProperty { id, property: WindowProperty::Opacity(opacity) },
        ),
        ipc_step_of(IpcRequest::ClearOpacity { id }) == ipc_step_of(
            IpcRequest::ClearProperty { id, kind: WindowPropertyKind::Opacity },
        ),
        ipc_step_of(IpcRequest::Focus { id }) == IpcStep::FocusWindow(id),
        ipc_step_of(IpcRequest::Close { id }) == IpcStep::CloseWindow(id),
        ipc_step_of(IpcRequest::ToggleFloating { id }) == IpcStep::ToggleFloating(id),
        ipc_step_of(IpcRequest::CameraTo { id }) == IpcStep::CameraCenter(id),
{
}

/// Decides what Mio does for a parsed IPC request.
pub fn ipc_step(request: IpcRequest) -> (step: IpcStep)
    ensures
        step == ipc_step_of(request),
{
    match request {
        IpcRequest::Quit => IpcStep::Quit,
        IpcRequest::State => IpcStep::ReadState,
        IpcRequest::Windows => IpcStep::ReadWindows,
        IpcRequest::FocusedWindow => IpcStep::ReadFocusedWindow,
        IpcRequest::Camera => IpcStep::ReadCamera,
        IpcRequest::Outputs => IpcStep::ReadOutputs,
        IpcRequest::ActivateOutput { id } => IpcStep::ActivateOutput(id),
        IpcRequest::Focus { id } => IpcStep::FocusWindow(id),
        IpcRequest::CameraStep { direction } => IpcStep::CameraStep(direction),
        IpcRequest::MoveWindow { id, direction } => IpcStep::MoveWindow(id, direction),
        IpcRequest::ResizeWindow { id, direction } => IpcStep::ResizeWindow(id, direction),
        IpcRequest::ToggleFloating { id } => IpcStep::ToggleFloating(id),
        IpcRequest::Close { id } => IpcStep::CloseWindow(id),
        IpcRequest::SetOpacity { id, opacity } => IpcStep::SetProperty(id, WindowProperty::Opacity(opacity)),
        IpcRequest::ClearOpacity { id } => IpcStep::ClearProperty(id, WindowPropertyKind::Opacity),
        IpcRequest::CameraTo { id } => IpcStep::CameraCenter(id),
        IpcRequest::SetProperty { id, property } => IpcStep::SetProperty(id, property),
        IpcRequest::ClearProperty { id, kind } => IpcStep::ClearProperty(id, kind),
    }
}

} // verus!
