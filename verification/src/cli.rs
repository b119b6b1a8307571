//! Command lines: the `mioctl` client and the compositor's own options.

use vstd::prelude::*;
use vstd::string::StringSliceAdditionalSpecFns;

use crate::text::{is_word, starts_with};
use crate::words::{parse_u64, u64_text};

verus! {

/// Whether a response reports a failed request.
pub open spec fn is_error_response(response: Seq<char>) -> bool {
    let prefix = "{\"ok\":false"@;
    prefix.len() <= response.len() && response.take(prefix.len() as int) == prefix
}

/// Whether a `mioctl` response reports that Mio rejected the request.
pub fn response_is_error(response: &str) -> (error: bool)
    ensures
        error == is_error_response(response@),
{
    let chars = crate::text::chars_of(response);
    let prefix = crate::text::chars_of("{\"ok\":false");
    starts_with(&chars, &prefix)
}

/// Whether an argument asks for help.
pub fn is_help(argument: &str) -> (help: bool)
    ensures
        help == (argument@ == "--help"@ || argument@ == "-h"@ || argument@ == "help"@),
{
    let chars = crate::text::chars_of(argument);
    is_word(&chars, "--help") || is_word(&chars, "-h") || is_word(&chars, "help")
}

/// Whether an argument asks for the version.
pub fn is_version(argument: &str) -> (version: bool)
    ensures
        version == (argument@ == "--version"@ || argument@ == "-V"@),
{
    let chars = crate::text::chars_of(argument);
    is_word(&chars, "--version") || is_word(&chars, "-V")
}

/// `words` joined by single spaces.
pub open spec fn joined(words: Seq<Seq<char>>) -> Seq<char>
    decreases words.len(),
{
    if words.len() == 0 {
        Seq::empty()
    } else if words.len() == 1 {
        words[0]
    } else {
        joined(words.drop_last()) + seq![' '] + words.last()
    }
}

/// The request line `mioctl` sends: its command words joined by spaces.
pub fn join_words(words: &Vec<String>) -> (line: String)
    ensures
        line@ == joined(words@.map_values(|w: String| w@)),
{
    let ghost views = words@.map_values(|w: String| w@);
    let mut line = String::new();
    let mut i: usize = 0;
    while i < words.len()
        invariant
            i <= words.len(),
            views == words@.map_values(|w: String| w@),
            line@ == joined(views.take(i as int)),
        decreases words.len() - i,
    {
        assert(views.take(i as int + 1).drop_last() == views.take(i as int));
        assert(views.take(i as int + 1).last() == words@[i as int]@);
        if i > 0 {
            crate::text::push_char(&mut line, ' ');
        } else {
            assert(views.take(1) =~= seq![views[0]]);
        }
        let chars = crate::text::chars_of(words[i].as_str());
        crate::text::push_chars(&mut line, &chars);
        i = i + 1;
    }
    assert(views.take(words.len() as int) == views);
    line
}

/// The usage text of `mioctl`.
pub fn usage() -> (usage: &'static str)
    ensures
        usage@ == "Usage: mioctl [--socket PATH] COMMAND [ARG ...]\n\nRead commands:\n  state | windows | focused-window | camera | outputs\n\nCompositor command:\n  quit\n\nAction commands:\n  activate-output ID\n  focus ID | camera-to ID | close ID | toggle-floating ID\n  camera-step DIR | move-window ID DIR | resize-window ID DIR\n  set-property ID opacity FLOAT\n  set-property ID floating BOOL\n  set-property ID blur BOOL\n  clear-property ID opacity|floating|blur\n  set-opacity ID FLOAT | clear-opacity ID (compatibility aliases)\n\nDIR is left, right, up, or down. BOOL is true or false.\nWithout --socket, MIO_SOCKET selects the Mio instance.\nUse --version or -V to show the mioctl version.\n"@,
{
    "Usage: mioctl [--socket PATH] COMMAND [ARG ...]\n\nRead commands:\n  state | windows | focused-window | camera | outputs\n\nCompositor command:\n  quit\n\nAction commands:\n  activate-output ID\n  focus ID | camera-to ID | close ID | toggle-floating ID\n  camera-step DIR | move-window ID DIR | resize-window ID DIR\n  set-property ID opacity FLOAT\n  set-property ID floating BOOL\n  set-property ID blur BOOL\n  clear-property ID opacity|floating|blur\n  set-opacity ID FLOAT | clear-opacity ID (compatibility aliases)\n\nDIR is left, right, up, or down. BOOL is true or false.\nWithout --socket, MIO_SOCKET selects the Mio instance.\nUse --version or -V to show the mioctl version.\n"
}

/// A command-line argument: its raw bytes, and its text when it is UTF-8.
#[derive(Clone, Debug)]
pub struct OsArg {
    pub bytes: Vec<u8>,
    pub text: Option<String>,
}

/// The mathematical form of an argument.
pub open spec fn arg_text(arg: OsArg) -> Option<Seq<char>> {
    match arg.text {
        Some(t) => Some(t@),
        None => None,
    }
}

/// Whether the argument is the UTF-8 text `word`.
pub open spec fn arg_is(arg: OsArg, word: Seq<char>) -> bool {
    arg_text(arg) == Some(word)
}

fn arg_equals(arg: &OsArg, word: &str) -> (r: bool)
    ensures
        r == arg_is(*arg, word@),
{
    match &arg.text {
        Some(t) => {
            let chars = crate::text::chars_of(t.as_str());
            is_word(&chars, word)
        },
        None => false,
    }
}

/// The display backend the compositor drives.
#[derive(Clone, Copy, Debug, Default, PartialEq, Eq, Structural)]
pub enum BackendKind {
    #[default]
    Winit,
    Udev,
}

impl BackendKind {
    /// The name of the backend, as `MIO_BACKEND` and the options spell it.
    pub fn name(self) -> (name: &'static str)
        ensures
            name@ == match self {
                BackendKind::Winit => "winit"@,
                BackendKind::Udev => "udev"@,
            },
    {
        match self {
            BackendKind::Winit => "winit",
            BackendKind::Udev => "udev",
        }
    }
}

/// The compositor's command-line options.
#[derive(Clone, Debug)]
pub struct Options {
    pub backend: BackendKind,
    /// The program to start inside Mio, as raw bytes.
    pub command: Option<Vec<u8>>,
    /// The configuration file, as raw path bytes.
    pub config_path: Option<Vec<u8>>,
    pub explicit_config: bool,
    pub check_config: bool,
    pub xwayland_satellite: bool,
    pub xwayland_display: String,
    pub virtual_outputs: usize,
}

/// The mathematical form of [`Options`].
pub struct OptionsView {
    pub backend: BackendKind,
    pub command: Option<Seq<u8>>,
    pub config_path: Option<Seq<u8>>,
    pub explicit_config: bool,
    pub check_config: bool,
    pub xwayland_satellite: bool,
    pub xwayland_display: Seq<char>,
    pub virtual_outputs: usize,
}

impl Options {
    pub open spec fn view(&self) -> OptionsView {
        OptionsView {
            backend: self.backend,
            command: match &self.command {
                Some(c) => Some(c@),
                None => None,
            },
            config_path: match &self.config_path {
                Some(c) => Some(c@),
                None => None,
            },
            explicit_config: self.explicit_config,
            check_config: self.check_config,
            xwayland_satellite: self.xwayland_satellite,
            xwayland_display: self.xwayland_display@,
            virtual_outputs: self.virtual_outputs,
        }
    }

    /// The options of a plain start.
    pub fn default() -> (options: Options)
        ensures
            options.view() == default_options(),
    {
        Options {
            backend: BackendKind::Winit,
            command: None,
            config_path: None,
            explicit_config: false,
            check_config: false,
            xwayland_satellite: false,
            xwayland_display: crate::text::owned(":100"),
            virtual_outputs: 1,
        }
    }
}

/// The options of a plain start.
pub open spec fn default_options() -> OptionsView {
    OptionsView {
        backend: BackendKind::Winit,
        command: None,
        config_path: None,
        explicit_config: false,
        check_config: false,
        xwayland_satellite: false,
        xwayland_display: ":100"@,
        virtual_outputs: 1,
    }
}

/// What the command line asks for.
#[derive(Clone, Debug)]
pub enum ParsedOptions {
    Run(Options),
    Help,
    Version,
}

/// The mathematical form of [`ParsedOptions`].
pub enum ParsedView {
    Run(OptionsView),
    Help,
    Version,
}

/// The usage text of the compositor.
pub open spec fn usage_text() -> Seq<char> {
    "Usage: mio-compositor [OPTIONS]\n\nOptions:\n  -c, --command PROGRAM       Start an application inside Mio\n      --config PATH           Load this KDL configuration file\n      --check-config          Validate configuration without starting Mio\n      --backend BACKEND       Select winit (default) or udev/DRM\n      --xwayland-satellite    Enable optional X11 compatibility\n      --xwayland-display :N   Select the X display (default: :100)\n      --virtual-outputs N     Split the nested window for development\n  -h, --help                  Show this help\n  -V, --version               Show the version\n"@
}

/// The usage text of the compositor.
pub fn compositor_usage() -> (usage: &'static str)
    ensures
        usage@ == usage_text(),
{
    "Usage: mio-compositor [OPTIONS]\n\nOptions:\n  -c, --command PROGRAM       Start an application inside Mio\n      --config PATH           Load this KDL configuration file\n      --check-config          Validate configuration without starting Mio\n      --backend BACKEND       Select winit (default) or udev/DRM\n      --xwayland-satellite    Enable optional X11 compatibility\n      --xwayland-display :N   Select the X display (default: :100)\n      --virtual-outputs N     Split the nested window for development\n  -h, --help                  Show this help\n  -V, --version               Show the version\n"
}

/// The options read from `args[i..]`, starting from `options`.
pub open spec fn parse_options_from(args: Seq<OsArg>, i: int, options: OptionsView) -> Result<ParsedView, Seq<char>>
    decreases args.len() - i,
{
    if i < 0 || i >= args.len() {
        Ok(ParsedView::Run(options))
    } else {
        let a = args[i];
        let next = if i + 1 < args.len() {
            Some(args[i + 1])
        } else {
            None
        };
        if arg_is(a, "-h"@) || arg_is(a, "--help"@) {
            Ok(ParsedView::Help)
        } else if arg_is(a, "-V"@) || arg_is(a, "--version"@) {
            Ok(ParsedView::Version)
        } else if arg_is(a, "-c"@) || arg_is(a, "--command"@) {
            match next {
                None => Err("--command requires a program"@),
                Some(v) => parse_options_from(args, i + 2, OptionsView { command: Some(v.bytes@), ..options }),
            }
        } else if arg_is(a, "--config"@) {
            match next {
                None => Err("--config requires a path"@),
                Some(v) => parse_options_from(
                    args,
                    i + 2,
                    OptionsView { config_path: Some(v.bytes@), explicit_config: true, ..options },
                ),
            }
        } else if arg_is(a, "--check-config"@) {
            parse_options_from(args, i + 1, OptionsView { check_config: true, ..options })
        } else if arg_is(a, "--backend"@) {
            match next {
                None => Err("--backend requires winit or udev"@),
                Some(v) => if arg_is(v, "winit"@) {
                    parse_options_from(args, i + 2, OptionsView { backend: BackendKind::Winit, ..options })
                } else if arg_is(v, "udev"@) {
                    parse_options_from(args, i + 2, OptionsView { backend: BackendKind::Udev, ..options })
                } else {
                    Err("--backend must be winit or udev"@)
                },
            }
        } else if arg_is(a, "--xwayland-satellite"@) {
            parse_options_from(args, i + 1, OptionsView { xwayland_satellite: true, ..options })
        } else if arg_is(a, "--xwayland-display"@) {
            match next {
                None => Err("--xwayland-display requires :NUMBER"@),
                Some(v) => match arg_text(v) {
                    None => Err("--xwayland-display must be valid UTF-8"@),
                    Some(t) => parse_options_from(args, i + 2, OptionsView { xwayland_display: t, ..options }),
                },
            }
        } else if arg_is(a, "--virtual-outputs"@) {
            match next {
                None => Err("--virtual-outputs requires a number"@),
                Some(v) => match arg_text(v) {
                    None => Err("--virtual-outputs must be valid UTF-8"@),
                    Some(t) => match u64_text(t) {
                        Some(n) => if n == 0 || n > usize::MAX {
                            Err("--virtual-outputs must be a positive number"@)
                        } else {
                            parse_options_from(args, i + 2, OptionsView { virtual_outputs: n as usize, ..options })
                        },
                        None => Err("--virtual-outputs must be a positive number"@),
                    },
                },
            }
        } else {
            Err(usage_text())
        }
    }
}

/// What the command line `args` (without the program name) asks for.
pub open spec fn parsed_options(args: Seq<OsArg>) -> Result<ParsedView, Seq<char>> {
    parse_options_from(args, 0, default_options())
}

proof fn lemma_option_words()
    ensures
        "-h"@.len() == 2 && "-h"@[1] == 'h',
        "--help"@.len() == 6 && "--help"@[2] == 'h',
        "-V"@.len() == 2 && "-V"@[1] == 'V',
        "--version"@.len() == 9,
        "-c"@.len() == 2 && "-c"@[1] == 'c',
        "--command"@.len() == 9 && "--command"@[2] == 'c',
        "--config"@.len() == 8,
        "--check-config"@.len() == 14,
        "--backend"@.len() == 9 && "--backend"@[2] == 'b',
        "--xwayland-satellite"@.len() == 20,
        "--xwayland-display"@.len() == 18,
        "--virtual-outputs"@.len() == 17,
        "--version"@[2] == 'v' && "--command"@[2] == 'c' && "--config"@[2] == 'c' && "--config"@[5] == 'f'
            && "--command"@[5] == 'm',
{
    reveal_strlit("-h");
    reveal_strlit("--help");
    reveal_strlit("-V");
    reveal_strlit("--version");
    reveal_strlit("-c");
    reveal_strlit("--command");
    reveal_strlit("--config");
    reveal_strlit("--check-config");
    reveal_strlit("--backend");
    reveal_strlit("--xwayland-satellite");
    reveal_strlit("--xwayland-display");
    reveal_strlit("--virtual-outputs");
}

/// A plain start runs with the default options; help or version asked for
/// first is answered whatever follows; `--config PATH` alone loads that
/// file, marked as chosen explicitly, and `-c PROGRAM` alone starts that
/// program, the other options keeping their defaults.
pub proof fn lemma_command_lines(args: Seq<OsArg>)
    ensures
        parsed_options(Seq::<OsArg>::empty()) == Ok::<ParsedView, Seq<char>>(ParsedView::Run(default_options())),
        args.len() > 0 && (arg_is(args[0], "-h"@) || arg_is(args[0], "--help"@)) ==> parsed_options(args)
            == Ok::<ParsedView, Seq<char>>(ParsedView::Help),
        args.len() > 0 && (arg_is(args[0], "-V"@) || arg_is(args[0], "--version"@)) ==> parsed_options(args)
            == Ok::<ParsedView, Seq<char>>(ParsedView::Version),
        args.len() == 2 && arg_is(args[0], "--config"@) ==> parsed_options(args) == Ok::<ParsedView, Seq<char>>(
            ParsedView::Run(OptionsView { config_path: Some(args[1].bytes@), explicit_config: true, ..default_options() }),
        ),
        args.len() == 2 && (arg_is(args[0], "-c"@) || arg_is(args[0], "--command"@)) ==> parsed_options(args)
            == Ok::<ParsedView, Seq<char>>(ParsedView::Run(OptionsView { command: Some(args[1].bytes@), ..default_options() })),
{
    lemma_option_words();
    if args.len() > 0 {
        let a = args[0];
        if arg_is(a, "-V"@) || arg_is(a, "--version"@) {
            assert(!arg_is(a, "-h"@) && !arg_is(a, "--help"@));
        }
        if args.len() == 2 {
            let with_config = OptionsView {
                config_path: Some(args[1].bytes@),
                explicit_config: true,
                ..default_options()
            };
            let with_command = OptionsView { command: Some(args[1].bytes@), ..default_options() };
            assert(parse_options_from(args, 2, with_config) == Ok::<ParsedView, Seq<char>>(ParsedView::Run(with_config)));
            assert(parse_options_from(args, 2, with_command) == Ok::<ParsedView, Seq<char>>(
                ParsedView::Run(with_command),
            ));
        }
        if arg_is(a, "--config"@) {
            assert(!arg_is(a, "-h"@) && !arg_is(a, "--help"@) && !arg_is(a, "-V"@) && !arg_is(a, "--version"@));
            assert(!arg_is(a, "-c"@) && !arg_is(a, "--command"@));
        }
        if arg_is(a, "-c"@) || arg_is(a, "--command"@) {
            assert(!arg_is(a, "-h"@) && !arg_is(a, "--help"@) && !arg_is(a, "-V"@) && !arg_is(a, "--version"@));
        }
    }
}

/// Reads the compositor's command line (without the program name).
pub fn parse_options(args: &Vec<OsArg>) -> (parsed: Result<ParsedOptions, String>)
    ensures
        match parsed_options(args@) {
            Ok(ParsedView::Help) => parsed matches Ok(ParsedOptions::Help),
            Ok(ParsedView::Version) => parsed matches Ok(ParsedOptions::Version),
            Ok(ParsedView::Run(o)) => parsed matches Ok(ParsedOptions::Run(p)) && p.view() == o,
            Err(e) => parsed matches Err(m) && m@ == e,
        },
{
    let mut options = Options::default();
    let mut i: usize = 0;
    while i < args.len()
        invariant
            i <= args.len(),
            parse_options_from(args@, i as int, options.view()) == parsed_options(args@),
        decreases args.len() - i,
    {
        let a = &args[i];
        let has_next = i + 1 < args.len();
        if arg_equals(a, "-h") || arg_equals(a, "--help") {
            return Ok(ParsedOptions::Help);
        } else if arg_equals(a, "-V") || arg_equals(a, "--version") {
            return Ok(ParsedOptions::Version);
        } else if arg_equals(a, "-c") || arg_equals(a, "--command") {
            if !has_next {
                return Err(crate::text::owned("--command requires a program"));
            }
            options.command = Some(args[i + 1].bytes.clone());
            i = i + 2;
        } else if arg_equals(a, "--config") {
            if !has_next {
                return Err(crate::text::owned("--config requires a path"));
            }
            options.config_path = Some(args[i + 1].bytes.clone());
            options.explicit_config = true;
            i = i + 2;
        } else if arg_equals(a, "--check-config") {
            options.check_config = true;
            i = i + 1;
        } else if arg_equals(a, "--backend") {
            if !has_next {
                return Err(crate::text::owned("--backend requires winit or udev"));
            }
            let v = &args[i + 1];
            if arg_equals(v, "winit") {
                options.backend = BackendKind::Winit;
            } else if arg_equals(v, "udev") {
                options.backend = BackendKind::Udev;
            } else {
                return Err(crate::text::owned("--backend must be winit or udev"));
            }
            i = i + 2;
        } else if arg_equals(a, "--xwayland-satellite") {
            options.xwayland_satellite = true;
            i = i + 1;
        } else if arg_equals(a, "--xwayland-display") {
            if !has_next {
                return Err(crate::text::owned("--xwayland-display requires :NUMBER"));
            }
            match &args[i + 1].text {
                None => return Err(crate::text::owned("--xwayland-display must be valid UTF-8")),
                Some(t) => {
                    options.xwayland_display = t.clone();
                },
            }
            i = i + 2;
        } else if arg_equals(a, "--virtual-outputs") {
            if !has_next {
                return Err(crate::text::owned("--virtual-outputs requires a number"));
            }
            match &args[i + 1].text {
                None => return Err(crate::text::owned("--virtual-outputs must be valid UTF-8")),
                Some(t) => {
                    let chars = crate::text::chars_of(t.as_str());
                    match parse_u64(&chars) {
                        Some(n) => {
                            if n == 0 || n > usize::MAX as u64 {
                                return Err(crate::text::owned("--virtual-outputs must be a positive number"));
                            }
                            options.virtual_outputs = n as usize;
                        },
                        None => return Err(crate::text::owned("--virtual-outputs must be a positive number")),
                    }
                },
            }
            i = i + 2;
        } else {
            return Err(crate::text::owned(compositor_usage()));
        }
    }
    Ok(ParsedOptions::Run(options))
}

/// A change to a child's environment: set `name` to `value`, or remove it.
#[derive(Clone, Debug)]
pub struct EnvChange {
    pub name: String,
    /// The new value as raw bytes; `None` removes the variable.
    pub value: Option<Vec<u8>>,
}

impl EnvChange {
    /// The new value's bytes, or `None` for a removal.
    pub open spec fn value_bytes(&self) -> Option<Seq<u8>> {
        match &self.value {
            Some(v) => Some(v@),
            None => None,
        }
    }
}

/// The environment changes of a program started inside Mio: it sees Mio's
/// Wayland display, the desktop name, the backend, Mio's IPC socket if there is
/// one, and the X display only when X11 compatibility runs.
pub fn startup_environment(
    wayland_display: &Vec<u8>,
    ipc_socket: Option<&Vec<u8>>,
    xwayland_display: Option<&str>,
    backend_name: &str,
) -> (changes: Vec<EnvChange>)
    ensures
        changes@.len() == 6,
        changes@[0].name@ == "WAYLAND_DISPLAY"@ && changes@[0].value_bytes() == Some(wayland_display@),
        changes@[1].name@ == "XDG_CURRENT_DESKTOP"@ && changes@[1].value_bytes() == Some("mio".spec_bytes()),
        changes@[2].name@ == "XDG_SESSION_DESKTOP"@ && changes@[2].value_bytes() == Some("mio".spec_bytes()),
        changes@[3].name@ == "MIO_BACKEND"@ && changes@[3].value_bytes() == Some(backend_name.spec_bytes()),
        changes@[4].name@ == "MIO_SOCKET"@ && changes@[4].value_bytes() == match ipc_socket {
            Some(p) => Some(p@),
            None => None,
        },
        changes@[5].name@ == "DISPLAY"@ && match xwayland_display {
            Some(d) => changes@[5].value_bytes() == Some(d.spec_bytes()),
            None => changes@[5].value_bytes() == None::<Seq<u8>>,
        },
{
    let mut changes: Vec<EnvChange> = Vec::new();
    changes.push(EnvChange { name: crate::text::owned("WAYLAND_DISPLAY"), value: Some(wayland_display.clone()) });
    changes.push(EnvChange { name: crate::text::owned("XDG_CURRENT_DESKTOP"), value: Some(utf8_bytes("mio")) });
    changes.push(EnvChange { name: crate::text::owned("XDG_SESSION_DESKTOP"), value: Some(utf8_bytes("mio")) });
    changes.push(EnvChange { name: crate::text::owned("MIO_BACKEND"), value: Some(utf8_bytes(backend_name)) });
    changes.push(
        EnvChange {
            name: crate::text::owned("MIO_SOCKET"),
            value: match ipc_socket {
                Some(p) => Some(p.clone()),
                None => None,
            },
        },
    );
    changes.push(
        EnvChange {
            name: crate::text::owned("DISPLAY"),
            value: match xwayland_display {
                Some(d) => Some(utf8_bytes(d)),
                None => None,
            },
        },
    );
    changes
}

/// The UTF-8 encoding of a text.
fn utf8_bytes(text: &str) -> (bytes: Vec<u8>)
    ensures
        bytes@ == text.spec_bytes(),
{
    vstd::slice::slice_to_vec(text.as_bytes())
}

} // verus!
