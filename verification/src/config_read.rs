//! Reading a whole configuration: the top-level nodes in order, the checks
//! that span nodes, and where an error is reported.

use vstd::prelude::*;

use crate::bindings::{default_bindings, default_bindings_view};
use crate::config::{
    binding_views, chords_of, default_appearance, default_effects, edge_views, sides_of, texts, Appearance, BindingView, Config, ConfigView, EdgeCommand,
    EdgeCommandView, Effects, GridDimensions, KeyBinding, OutputConfig, WindowRule, REAL_ONE,
};
use crate::config_doc::{
    about, fold_steps, node_views, lemma_fold_all, lemma_fold_error, lemma_fold_next, number_at, ticked, u64_at, Head,
    HeadView, Node, NodeView, Number, SourceFile,
};
use crate::config_error::ConfigError;
use crate::config_locate::line_hint;
use crate::config_rules::{argv_of, binding_of, edge_command_of, rule_of, KeysymAnswer};
use crate::config_sections::{appearance_section, effects_section, missing_block, mouse_section, output_section};
use crate::direction::{direction_debug, Direction};
use crate::keys::{quoted, Key, KeyChord};
use crate::mouse::{default_mouse, MouseConfig};
use crate::text::{append_chars, append_str, decimal, trim_seq};

verus! {

// ---------------------------------------------------------------- defaults

/// The program started from the bottom edge when none is configured.
pub open spec fn default_edge_argv() -> Seq<Seq<char>> {
    seq!["wofi"@, "--show"@, "drun"@]
}

/// The configuration Mio starts with.
pub open spec fn default_config() -> ConfigView {
    ConfigView {
        output: OutputConfig { scale: Number::Real(REAL_ONE) },
        appearance: default_appearance(),
        effects: default_effects(),
        animation_speed: Number::Real(REAL_ONE),
        viewport: GridDimensions { width: 8, height: 8 },
        initial_window_size: GridDimensions { width: 8, height: 8 },
        startup_commands: Seq::empty(),
        edge_commands: seq![EdgeCommandView { edge: Direction::Down, argv: default_edge_argv() }],
        mouse: default_mouse(),
        bindings: default_bindings_view(),
        window_rules: Seq::empty(),
    }
}

impl Config {
    /// The configuration Mio starts with: the default appearance, effects,
    /// gestures and bindings, an 8 by 8 viewport, and an application
    /// launcher on the bottom edge.
    pub fn default() -> (config: Config)
        ensures
            config@ == default_config(),
    {
        let mut argv: Vec<String> = Vec::new();
        argv.push(crate::text::owned("wofi"));
        argv.push(crate::text::owned("--show"));
        argv.push(crate::text::owned("drun"));
        assert(texts(argv@) =~= default_edge_argv());
        let mut edge_commands: Vec<EdgeCommand> = Vec::new();
        edge_commands.push(EdgeCommand { edge: Direction::Down, argv });
        let config = Config {
            output: OutputConfig { scale: Number::Real(REAL_ONE) },
            appearance: Appearance::default(),
            effects: Effects::default(),
            animation_speed: Number::Real(REAL_ONE),
            viewport: GridDimensions { width: 8, height: 8 },
            initial_window_size: GridDimensions { width: 8, height: 8 },
            startup_commands: Vec::new(),
            edge_commands,
            mouse: MouseConfig::default(),
            bindings: default_bindings(),
            window_rules: Vec::new(),
        };
        assert(config@.startup_commands =~= Seq::<Seq<Seq<char>>>::empty());
        assert(config@.window_rules =~= default_config().window_rules);
        assert(config@.edge_commands =~= default_config().edge_commands);
        config
    }
}

// ---------------------------------------------------------------- child values

/// The first child named `name`.
pub open spec fn first_child_named(children: Seq<HeadView>, name: Seq<char>) -> Option<HeadView>
    decreases children.len(),
{
    if children.len() == 0 {
        None
    } else if children[0].name == name {
        Some(children[0])
    } else {
        first_child_named(children.skip(1), name)
    }
}

/// The child named `name` of a node's block.
pub open spec fn required_child(node: NodeView, name: Seq<char>) -> Result<HeadView, Seq<char>> {
    if !node.head.has_children {
        Err(missing_block(node.head))
    } else {
        match first_child_named(node.children, name) {
            None => Err(about(node.head, " requires "@ + ticked(name))),
            Some(c) => Ok(c),
        }
    }
}

/// The number a node's child `name` holds.
pub open spec fn child_number_of(node: NodeView, name: Seq<char>) -> Result<Number, Seq<char>> {
    match required_child(node, name) {
        Err(m) => Err(m),
        Ok(c) => number_at(c, 0),
    }
}

/// The width and height a node's child `name` holds.
pub open spec fn child_size_of(node: NodeView, name: Seq<char>) -> Result<GridDimensions, Seq<char>> {
    match required_child(node, name) {
        Err(m) => Err(m),
        Ok(c) => match u64_at(c, 0) {
            Err(m) => Err(m),
            Ok(width) => match u64_at(c, 1) {
                Err(m) => Err(m),
                Ok(height) => Ok(GridDimensions { width, height }),
            },
        },
    }
}

fn required_child_of<'a>(node: &'a Node, name: &str) -> (r: Result<&'a Head, ConfigError>)
    ensures
        match required_child(node@, name@) {
            Ok(c) => r matches Ok(h) && h@ == c,
            Err(m) => r matches Err(e) && e.0@ == m,
        },
{
    if !node.head.has_children {
        return Err(node.head.error(" requires a child block"));
    }
    let ghost children = node@.children;
    let mut i: usize = 0;
    assert(children.skip(0) =~= children);
    while i < node.children.len()
        invariant
            i <= node.children.len(),
            children == node@.children,
            children.len() == node.children.len(),
            node.head.has_children,
            first_child_named(children, name@) == first_child_named(children.skip(i as int), name@),
        decreases node.children.len() - i,
    {
        assert(children.skip(i as int)[0] == children[i as int]);
        assert(children.skip(i as int).skip(1) =~= children.skip(i as int + 1));
        if node.children[i].is_named(name) {
            return Ok(&node.children[i]);
        }
        i = i + 1;
    }
    let mut tail = crate::text::chars_of(" requires ");
    append_str(&mut tail, "`");
    append_str(&mut tail, name);
    append_str(&mut tail, "`");
    assert(tail@ =~= " requires "@ + ticked(name@));
    let mut m = crate::text::chars_of("`");
    append_chars(&mut m, &crate::text::chars_of(node.head.name.as_str()));
    append_str(&mut m, "`");
    append_chars(&mut m, &tail);
    assert(m@ =~= about(node@.head, tail@));
    Err(ConfigError::from_chars(&m))
}

/// Reads the number a node's child `name` holds.
pub fn child_number(node: &Node, name: &str) -> (r: Result<Number, ConfigError>)
    ensures
        match child_number_of(node@, name@) {
            Ok(n) => r == Ok::<Number, ConfigError>(n),
            Err(m) => r matches Err(e) && e.0@ == m,
        },
{
    let child = required_child_of(node, name)?;
    child.number_at(0)
}

/// Reads the width and height a node's child `name` holds.
pub fn child_size(node: &Node, name: &str) -> (r: Result<GridDimensions, ConfigError>)
    ensures
        match child_size_of(node@, name@) {
            Ok(d) => r == Ok::<GridDimensions, ConfigError>(d),
            Err(m) => r matches Err(e) && e.0@ == m,
        },
{
    let child = required_child_of(node, name)?;
    let width = child.u64_at(0)?;
    let height = child.u64_at(1)?;
    Ok(GridDimensions { width, height })
}

// ---------------------------------------------------------------- reading

/// What reading has gathered so far: the configuration, the bindings and
/// edge commands written (which replace the defaults once one is written),
/// and whether any was.
pub struct ReadState {
    pub config: ConfigView,
    pub bindings: Seq<BindingView>,
    pub saw_bind: bool,
    pub edges: Seq<EdgeCommandView>,
    pub saw_edge: bool,
}

/// The reading state before the first node.
pub open spec fn initial_read_state() -> ReadState {
    ReadState {
        config: default_config(),
        bindings: Seq::empty(),
        saw_bind: false,
        edges: Seq::empty(),
        saw_edge: false,
    }
}

/// The reading state after one top-level node; the error is the node's own
/// problem, before it is located.
pub open spec fn node_step(s: ReadState, node: NodeView, answers: Seq<KeysymAnswer>) -> Result<ReadState, Seq<char>> {
    let name = node.head.name;
    let c = s.config;
    if name == "output"@ {
        match output_section(node, c.output) {
            Err(m) => Err(m),
            Ok(o) => Ok(ReadState { config: ConfigView { output: o, ..c }, ..s }),
        }
    } else if name == "appearance"@ {
        match appearance_section(node, c.appearance) {
            Err(m) => Err(m),
            Ok(a) => Ok(ReadState { config: ConfigView { appearance: a, ..c }, ..s }),
        }
    } else if name == "effects"@ {
        match effects_section(node, c.effects) {
            Err(m) => Err(m),
            Ok(e) => Ok(ReadState { config: ConfigView { effects: e, ..c }, ..s }),
        }
    } else if name == "animation"@ {
        match child_number_of(node, "speed"@) {
            Err(m) => Err(m),
            Ok(n) => Ok(ReadState { config: ConfigView { animation_speed: n, ..c }, ..s }),
        }
    } else if name == "camera"@ {
        match child_size_of(node, "viewport"@) {
            Err(m) => Err(m),
            Ok(d) => Ok(ReadState { config: ConfigView { viewport: d, ..c }, ..s }),
        }
    } else if name == "placement"@ {
        match child_size_of(node, "initial-size"@) {
            Err(m) => Err(m),
            Ok(d) => Ok(ReadState { config: ConfigView { initial_window_size: d, ..c }, ..s }),
        }
    } else if name == "mouse"@ {
        match mouse_section(node, c.mouse) {
            Err(m) => Err(m),
            Ok(mouse) => Ok(ReadState { config: ConfigView { mouse, ..c }, ..s }),
        }
    } else if name == "spawn-at-startup"@ {
        match argv_of(node.head, 0, "spawn-at-startup"@) {
            Err(m) => Err(m),
            Ok(argv) => Ok(
                ReadState { config: ConfigView { startup_commands: c.startup_commands.push(argv), ..c }, ..s },
            ),
        }
    } else if name == "bind"@ {
        match binding_of(node.head, answers) {
            Err(m) => Err(m),
            Ok(b) => Ok(ReadState { bindings: s.bindings.push(b), saw_bind: true, ..s }),
        }
    } else if name == "edge-command"@ {
        match edge_command_of(node.head) {
            Err(m) => Err(m),
            Ok(e) => Ok(ReadState { edges: s.edges.push(e), saw_edge: true, ..s }),
        }
    } else if name == "window-rule"@ {
        match rule_of(node) {
            Err(m) => Err(m),
            Ok(r) => Ok(ReadState { config: ConfigView { window_rules: c.window_rules.push(r), ..c }, ..s }),
        }
    } else if name == "include"@ {
        Err("include is only available when loading configuration from a file"@)
    } else {
        Err(quoted("unknown top-level node "@, name))
    }
}

/// The mathematical form of a [`SourceFile`].
pub open spec fn source_views(sources: Seq<SourceFile>) -> Seq<(Seq<char>, Seq<char>)> {
    sources.map_values(|f: SourceFile| (f.path@, f.text@))
}

/// `path: message at line N: `text``, as errors found in a file are reported.
pub open spec fn in_file(path: Seq<char>, message: Seq<char>, line: int, text: Seq<char>) -> Seq<char> {
    path + ": "@ + message + " at line "@ + decimal(line as nat) + ": `"@ + trim_seq(text) + "`"@
}

/// A node's problem as it is reported: in its file, at the line the message
/// most likely refers to (or else the node's own line).
pub open spec fn located(message: Seq<char>, node: NodeView, sources: Seq<(Seq<char>, Seq<char>)>) -> Seq<char> {
    match node.origin {
        None => message,
        Some(o) => {
            let file = sources[o.file as int];
            match line_hint(file.1, message) {
                Some((line, text)) => in_file(file.0, message, line, text),
                None => in_file(file.0, message, o.line as int, o.text),
            }
        },
    }
}

/// [`node_step`] with its error located, as a step of a walk.
pub open spec fn read_step(sources: Seq<(Seq<char>, Seq<char>)>, answers: Seq<KeysymAnswer>) -> spec_fn(
    ReadState,
    NodeView,
) -> Result<ReadState, Seq<char>> {
    |s: ReadState, n: NodeView|
        match node_step(s, n, answers) {
            Ok(t) => Ok(t),
            Err(m) => Err(located(m, n, sources)),
        }
}

/// The position of the first chord that repeats an earlier one, searching
/// from position `i`.
pub open spec fn repeat_from(chords: Seq<KeyChord>, i: int) -> Option<int>
    decreases chords.len() - i,
{
    if i < 0 || i >= chords.len() {
        None
    } else if chords.take(i).contains(chords[i]) {
        Some(i)
    } else {
        repeat_from(chords, i + 1)
    }
}

/// The position of the first edge that repeats an earlier one, searching
/// from position `i`.
pub open spec fn edge_repeat_from(edges: Seq<Direction>, i: int) -> Option<int>
    decreases edges.len() - i,
{
    if i < 0 || i >= edges.len() {
        None
    } else if edges.take(i).contains(edges[i]) {
        Some(i)
    } else {
        edge_repeat_from(edges, i + 1)
    }
}

proof fn lemma_repeat_bounds(chords: Seq<KeyChord>, i: int)
    ensures
        repeat_from(chords, i) matches Some(k) ==> 0 <= i <= k < chords.len(),
    decreases chords.len() - i,
{
    if 0 <= i < chords.len() && !chords.take(i).contains(chords[i]) {
        lemma_repeat_bounds(chords, i + 1);
    }
}

proof fn lemma_edge_repeat_bounds(edges: Seq<Direction>, i: int)
    ensures
        edge_repeat_from(edges, i) matches Some(k) ==> 0 <= i <= k < edges.len(),
    decreases edges.len() - i,
{
    if 0 <= i < edges.len() && !edges.take(i).contains(edges[i]) {
        lemma_edge_repeat_bounds(edges, i + 1);
    }
}

/// What `format!("{c:?}")` writes for a character.
pub uninterp spec fn char_debug_text(c: char) -> Seq<char>;

/// `format!("{c:?}")`: a character quoted and escaped as `Debug` writes it.
#[verifier::external_body]
fn char_debug(c: char) -> (text: String)
    ensures
        text@ == char_debug_text(c),
{
    format!("{c:?}")
}

/// How `Debug` writes a key.
pub open spec fn key_debug(key: Key) -> Seq<char> {
    match key {
        Key::Left => "Left"@,
        Key::Right => "Right"@,
        Key::Up => "Up"@,
        Key::Down => "Down"@,
        Key::Enter => "Enter"@,
        Key::Letter(c) => "Letter("@ + char_debug_text(c) + ")"@,
        Key::Symbol(s) => "Symbol("@ + decimal(s as nat) + ")"@,
    }
}

/// How `Debug` writes a boolean.
pub open spec fn bool_debug(b: bool) -> Seq<char> {
    if b {
        "true"@
    } else {
        "false"@
    }
}

/// How `Debug` writes a key chord.
pub open spec fn chord_debug(chord: KeyChord) -> Seq<char> {
    "KeyChord { ctrl: "@ + bool_debug(chord.ctrl) + ", alt: "@ + bool_debug(chord.alt) + ", shift: "@
        + bool_debug(chord.shift) + ", logo: "@ + bool_debug(chord.logo) + ", key: "@ + key_debug(chord.key)
        + " }"@
}

/// The configuration once all nodes are read: written bindings and edge
/// commands replace the defaults, no chord may be bound twice among the
/// written bindings, and no edge may have two commands.
pub open spec fn finish_reading(s: ReadState) -> Result<ConfigView, Seq<char>> {
    let chords = chords_of(s.bindings);
    let dup = if s.saw_bind {
        repeat_from(chords, 0)
    } else {
        None
    };
    if let Some(i) = dup {
        Err("duplicate key binding: "@ + chord_debug(chords[i]))
    } else {
        let bindings = if s.saw_bind {
            s.bindings
        } else {
            s.config.bindings
        };
        let edges = if s.saw_edge {
            s.edges
        } else {
            s.config.edge_commands
        };
        let sides = sides_of(edges);
        match edge_repeat_from(sides, 0) {
            Some(i) => Err("duplicate edge command: "@ + direction_debug(sides[i])),
            None => Ok(ConfigView { bindings, edge_commands: edges, ..s.config }),
        }
    }
}

/// The configuration that `nodes` write before the range checks of
/// [`validate`]: each node in order, then the checks across nodes.
pub open spec fn read_config(nodes: Seq<NodeView>, sources: Seq<(Seq<char>, Seq<char>)>, answers: Seq<KeysymAnswer>) -> Result<
    ConfigView,
    Seq<char>,
> {
    match fold_steps(nodes, initial_read_state(), read_step(sources, answers)) {
        Err(m) => Err(m),
        Ok(s) => finish_reading(s),
    }
}

/// Whether every node that was read from a file names one of `sources`.
pub open spec fn origins_known(nodes: Seq<NodeView>, sources: Seq<SourceFile>) -> bool {
    forall|i: int|
        0 <= i < nodes.len() ==> ((#[trigger] nodes[i]).origin matches Some(o) ==> o.file < sources.len())
}

/// Reading in progress: the exec form of [`ReadState`].
struct Reading {
    config: Config,
    bindings: Vec<KeyBinding>,
    saw_bind: bool,
    edges: Vec<EdgeCommand>,
    saw_edge: bool,
}

impl Reading {
    spec fn state(&self) -> ReadState {
        ReadState {
            config: self.config@,
            bindings: binding_views(self.bindings@),
            saw_bind: self.saw_bind,
            edges: edge_views(self.edges@),
            saw_edge: self.saw_edge,
        }
    }
}

fn read_node(reading: &mut Reading, node: &Node, answers: &Vec<KeysymAnswer>) -> (r: Result<(), ConfigError>)
    ensures
        match node_step(old(reading).state(), node@, answers@) {
            Ok(s) => r is Ok && final(reading).state() == s,
            Err(m) => r matches Err(e) && e.0@ == m,
        },
{
    let head = &node.head;
    if head.is_named("output") {
        let mut output = reading.config.output;
        crate::config_sections::parse_output(node, &mut output)?;
        reading.config.output = output;
    } else if head.is_named("appearance") {
        let mut appearance = reading.config.appearance;
        crate::config_sections::parse_appearance(node, &mut appearance)?;
        reading.config.appearance = appearance;
    } else if head.is_named("effects") {
        let mut effects = reading.config.effects;
        crate::config_sections::parse_effects(node, &mut effects)?;
        reading.config.effects = effects;
    } else if head.is_named("animation") {
        reading.config.animation_speed = child_number(node, "speed")?;
    } else if head.is_named("camera") {
        reading.config.viewport = child_size(node, "viewport")?;
    } else if head.is_named("placement") {
        reading.config.initial_window_size = child_size(node, "initial-size")?;
    } else if head.is_named("mouse") {
        let mut mouse = reading.config.mouse;
        crate::config_sections::parse_mouse(node, &mut mouse)?;
        reading.config.mouse = mouse;
    } else if head.is_named("spawn-at-startup") {
        let argv = crate::config_rules::parse_command(head)?;
        let ghost before = reading.config@.startup_commands;
        reading.config.startup_commands.push(argv);
        assert(reading.config@.startup_commands =~= before.push(texts(argv@)));
    } else if head.is_named("bind") {
        let binding = crate::config_rules::parse_binding(head, answers)?;
        let ghost before = binding_views(reading.bindings@);
        reading.bindings.push(binding);
        reading.saw_bind = true;
        assert(binding_views(reading.bindings@) =~= before.push(binding@));
    } else if head.is_named("edge-command") {
        let edge = crate::config_rules::parse_edge_command(head)?;
        let ghost before = edge_views(reading.edges@);
        reading.edges.push(edge);
        reading.saw_edge = true;
        assert(edge_views(reading.edges@) =~= before.push(edge@));
    } else if head.is_named("window-rule") {
        let rule = crate::config_rules::parse_window_rule(node)?;
        let ghost before = reading.config@.window_rules;
        reading.config.window_rules.push(rule);
        assert(reading.config@.window_rules =~= before.push(rule@));
    } else if head.is_named("include") {
        return Err(ConfigError::from_str("include is only available when loading configuration from a file"));
    } else {
        return Err(crate::keys::quoted_error("unknown top-level node ", &crate::text::chars_of(head.name.as_str())));
    }
    Ok(())
}

/// `path: message at line N: `text``.
fn in_file_message(path: &String, message: &Vec<char>, line: usize, text: &Vec<char>) -> (e: ConfigError)
    ensures
        e.0@ == in_file(path@, message@, line as int, text@),
{
    let mut m = crate::text::chars_of(path.as_str());
    append_str(&mut m, ": ");
    append_chars(&mut m, message);
    append_str(&mut m, " at line ");
    append_chars(&mut m, &crate::text::decimal_of(line as u64));
    append_str(&mut m, ": `");
    append_chars(&mut m, &crate::text::trim_chars(text));
    append_str(&mut m, "`");
    assert(m@ =~= in_file(path@, message@, line as int, text@));
    ConfigError::from_chars(&m)
}

/// A node's problem as it is reported.
fn locate(error: ConfigError, node: &Node, sources: &Vec<SourceFile>) -> (e: ConfigError)
    requires
        node@.origin matches Some(o) ==> o.file < sources@.len(),
    ensures
        e.0@ == located(error.0@, node@, source_views(sources@)),
{
    match &node.origin {
        None => error,
        Some(o) => {
            let file = &sources[o.file];
            let text = crate::text::chars_of(file.text.as_str());
            let message = error.message_chars();
            assert(source_views(sources@)[o.file as int] == (file.path@, file.text@));
            match crate::config_locate::error_line_hint(&text, &message) {
                Some((line, hint)) => in_file_message(&file.path, &message, line, &hint),
                None => in_file_message(&file.path, &message, o.line, &crate::text::chars_of(o.text.as_str())),
            }
        },
    }
}

/// How `Debug` writes a key chord.
pub fn debug_chord(chord: KeyChord) -> (text: Vec<char>)
    ensures
        text@ == chord_debug(chord),
{
    let mut m = crate::text::chars_of("KeyChord { ctrl: ");
    append_str(&mut m, if chord.ctrl { "true" } else { "false" });
    append_str(&mut m, ", alt: ");
    append_str(&mut m, if chord.alt { "true" } else { "false" });
    append_str(&mut m, ", shift: ");
    append_str(&mut m, if chord.shift { "true" } else { "false" });
    append_str(&mut m, ", logo: ");
    append_str(&mut m, if chord.logo { "true" } else { "false" });
    append_str(&mut m, ", key: ");
    let ghost before = m@;
    match chord.key {
        Key::Left => append_str(&mut m, "Left"),
        Key::Right => append_str(&mut m, "Right"),
        Key::Up => append_str(&mut m, "Up"),
        Key::Down => append_str(&mut m, "Down"),
        Key::Enter => append_str(&mut m, "Enter"),
        Key::Letter(c) => {
            append_str(&mut m, "Letter(");
            append_chars(&mut m, &crate::text::chars_of(char_debug(c).as_str()));
            append_str(&mut m, ")");
        },
        Key::Symbol(s) => {
            append_str(&mut m, "Symbol(");
            append_chars(&mut m, &crate::text::decimal_of(s as u64));
            append_str(&mut m, ")");
        },
    }
    assert(m@ =~= before + key_debug(chord.key));
    append_str(&mut m, " }");
    assert(m@ =~= chord_debug(chord));
    m
}

fn chord_seen(bindings: &Vec<KeyBinding>, upto: usize, chord: KeyChord) -> (seen: bool)
    requires
        upto <= bindings@.len(),
    ensures
        seen == chords_of(binding_views(bindings@)).take(upto as int).contains(chord),
{
    let ghost chords = chords_of(binding_views(bindings@));
    let mut i: usize = 0;
    while i < upto
        invariant
            i <= upto,
            upto <= bindings@.len(),
            chords == chords_of(binding_views(bindings@)),
            forall|j: int| 0 <= j < i ==> chords[j] != chord,
        decreases upto - i,
    {
        assert(chords[i as int] == bindings@[i as int].chord);
        if bindings[i].chord == chord {
            assert(chords.take(upto as int)[i as int] == chord);
            return true;
        }
        i = i + 1;
    }
    assert(!chords.take(upto as int).contains(chord)) by {
        if chords.take(upto as int).contains(chord) {
            let j = choose|j: int| 0 <= j < upto && chords.take(upto as int)[j] == chord;
            assert(chords[j] == chord);
        }
    }
    false
}

fn first_repeated_chord(bindings: &Vec<KeyBinding>) -> (r: Option<usize>)
    ensures
        match repeat_from(chords_of(binding_views(bindings@)), 0) {
            Some(i) => r matches Some(k) && k as int == i,
            None => r is None,
        },
        r matches Some(k) ==> k < bindings@.len(),
{
    proof {
        lemma_repeat_bounds(chords_of(binding_views(bindings@)), 0);
    }
    let ghost chords = chords_of(binding_views(bindings@));
    let mut i: usize = 0;
    while i < bindings.len()
        invariant
            i <= bindings@.len(),
            chords == chords_of(binding_views(bindings@)),
            repeat_from(chords, 0) == repeat_from(chords, i as int),
        decreases bindings.len() - i,
    {
        assert(chords[i as int] == bindings@[i as int].chord);
        if chord_seen(bindings, i, bindings[i].chord) {
            return Some(i);
        }
        i = i + 1;
    }
    None
}

fn edge_seen(edges: &Vec<EdgeCommand>, upto: usize, edge: Direction) -> (seen: bool)
    requires
        upto <= edges@.len(),
    ensures
        seen == sides_of(edge_views(edges@)).take(upto as int).contains(edge),
{
    let ghost sides = sides_of(edge_views(edges@));
    let mut i: usize = 0;
    while i < upto
        invariant
            i <= upto,
            upto <= edges@.len(),
            sides == sides_of(edge_views(edges@)),
            forall|j: int| 0 <= j < i ==> sides[j] != edge,
        decreases upto - i,
    {
        if edges[i].edge == edge {
            assert(sides.take(upto as int)[i as int] == edge);
            return true;
        }
        i = i + 1;
    }
    assert(!sides.take(upto as int).contains(edge)) by {
        if sides.take(upto as int).contains(edge) {
            let j = choose|j: int| 0 <= j < upto && sides.take(upto as int)[j] == edge;
            assert(sides[j] == edge);
        }
    }
    false
}

fn first_repeated_edge(edges: &Vec<EdgeCommand>) -> (r: Option<usize>)
    ensures
        match edge_repeat_from(sides_of(edge_views(edges@)), 0) {
            Some(i) => r matches Some(k) && k as int == i,
            None => r is None,
        },
        r matches Some(k) ==> k < edges@.len(),
{
    proof {
        lemma_edge_repeat_bounds(sides_of(edge_views(edges@)), 0);
    }
    let ghost sides = sides_of(edge_views(edges@));
    let mut i: usize = 0;
    while i < edges.len()
        invariant
            i <= edges@.len(),
            sides == sides_of(edge_views(edges@)),
            edge_repeat_from(sides, 0) == edge_repeat_from(sides, i as int),
        decreases edges.len() - i,
    {
        if edge_seen(edges, i, edges[i].edge) {
            return Some(i);
        }
        i = i + 1;
    }
    None
}

/// Reads the configuration that `nodes` write, in order, starting from the
/// defaults. Chord key names are looked up in `answers`; a node read from a
/// file reports its problems in that file, at the line the message most
/// likely refers to. The range checks of [`validate`] come after this.
pub fn read_nodes(nodes: &Vec<Node>, sources: &Vec<SourceFile>, answers: &Vec<KeysymAnswer>) -> (r: Result<Config, ConfigError>)
    requires
        origins_known(node_views(nodes@), sources@),
    ensures
        match read_config(node_views(nodes@), source_views(sources@), answers@) {
            Ok(c) => r matches Ok(d) && d@ == c,
            Err(m) => r matches Err(e) && e.0@ == m,
        },
{
    let ghost views = node_views(nodes@);
    let ghost step = read_step(source_views(sources@), answers@);
    let mut reading = Reading {
        config: Config::default(),
        bindings: Vec::new(),
        saw_bind: false,
        edges: Vec::new(),
        saw_edge: false,
    };
    assert(reading.state() =~= initial_read_state()) by {
        assert(binding_views(reading.bindings@) =~= Seq::<BindingView>::empty());
        assert(edge_views(reading.edges@) =~= Seq::<EdgeCommandView>::empty());
    }
    let mut i: usize = 0;
    while i < nodes.len()
        invariant
            i <= nodes@.len(),
            views == node_views(nodes@),
            step == read_step(source_views(sources@), answers@),
            origins_known(views, sources@),
            fold_steps(views.take(i as int), initial_read_state(), step) == Ok::<ReadState, Seq<char>>(
                reading.state(),
            ),
        decreases nodes.len() - i,
    {
        proof {
            lemma_fold_next(views, initial_read_state(), step, i as int);
        }
        let node = &nodes[i];
        assert(views[i as int] == node@);
        match read_node(&mut reading, node, answers) {
            Ok(()) => {},
            Err(e) => {
                let located_error = locate(e, node, sources);
                proof {
                    lemma_fold_error(views, initial_read_state(), step, i as int + 1);
                }
                return Err(located_error);
            },
        }
        i = i + 1;
    }
    proof {
        lemma_fold_all(views, initial_read_state(), step);
    }
    finish(reading)
}

fn finish(reading: Reading) -> (r: Result<Config, ConfigError>)
    ensures
        match finish_reading(reading.state()) {
            Ok(c) => r matches Ok(d) && d@ == c,
            Err(m) => r matches Err(e) && e.0@ == m,
        },
{
    let ghost state = reading.state();
    let Reading { config, bindings, saw_bind, edges, saw_edge } = reading;
    let mut config = config;
    let ghost chords = chords_of(state.bindings);
    if saw_bind {
        match first_repeated_chord(&bindings) {
            Some(k) => {
                let mut m = crate::text::chars_of("duplicate key binding: ");
                assert(chords[k as int] == bindings@[k as int].chord);
                assert(state.saw_bind);
                assert(chords == chords_of(binding_views(bindings@)));
                assert(repeat_from(chords, 0) == Some(k as int));
                append_chars(&mut m, &debug_chord(bindings[k].chord));
                assert(m@ == "duplicate key binding: "@ + chord_debug(chords[k as int]));
                assert(finish_reading(state) == Err::<ConfigView, Seq<char>>(m@));
                return Err(ConfigError::from_chars(&m));
            },
            None => {},
        }
        config.bindings = bindings;
    }
    if saw_edge {
        config.edge_commands = edges;
    }
    let ghost edge_list = if state.saw_edge {
        state.edges
    } else {
        state.config.edge_commands
    };
    assert(edge_list == edge_views(config.edge_commands@));
    let ghost sides = sides_of(edge_list);
    match first_repeated_edge(&config.edge_commands) {
        Some(k) => {
            let mut m = crate::text::chars_of("duplicate edge command: ");
            assert(sides[k as int] == config.edge_commands@[k as int].edge);
            append_chars(&mut m, &crate::direction::direction_debug_name(config.edge_commands[k].edge));
            return Err(ConfigError::from_chars(&m));
        },
        None => {},
    }
    proof {
        let expected = finish_reading(state)->Ok_0;
        assert(config@.bindings == expected.bindings);
        assert(config@.edge_commands == expected.edge_commands);
        assert(config@.startup_commands == expected.startup_commands);
        assert(config@.window_rules == expected.window_rules);
    }
    Ok(config)
}

// ---------------------------------------------------------------- laws

/// Reading an empty document gives the built-in configuration.
pub proof fn lemma_empty_document_reads_defaults(sources: Seq<(Seq<char>, Seq<char>)>, answers: Seq<KeysymAnswer>)
    ensures
        read_config(Seq::empty(), sources, answers) == Ok::<ConfigView, Seq<char>>(default_config()),
{
    let s = initial_read_state();
    let sides = sides_of(s.config.edge_commands);
    assert(sides =~= seq![Direction::Down]);
    assert(!sides.take(0).contains(sides[0]));
    assert(edge_repeat_from(sides, 1) is None);
    assert(edge_repeat_from(sides, 0) is None);
}

proof fn lemma_no_repeat<T>(s: Seq<T>, k: int, repeat: spec_fn(Seq<T>, int) -> Option<int>)
    requires
        0 <= k,
        forall|i: int| 0 <= i < s.len() ==> #[trigger] repeat(s, i) == (if s.take(i).contains(s[i]) {
            Some(i)
        } else {
            repeat(s, i + 1)
        }),
        forall|i: int| i >= s.len() ==> #[trigger] repeat(s, i) is None,
        repeat(s, k) is None,
    ensures
        forall|j: int| k <= j < s.len() ==> !(#[trigger] s.take(j)).contains(s[j]),
    decreases s.len() - k,
{
    if k < s.len() {
        assert(repeat(s, k) == (if s.take(k).contains(s[k]) {
            Some(k)
        } else {
            repeat(s, k + 1)
        }));
        lemma_no_repeat(s, k + 1, repeat);
    }
}

proof fn lemma_distinct_after_no_repeat<T>(s: Seq<T>)
    requires
        forall|j: int| 0 <= j < s.len() ==> !(#[trigger] s.take(j)).contains(s[j]),
    ensures
        forall|i: int, j: int| 0 <= i < j < s.len() ==> s[i] != s[j],
{
    assert forall|i: int, j: int| 0 <= i < j < s.len() implies s[i] != s[j] by {
        assert(s.take(j)[i] == s[i]);
        if s[i] == s[j] {
            assert(s.take(j).contains(s[j]));
        }
    }
}

/// A configuration that reads successfully gives each output edge at most
/// one command, and binds each chord at most once unless it keeps the
/// built-in bindings.
pub proof fn lemma_read_config_is_unambiguous(
    nodes: Seq<NodeView>,
    sources: Seq<(Seq<char>, Seq<char>)>,
    answers: Seq<KeysymAnswer>,
)
    requires
        read_config(nodes, sources, answers) is Ok,
    ensures
        ({
            let c = read_config(nodes, sources, answers)->Ok_0;
            &&& forall|i: int, j: int|
                0 <= i < j < c.edge_commands.len() ==> c.edge_commands[i].edge != c.edge_commands[j].edge
            &&& c.bindings == default_bindings_view() || forall|i: int, j: int|
                0 <= i < j < c.bindings.len() ==> c.bindings[i].chord != c.bindings[j].chord
        }),
{
    let s = fold_steps(nodes, initial_read_state(), read_step(sources, answers))->Ok_0;
    let c = read_config(nodes, sources, answers)->Ok_0;
    let edges = if s.saw_edge {
        s.edges
    } else {
        s.config.edge_commands
    };
    let sides = sides_of(edges);
    let edge_repeat = |q: Seq<Direction>, i: int| edge_repeat_from(q, i);
    assert forall|i: int| 0 <= i < sides.len() implies #[trigger] edge_repeat(sides, i) == (if sides.take(i).contains(
        sides[i],
    ) {
        Some(i)
    } else {
        edge_repeat(sides, i + 1)
    }) by {}
    assert forall|i: int| i >= sides.len() implies #[trigger] edge_repeat(sides, i) is None by {}
    lemma_no_repeat(sides, 0, edge_repeat);
    lemma_distinct_after_no_repeat(sides);
    assert forall|i: int, j: int| 0 <= i < j < c.edge_commands.len() implies c.edge_commands[i].edge
        != c.edge_commands[j].edge by {
        assert(sides[i] == c.edge_commands[i].edge);
        assert(sides[j] == c.edge_commands[j].edge);
    }
    if s.saw_bind {
        let chords = chords_of(s.bindings);
        let repeat = |q: Seq<KeyChord>, i: int| repeat_from(q, i);
        assert forall|i: int| 0 <= i < chords.len() implies #[trigger] repeat(chords, i) == (if chords.take(
            i,
        ).contains(chords[i]) {
            Some(i)
        } else {
            repeat(chords, i + 1)
        }) by {}
        assert forall|i: int| i >= chords.len() implies #[trigger] repeat(chords, i) is None by {}
        lemma_no_repeat(chords, 0, repeat);
        lemma_distinct_after_no_repeat(chords);
        assert forall|i: int, j: int| 0 <= i < j < c.bindings.len() implies c.bindings[i].chord
            != c.bindings[j].chord by {
            assert(chords[i] == c.bindings[i].chord);
            assert(chords[j] == c.bindings[j].chord);
        }
    } else {
        assert(s.config.bindings == default_bindings_view()) by {
            assert(nodes.take(nodes.len() as int) =~= nodes);
            lemma_bindings_progress(nodes, sources, answers, nodes.len() as int);
        }
    }
}

/// The bindings that the `bind` nodes among `nodes` write, in order.
pub open spec fn written_bindings(nodes: Seq<NodeView>, answers: Seq<KeysymAnswer>) -> Seq<BindingView>
    decreases nodes.len(),
{
    if nodes.len() == 0 {
        Seq::empty()
    } else {
        let earlier = written_bindings(nodes.drop_last(), answers);
        if nodes.last().head.name == "bind"@ {
            earlier.push(binding_of(nodes.last().head, answers)->Ok_0)
        } else {
            earlier
        }
    }
}

/// Whether any of `nodes` is a `bind` node.
pub open spec fn has_bind(nodes: Seq<NodeView>) -> bool {
    exists|i: int| 0 <= i < nodes.len() && (#[trigger] nodes[i]).head.name == "bind"@
}

/// After the first `k` nodes, reading holds the bindings they write, knows
/// whether one was written, and keeps the built-in bindings in the
/// configuration until the end.
proof fn lemma_bindings_progress(
    nodes: Seq<NodeView>,
    sources: Seq<(Seq<char>, Seq<char>)>,
    answers: Seq<KeysymAnswer>,
    k: int,
)
    requires
        0 <= k <= nodes.len(),
        fold_steps(nodes.take(k), initial_read_state(), read_step(sources, answers)) is Ok,
    ensures
        ({
            let s = fold_steps(nodes.take(k), initial_read_state(), read_step(sources, answers))->Ok_0;
            &&& s.bindings == written_bindings(nodes.take(k), answers)
            &&& s.saw_bind == has_bind(nodes.take(k))
            &&& s.config.bindings == default_bindings_view()
        }),
    decreases k,
{
    let step = read_step(sources, answers);
    if k == 0 {
        assert(!has_bind(nodes.take(0)));
    } else {
        lemma_fold_next(nodes, initial_read_state(), step, k - 1);
        lemma_bindings_progress(nodes, sources, answers, k - 1);
        let before = nodes.take(k - 1);
        let now = nodes.take(k);
        assert(now.drop_last() =~= before);
        assert(now.last() == nodes[k - 1]);
        if has_bind(before) {
            let w = choose|i: int| 0 <= i < before.len() && (#[trigger] before[i]).head.name == "bind"@;
            assert(now[w] == before[w]);
        }
        if has_bind(now) {
            let w = choose|i: int| 0 <= i < now.len() && (#[trigger] now[i]).head.name == "bind"@;
            if w < k - 1 {
                assert(before[w] == now[w]);
            }
        }
        let prev = fold_steps(before, initial_read_state(), step)->Ok_0;
        let node = nodes[k - 1];
        assert(node_step(prev, node, answers) is Ok);
        let t = node_step(prev, node, answers)->Ok_0;
        assert(fold_steps(now, initial_read_state(), step) == Ok::<ReadState, Seq<char>>(t));
        assert(written_bindings(now, answers) == if node.head.name == "bind"@ {
            written_bindings(before, answers).push(binding_of(node.head, answers)->Ok_0)
        } else {
            written_bindings(before, answers)
        });
        if node.head.name == "bind"@ {
            assert(now[k - 1] == node);
            reveal_strlit("bind");
            reveal_strlit("output");
            reveal_strlit("appearance");
            reveal_strlit("effects");
            reveal_strlit("animation");
            reveal_strlit("camera");
            reveal_strlit("placement");
            reveal_strlit("mouse");
            reveal_strlit("spawn-at-startup");
            assert(t.bindings == prev.bindings.push(binding_of(node.head, answers)->Ok_0));
            assert(t.saw_bind);
            assert(t.config == prev.config);
        } else {
            assert(t.bindings == prev.bindings);
            assert(t.saw_bind == prev.saw_bind);
            assert(t.config.bindings == prev.config.bindings);
        }
    }
}

/// Bindings written in the configuration replace the built-in ones as a
/// whole: a configuration that reads successfully has exactly the written
/// bindings, in order, when it has a `bind` node, and the built-in bindings
/// otherwise.
pub proof fn lemma_written_bindings_replace_defaults(
    nodes: Seq<NodeView>,
    sources: Seq<(Seq<char>, Seq<char>)>,
    answers: Seq<KeysymAnswer>,
)
    requires
        read_config(nodes, sources, answers) is Ok,
    ensures
        ({
            let c = read_config(nodes, sources, answers)->Ok_0;
            if has_bind(nodes) {
                c.bindings == written_bindings(nodes, answers)
            } else {
                c.bindings == default_bindings_view()
            }
        }),
{
    lemma_fold_all(nodes, initial_read_state(), read_step(sources, answers));
    lemma_bindings_progress(nodes, sources, answers, nodes.len() as int);
    assert(nodes.take(nodes.len() as int) =~= nodes);
}

} // verus!
