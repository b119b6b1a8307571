//! Top-level configuration nodes that each add one item: window rules,
//! programs to start, edge commands and key bindings.

use vstd::prelude::*;

use crate::bindings::action_named;
use crate::config::{
    opt_text, texts, ActionView, BindingView, ConfigAction, EdgeCommand, EdgeCommandView, KeyBinding,
    WindowRule, WindowRuleView,
};
use crate::config_doc::{
    argument, fold_steps, lemma_fold_all, lemma_fold_error, lemma_fold_next, number_at,
    optional_string_property, property, string_at, text_of, Head, HeadView, Node, NodeView, Number,
    Value, ValueView,
};
use crate::config_error::ConfigError;
use crate::direction::Direction;
use crate::keys::{chord_key_name, chord_named, key_from_answer, lookup_for, quoted, Key, KeyChord, KeyLookup, KeyLookupPlan};
use crate::text::{append_chars, append_str, ascii_lower_seq, is_word};

verus! {

// ---------------------------------------------------------------- numbers

/// Whether a camera zoom lies in `[0.1, 1.0]`. Binary64 values with the sign
/// bit clear are ordered as their bit patterns, and NaN patterns lie above all
/// finite ones, so the range is a range of bit patterns.
pub open spec fn zoom_in_range(zoom: Number) -> bool {
    match zoom {
        Number::Integer(i) => i == 1,
        Number::Real(bits) => 0x3FB9_9999_9999_999A <= bits <= 0x3FF0_0000_0000_0000,
    }
}

fn zoom_ok(zoom: Number) -> (ok: bool)
    ensures
        ok == zoom_in_range(zoom),
{
    match zoom {
        Number::Integer(i) => i == 1,
        Number::Real(bits) => 0x3FB9_9999_9999_999A <= bits && bits <= 0x3FF0_0000_0000_0000,
    }
}

/// Whether a number, rounded to binary32 as opacities are stored, lies in
/// `[0, 1]`. Rounding to nearest (ties to even) maps a binary64 value into
/// that range exactly when the value lies in `[-2^-150, 1 + 2^-24]`; with
/// the sign bit clear that is a range of bit patterns, and with it set the
/// patterns of `-0.0` through `-2^-150`.
pub open spec fn unit_when_single(value: Number) -> bool {
    match value {
        Number::Integer(i) => i == 0 || i == 1,
        Number::Real(bits) => bits <= 0x3FF0_0000_1000_0000 || (0x8000_0000_0000_0000 <= bits
            <= 0xB690_0000_0000_0000),
    }
}

fn unit_ok(value: Number) -> (ok: bool)
    ensures
        ok == unit_when_single(value),
{
    match value {
        Number::Integer(i) => i == 0 || i == 1,
        Number::Real(bits) => bits <= 0x3FF0_0000_1000_0000 || (0x8000_0000_0000_0000 <= bits && bits
            <= 0xB690_0000_0000_0000),
    }
}

// ---------------------------------------------------------------- window rules

/// A window rule after one option of its block.
pub open spec fn rule_option(r: WindowRuleView, child: HeadView) -> Result<WindowRuleView, Seq<char>> {
    let name = child.name;
    if name == "match"@ {
        match optional_string_property(child, "app-id"@) {
            Err(m) => Err(m),
            Ok(app_id) => match optional_string_property(child, "title"@) {
                Err(m) => Err(m),
                Ok(title) => Ok(
                    WindowRuleView {
                        app_id: if app_id is Some {
                            app_id
                        } else {
                            r.app_id
                        },
                        title: if title is Some {
                            title
                        } else {
                            r.title
                        },
                        ..r
                    },
                ),
            },
        }
    } else if name == "opacity"@ {
        match number_at(child, 0) {
            Err(m) => Err(m),
            Ok(n) => Ok(WindowRuleView { opacity: Some(n), ..r }),
        }
    } else if name == "floating"@ {
        match argument(child, 0) {
            Some(ValueView::Bool(b)) => Ok(WindowRuleView { floating: Some(b), ..r }),
            _ => Err("floating expects true or false"@),
        }
    } else if name == "blur"@ {
        match crate::config_doc::bool_first(child) {
            Err(m) => Err(m),
            Ok(b) => Ok(WindowRuleView { blur: Some(b), ..r }),
        }
    } else {
        Err(quoted("unknown window-rule option "@, name))
    }
}

proof fn lemma_rule_option_words()
    ensures
        "match"@.len() == 5,
        "opacity"@.len() == 7,
        "floating"@.len() == 8,
        "blur"@.len() == 4,
{
    reveal_strlit("match");
    reveal_strlit("opacity");
    reveal_strlit("floating");
    reveal_strlit("blur");
}

/// Each option of a window rule sets its own property to the value written
/// and leaves the others: `blur b` and `floating b` set blur and floating to
/// `b` (false as well as true), and `opacity n` sets the opacity to `n`.
pub proof fn lemma_rule_options_set_what_they_write(r: WindowRuleView, child: HeadView, b: bool, n: Number)
    ensures
        child.name == "blur"@ && argument(child, 0) == Some(ValueView::Bool(b)) ==> rule_option(r, child) == Ok::<
            WindowRuleView,
            Seq<char>,
        >(WindowRuleView { app_id: r.app_id, title: r.title, opacity: r.opacity, floating: r.floating, blur: Some(b) }),
        child.name == "floating"@ && argument(child, 0) == Some(ValueView::Bool(b)) ==> rule_option(r, child)
            == Ok::<WindowRuleView, Seq<char>>(
            WindowRuleView { app_id: r.app_id, title: r.title, opacity: r.opacity, floating: Some(b), blur: r.blur },
        ),
        child.name == "opacity"@ && number_at(child, 0) == Ok::<Number, Seq<char>>(n) ==> rule_option(r, child)
            == Ok::<WindowRuleView, Seq<char>>(
            WindowRuleView { app_id: r.app_id, title: r.title, opacity: Some(n), floating: r.floating, blur: r.blur },
        ),
{
    lemma_rule_option_words();
}

/// [`rule_option`] as a step of a walk.
pub open spec fn rule_step() -> spec_fn(WindowRuleView, HeadView) -> Result<WindowRuleView, Seq<char>> {
    |r: WindowRuleView, c: HeadView| rule_option(r, c)
}

/// The string value of a property, ignoring a value that is no string.
pub open spec fn string_property(head: HeadView, key: Seq<char>) -> Option<Seq<char>> {
    match property(head.entries, key) {
        Some(v) => text_of(v),
        None => None,
    }
}

/// A window rule with only the matchers written as properties of its node.
pub open spec fn rule_start(node: NodeView) -> WindowRuleView {
    WindowRuleView {
        app_id: string_property(node.head, "app-id"@),
        title: string_property(node.head, "title"@),
        opacity: None,
        floating: None,
        blur: None,
    }
}

/// The window rule a `window-rule` node writes: matchers given as
/// properties of the node, then its block in order (a `match` option
/// replaces the matchers it names), a required matcher, and an opacity that
/// must lie in `[0, 1]`.
pub open spec fn rule_of(node: NodeView) -> Result<WindowRuleView, Seq<char>> {
    let start = rule_start(node);
    let walked = if node.head.has_children {
        fold_steps(node.children, start, rule_step())
    } else {
        Ok(start)
    };
    match walked {
        Err(m) => Err(m),
        Ok(r) => if r.app_id is None && r.title is None {
            Err("window-rule requires an app-id or title matcher"@)
        } else if r.opacity matches Some(o) && !unit_when_single(o) {
            Err("window-rule opacity must be between 0 and 1"@)
        } else {
            Ok(r)
        },
    }
}

/// The value of the last option named `name` among `children` that writes
/// a boolean, if any does.
pub open spec fn last_bool_option(children: Seq<HeadView>, name: Seq<char>) -> Option<bool>
    decreases children.len(),
{
    if children.len() == 0 {
        None
    } else if children.last().name == name && argument(children.last(), 0) is Some && argument(
        children.last(),
        0,
    )->Some_0 is Bool {
        Some(argument(children.last(), 0)->Some_0->Bool_0)
    } else {
        last_bool_option(children.drop_last(), name)
    }
}

proof fn lemma_rule_bools_progress(node: NodeView, k: int)
    requires
        0 <= k <= node.children.len(),
        fold_steps(node.children.take(k), rule_start(node), rule_step()) is Ok,
    ensures
        fold_steps(node.children.take(k), rule_start(node), rule_step())->Ok_0.blur == last_bool_option(
            node.children.take(k),
            "blur"@,
        ),
        fold_steps(node.children.take(k), rule_start(node), rule_step())->Ok_0.floating == last_bool_option(
            node.children.take(k),
            "floating"@,
        ),
    decreases k,
{
    lemma_rule_option_words();
    if k > 0 {
        lemma_fold_next(node.children, rule_start(node), rule_step(), k - 1);
        lemma_rule_bools_progress(node, k - 1);
        let now = node.children.take(k);
        assert(now.drop_last() =~= node.children.take(k - 1));
        assert(now.last() == node.children[k - 1]);
    } else {
        assert(node.children.take(0).len() == 0);
    }
}

/// An accepted window rule matches on something, keeps an opacity in
/// `[0, 1]`, and without a block matches on the `app-id` and `title`
/// properties written on its node and sets nothing.
pub proof fn lemma_accepted_rules_match_and_stay_in_range(node: NodeView)
    requires
        rule_of(node) is Ok,
    ensures
        rule_of(node)->Ok_0.app_id is Some || rule_of(node)->Ok_0.title is Some,
        rule_of(node)->Ok_0.opacity matches Some(o) ==> unit_when_single(o),
        !node.head.has_children ==> rule_of(node) == Ok::<WindowRuleView, Seq<char>>(
            WindowRuleView {
                app_id: string_property(node.head, "app-id"@),
                title: string_property(node.head, "title"@),
                opacity: None,
                floating: None,
                blur: None,
            },
        ),
{
}

/// A window rule's blur and floating are the values of the last `blur` and
/// `floating` options of its block (none when there is none): `blur false`
/// written last gives blur `Some(false)`.
pub proof fn lemma_rule_keeps_last_written_bools(node: NodeView)
    requires
        rule_of(node) is Ok,
    ensures
        rule_of(node)->Ok_0.blur == if node.head.has_children {
            last_bool_option(node.children, "blur"@)
        } else {
            None
        },
        rule_of(node)->Ok_0.floating == if node.head.has_children {
            last_bool_option(node.children, "floating"@)
        } else {
            None
        },
{
    if node.head.has_children {
        lemma_fold_all(node.children, rule_start(node), rule_step());
        lemma_rule_bools_progress(node, node.children.len() as int);
        assert(node.children.take(node.children.len() as int) =~= node.children);
    }
}

fn string_property_of(head: &Head, key: &str) -> (r: Option<String>)
    ensures
        opt_text(r) == string_property(head@, key@),
{
    match head.property_named(&crate::text::chars_of(key)) {
        Some(Value::Text(s)) => Some(s.clone()),
        Some(Value::RawText(s)) => Some(s.clone()),
        _ => None,
    }
}

fn rule_option_of(rule: &mut WindowRule, child: &Head) -> (r: Result<(), ConfigError>)
    ensures
        match rule_option(old(rule)@, child@) {
            Ok(v) => r is Ok && final(rule)@ == v,
            Err(m) => r matches Err(e) && e.0@ == m,
        },
{
    if child.is_named("match") {
        let app_id = child.optional_string_property("app-id")?;
        let title = child.optional_string_property("title")?;
        if app_id.is_some() {
            rule.app_id = app_id;
        }
        if title.is_some() {
            rule.title = title;
        }
    } else if child.is_named("opacity") {
        rule.opacity = Some(child.number_at(0)?);
    } else if child.is_named("floating") {
        match child.argument_at(0) {
            Some(Value::Bool(b)) => rule.floating = Some(*b),
            _ => return Err(ConfigError::from_str("floating expects true or false")),
        }
    } else if child.is_named("blur") {
        rule.blur = Some(child.bool_first()?);
    } else {
        return Err(crate::keys::quoted_error("unknown window-rule option ", &crate::text::chars_of(child.name.as_str())));
    }
    Ok(())
}

/// Reads a `window-rule` node.
pub fn parse_window_rule(node: &Node) -> (r: Result<WindowRule, ConfigError>)
    ensures
        match rule_of(node@) {
            Ok(v) => r matches Ok(w) && w@ == v,
            Err(m) => r matches Err(e) && e.0@ == m,
        },
{
    let mut rule = WindowRule {
        app_id: string_property_of(&node.head, "app-id"),
        title: string_property_of(&node.head, "title"),
        opacity: None,
        floating: None,
        blur: None,
    };
    let ghost start = rule@;
    let ghost children = node@.children;
    let ghost step = rule_step();
    if node.head.has_children {
        let mut i: usize = 0;
        while i < node.children.len()
            invariant
                i <= node.children.len(),
                children == node@.children,
                children.len() == node.children.len(),
                step == rule_step(),
                start == rule_start(node@),
                node.head.has_children,
                fold_steps(children.take(i as int), start, step) == Ok::<WindowRuleView, Seq<char>>(rule@),
            decreases node.children.len() - i,
        {
            proof {
                lemma_fold_next(children, start, step, i as int);
            }
            let child = &node.children[i];
            assert(children[i as int] == child@);
            match rule_option_of(&mut rule, child) {
                Ok(()) => {},
                Err(e) => {
                    proof {
                        lemma_fold_error(children, start, step, i as int + 1);
                    }
                    return Err(e);
                },
            }
            i = i + 1;
        }
        proof {
            lemma_fold_all(children, start, step);
        }
    }
    if rule.app_id.is_none() && rule.title.is_none() {
        return Err(ConfigError::from_str("window-rule requires an app-id or title matcher"));
    }
    match rule.opacity {
        Some(o) => {
            if !unit_ok(o) {
                return Err(ConfigError::from_str("window-rule opacity must be between 0 and 1"));
            }
        },
        None => {},
    }
    Ok(rule)
}

// ---------------------------------------------------------------- programs

/// The positional strings from `start` up to (not including) `end`; the
/// first position that holds no string fails.
pub open spec fn strings_between(head: HeadView, start: int, end: int) -> Result<Seq<Seq<char>>, Seq<char>>
    decreases end - start,
{
    if end <= start {
        Ok(Seq::empty())
    } else {
        match strings_between(head, start, end - 1) {
            Err(m) => Err(m),
            Ok(v) => match string_at(head, end - 1) {
                Err(m) => Err(m),
                Ok(s) => Ok(v.push(s)),
            },
        }
    }
}

/// The strings from position `start` to the node's number of entries (named
/// ones included), which must begin with a non-empty executable.
pub open spec fn argv_of(head: HeadView, start: int, context: Seq<char>) -> Result<Seq<Seq<char>>, Seq<char>> {
    match strings_between(head, start, head.entries.len() as int) {
        Err(m) => Err(m),
        Ok(v) => if v.len() == 0 || v[0].len() == 0 {
            Err(context + " expects a non-empty executable"@)
        } else {
            Ok(v)
        },
    }
}

proof fn lemma_strings_error(head: HeadView, start: int, end: int, last: int)
    requires
        start <= end <= last,
        strings_between(head, start, end) is Err,
    ensures
        strings_between(head, start, last) == strings_between(head, start, end),
    decreases last - end,
{
    if end < last {
        lemma_strings_error(head, start, end, last - 1);
    }
}

fn strings_from(head: &Head, start: usize) -> (r: Result<Vec<String>, ConfigError>)
    ensures
        match strings_between(head@, start as int, head@.entries.len() as int) {
            Ok(v) => r matches Ok(w) && texts(w@) == v,
            Err(m) => r matches Err(e) && e.0@ == m,
        },
{
    let end = head.entries.len();
    assert(head@.entries.len() == end);
    let mut argv: Vec<String> = Vec::new();
    if start >= end {
        assert(texts(argv@) =~= Seq::<Seq<char>>::empty());
        return Ok(argv);
    }
    let mut i: usize = start;
    assert(texts(argv@) =~= Seq::<Seq<char>>::empty());
    while i < end
        invariant
            start <= i <= end,
            end == head@.entries.len(),
            strings_between(head@, start as int, i as int) == Ok::<Seq<Seq<char>>, Seq<char>>(texts(argv@)),
        decreases end - i,
    {
        match head.string_at(i) {
            Ok(s) => {
                let ghost before = argv@;
                argv.push(s);
                assert(texts(argv@) =~= texts(before).push(s@));
            },
            Err(e) => {
                proof {
                    lemma_strings_error(head@, start as int, i as int + 1, end as int);
                }
                return Err(e);
            },
        }
        i = i + 1;
    }
    Ok(argv)
}

/// Reads the program and arguments of a node, from position `start` on.
pub fn parse_argv(head: &Head, start: usize, context: &str) -> (r: Result<Vec<String>, ConfigError>)
    ensures
        match argv_of(head@, start as int, context@) {
            Ok(v) => r matches Ok(w) && texts(w@) == v,
            Err(m) => r matches Err(e) && e.0@ == m,
        },
{
    let argv = strings_from(head, start)?;
    if argv.len() == 0 || argv[0].as_str().is_empty() {
        let mut m = crate::text::chars_of(context);
        append_str(&mut m, " expects a non-empty executable");
        return Err(ConfigError::from_chars(&m));
    }
    assert(texts(argv@)[0] == argv@[0]@);
    Ok(argv)
}

/// Reads the program of a `spawn-at-startup` node.
pub fn parse_command(head: &Head) -> (r: Result<Vec<String>, ConfigError>)
    ensures
        match argv_of(head@, 0, "spawn-at-startup"@) {
            Ok(v) => r matches Ok(w) && texts(w@) == v,
            Err(m) => r matches Err(e) && e.0@ == m,
        },
{
    parse_argv(head, 0, "spawn-at-startup")
}

/// The output edge an `edge-command` names.
pub open spec fn edge_named(word: Seq<char>) -> Option<Direction> {
    if word == "left"@ {
        Some(Direction::Left)
    } else if word == "right"@ {
        Some(Direction::Right)
    } else if word == "top"@ {
        Some(Direction::Up)
    } else if word == "bottom"@ {
        Some(Direction::Down)
    } else {
        None
    }
}

/// The edge command an `edge-command` node writes: an edge and a program.
pub open spec fn edge_command_of(head: HeadView) -> Result<EdgeCommandView, Seq<char>> {
    match string_at(head, 0) {
        Err(m) => Err(m),
        Ok(word) => match edge_named(word) {
            None => Err("edge-command edge must be left, right, top, or bottom"@),
            Some(edge) => match strings_between(head, 1, head.entries.len() as int) {
                Err(m) => Err(m),
                Ok(argv) => if argv.len() == 0 || argv[0].len() == 0 {
                    Err("edge-command expects an executable after the edge"@)
                } else {
                    Ok(EdgeCommandView { edge, argv })
                },
            },
        },
    }
}

/// Reads an `edge-command` node.
pub fn parse_edge_command(head: &Head) -> (r: Result<EdgeCommand, ConfigError>)
    ensures
        match edge_command_of(head@) {
            Ok(v) => r matches Ok(c) && c@ == v,
            Err(m) => r matches Err(e) && e.0@ == m,
        },
{
    let word = crate::text::chars_of(head.string_at(0)?.as_str());
    let edge = if is_word(&word, "left") {
        Direction::Left
    } else if is_word(&word, "right") {
        Direction::Right
    } else if is_word(&word, "top") {
        Direction::Up
    } else if is_word(&word, "bottom") {
        Direction::Down
    } else {
        return Err(ConfigError::from_str("edge-command edge must be left, right, top, or bottom"));
    };
    let argv = strings_from(head, 1)?;
    if argv.len() == 0 || argv[0].as_str().is_empty() {
        return Err(ConfigError::from_str("edge-command expects an executable after the edge"));
    }
    assert(texts(argv@)[0] == argv@[0]@);
    Ok(EdgeCommand { edge, argv })
}

// ---------------------------------------------------------------- bindings

/// A question for libxkbcommon's keysym tables: the keysym of an xkb name
/// (`xkb_keysym_from_name`, matching exactly or ignoring case), or the keysym
/// of a code point (`xkb_utf32_to_keysym`).
#[derive(Clone, Debug, PartialEq)]
pub enum KeysymQuery {
    Named { name: String, ignoring_case: bool },
    CodePoint(u32),
}

/// The mathematical form of a [`KeysymQuery`].
pub enum QueryView {
    Named(Seq<char>, bool),
    CodePoint(u32),
}

impl View for KeysymQuery {
    type V = QueryView;

    open spec fn view(&self) -> QueryView {
        match self {
            KeysymQuery::Named { name, ignoring_case } => QueryView::Named(name@, *ignoring_case),
            KeysymQuery::CodePoint(c) => QueryView::CodePoint(*c),
        }
    }
}

/// What the keysym tables answered to a query: the keysym (zero for none)
/// and the character that keysym types (`xkb_keysym_to_utf32`, zero for
/// none).
#[derive(Clone, Debug)]
pub struct KeysymAnswer {
    pub query: KeysymQuery,
    pub keysym: u32,
    pub unicode: u32,
}

/// The answer recorded for a query: the first one given for it, or `(0, 0)`
/// (nothing known) when none was given.
pub open spec fn answer_for(answers: Seq<KeysymAnswer>, query: QueryView) -> (u32, u32)
    decreases answers.len(),
{
    if answers.len() == 0 {
        (0, 0)
    } else if answers[0].query@ == query {
        (answers[0].keysym, answers[0].unicode)
    } else {
        answer_for(answers.skip(1), query)
    }
}

/// The keysym and character that the key name `value` resolves to: a
/// one-character name by its code point; any other looked-up name by its
/// xkb name matched exactly, and failing that ignoring case; `(0, 0)` for a
/// name that needs no lookup or that no table knows.
pub open spec fn keysym_answer(value: Seq<char>, answers: Seq<KeysymAnswer>) -> (u32, u32) {
    match lookup_for(value) {
        Ok(KeyLookupPlan::CodePoint(c)) => answer_for(answers, QueryView::CodePoint(c)),
        Ok(KeyLookupPlan::ByName(n)) => if answer_for(answers, QueryView::Named(n, false)).0 != 0 {
            answer_for(answers, QueryView::Named(n, false))
        } else {
            answer_for(answers, QueryView::Named(n, true))
        },
        _ => (0, 0),
    }
}

/// The key that the key name `value` denotes, given the tables' answers.
pub open spec fn key_named(value: Seq<char>, answers: Seq<KeysymAnswer>) -> Result<Key, Seq<char>> {
    key_from_answer(value, keysym_answer(value, answers).0, keysym_answer(value, answers).1)
}

/// The chord `text` names once its key name has been looked up in `answers`.
pub open spec fn chord_of(text: Seq<char>, answers: Seq<KeysymAnswer>) -> Result<KeyChord, Seq<char>> {
    chord_named(text, key_named(chord_key_name(text), answers))
}

fn same_query(a: &KeysymQuery, b: &KeysymQuery) -> (r: bool)
    ensures
        r == (a@ == b@),
{
    match (a, b) {
        (KeysymQuery::Named { name: n, ignoring_case: i }, KeysymQuery::Named { name: m, ignoring_case: j }) => {
            *i == *j && crate::text::chars_equal(&crate::text::chars_of(n.as_str()), &crate::text::chars_of(m.as_str()))
        },
        (KeysymQuery::CodePoint(c), KeysymQuery::CodePoint(d)) => *c == *d,
        _ => false,
    }
}

fn answer_of(answers: &Vec<KeysymAnswer>, query: &KeysymQuery) -> (r: (u32, u32))
    ensures
        r == answer_for(answers@, query@),
{
    let mut i: usize = 0;
    assert(answers@.skip(0) =~= answers@);
    while i < answers.len()
        invariant
            i <= answers.len(),
            answer_for(answers@, query@) == answer_for(answers@.skip(i as int), query@),
        decreases answers.len() - i,
    {
        assert(answers@.skip(i as int)[0] == answers@[i as int]);
        assert(answers@.skip(i as int).skip(1) =~= answers@.skip(i as int + 1));
        if same_query(&answers[i].query, query) {
            return (answers[i].keysym, answers[i].unicode);
        }
        i = i + 1;
    }
    assert(answers@.skip(i as int).len() == 0);
    (0, 0)
}

/// Reads a key name, looking it up in the tables' `answers`.
pub fn parse_key(value: &Vec<char>, answers: &Vec<KeysymAnswer>) -> (key: Result<Key, ConfigError>)
    ensures
        match key_named(value@, answers@) {
            Ok(k) => key == Ok::<Key, ConfigError>(k),
            Err(message) => key matches Err(e) && e.0@ == message,
        },
{
    let (keysym, unicode) = match crate::keys::key_lookup(value) {
        KeyLookup::CodePoint(c) => answer_of(answers, &KeysymQuery::CodePoint(c)),
        KeyLookup::ByName(name) => {
            let exact = answer_of(answers, &KeysymQuery::Named { name: name.clone(), ignoring_case: false });
            if exact.0 != 0 {
                exact
            } else {
                answer_of(answers, &KeysymQuery::Named { name, ignoring_case: true })
            }
        },
        _ => (0, 0),
    };
    crate::keys::key_from_lookup_answer(value, keysym, unicode)
}

/// The queries the key name `value` needs answered.
pub open spec fn name_queries(value: Seq<char>) -> Seq<QueryView> {
    match lookup_for(value) {
        Ok(KeyLookupPlan::CodePoint(c)) => seq![QueryView::CodePoint(c)],
        Ok(KeyLookupPlan::ByName(n)) => seq![QueryView::Named(n, false), QueryView::Named(n, true)],
        _ => Seq::empty(),
    }
}

/// The queries a node needs answered: those of the key name of the chord of
/// a `bind` node.
pub open spec fn node_queries(head: HeadView) -> Seq<QueryView> {
    if head.name == "bind"@ {
        match string_at(head, 0) {
            Ok(text) => name_queries(chord_key_name(text)),
            Err(_) => Seq::empty(),
        }
    } else {
        Seq::empty()
    }
}

/// The queries that reading `nodes` needs answered, in order.
pub open spec fn document_queries(nodes: Seq<NodeView>) -> Seq<QueryView>
    decreases nodes.len(),
{
    if nodes.len() == 0 {
        Seq::empty()
    } else {
        document_queries(nodes.drop_last()) + node_queries(nodes.last().head)
    }
}

/// The views of a list of queries.
pub open spec fn query_views(queries: Seq<KeysymQuery>) -> Seq<QueryView> {
    queries.map_values(|q: KeysymQuery| q@)
}

/// The keysym-table queries that reading `nodes` needs answered: for the key
/// name of each chord, its code point or its xkb name (exactly and ignoring
/// case).
pub fn keysym_queries(nodes: &Vec<Node>) -> (queries: Vec<KeysymQuery>)
    ensures
        query_views(queries@) == document_queries(crate::config_doc::node_views(nodes@)),
{
    let ghost views = crate::config_doc::node_views(nodes@);
    let mut queries: Vec<KeysymQuery> = Vec::new();
    let mut i: usize = 0;
    while i < nodes.len()
        invariant
            i <= nodes@.len(),
            views == crate::config_doc::node_views(nodes@),
            query_views(queries@) == document_queries(views.take(i as int)),
        decreases nodes.len() - i,
    {
        let ghost before = queries@;
        let head = &nodes[i].head;
        let mut added: Vec<KeysymQuery> = Vec::new();
        if head.is_named("bind") {
            match head.string_at(0) {
                Ok(text) => {
                    let name = crate::keys::key_name_of_chord(text.as_str());
                    match crate::keys::key_lookup(&name) {
                        KeyLookup::CodePoint(c) => added.push(KeysymQuery::CodePoint(c)),
                        KeyLookup::ByName(n) => {
                            added.push(KeysymQuery::Named { name: n.clone(), ignoring_case: false });
                            added.push(KeysymQuery::Named { name: n, ignoring_case: true });
                        },
                        _ => {},
                    }
                },
                Err(_) => {},
            }
        }
        assert(query_views(added@) =~= node_queries(views[i as int].head));
        let ghost added_views = added@;
        queries.append(&mut added);
        proof {
            assert(views.take(i as int + 1).drop_last() =~= views.take(i as int));
            assert(queries@ =~= before + added_views);
            assert(query_views(queries@) =~= query_views(before) + query_views(added_views));
        }
        i = i + 1;
    }
    assert(views.take(nodes@.len() as int) =~= views);
    queries
}

/// A name that is looked up under another xkb name (an alias such as `Esc`
/// for `Escape`, written in any case) denotes the same key as that name,
/// whatever the tables answer: both succeed or fail together, and on
/// success give the same key.
pub proof fn lemma_alias_denotes_its_target(alias: Seq<char>, target: Seq<char>, answers: Seq<KeysymAnswer>)
    requires
        lookup_for(alias) == Ok::<KeyLookupPlan, Seq<char>>(KeyLookupPlan::ByName(target)),
        lookup_for(target) == Ok::<KeyLookupPlan, Seq<char>>(KeyLookupPlan::ByName(target)),
    ensures
        (key_named(alias, answers) is Ok) == (key_named(target, answers) is Ok),
        key_named(alias, answers) is Ok ==> key_named(alias, answers) == key_named(target, answers),
{
}

/// Whether two readings of key names agree: both fail, or both give the
/// same key.
pub open spec fn same_key(a: Result<Key, Seq<char>>, b: Result<Key, Seq<char>>) -> bool {
    (a is Ok) == (b is Ok) && (a is Ok ==> a == b)
}

/// Every common alias, written in any case, resolves exactly as the xkb
/// name it stands for, whatever the keysym tables answer: `ESC` as
/// `Escape`, `PrtSc` as `Print`, `PgDn` as `Page_Down`, and so on.
pub proof fn lemma_aliases_resolve_as_their_targets(a: Seq<char>, answers: Seq<KeysymAnswer>)
    ensures
        ascii_lower_seq(a) == "esc"@ ==> same_key(key_named(a, answers), key_named("Escape"@, answers)),
        ascii_lower_seq(a) == "spacebar"@ ==> same_key(key_named(a, answers), key_named("space"@, answers)),
        ascii_lower_seq(a) == "printscreen"@ || ascii_lower_seq(a) == "prtsc"@ || ascii_lower_seq(a) == "prtscr"@ ==> same_key(key_named(a, answers), key_named("Print"@, answers)),
        ascii_lower_seq(a) == "pageup"@ || ascii_lower_seq(a) == "pgup"@ ==> same_key(key_named(a, answers), key_named("Page_Up"@, answers)),
        ascii_lower_seq(a) == "pagedown"@ || ascii_lower_seq(a) == "pgdown"@ || ascii_lower_seq(a) == "pgdn"@ ==> same_key(key_named(a, answers), key_named("Page_Down"@, answers)),
        ascii_lower_seq(a) == "backspace"@ ==> same_key(key_named(a, answers), key_named("BackSpace"@, answers)),
        ascii_lower_seq(a) == "capslock"@ ==> same_key(key_named(a, answers), key_named("Caps_Lock"@, answers)),
        ascii_lower_seq(a) == "numlock"@ ==> same_key(key_named(a, answers), key_named("Num_Lock"@, answers)),
        ascii_lower_seq(a) == "scrolllock"@ ==> same_key(key_named(a, answers), key_named("Scroll_Lock"@, answers)),
{
    crate::keys::lemma_key_aliases(a);
    crate::keys::lemma_alias_targets();
    if ascii_lower_seq(a) == "esc"@ {
        lemma_alias_denotes_its_target(a, "Escape"@, answers);
    }
    if ascii_lower_seq(a) == "spacebar"@ {
        lemma_alias_denotes_its_target(a, "space"@, answers);
    }
    if ascii_lower_seq(a) == "printscreen"@ || ascii_lower_seq(a) == "prtsc"@ || ascii_lower_seq(a) == "prtscr"@ {
        lemma_alias_denotes_its_target(a, "Print"@, answers);
    }
    if ascii_lower_seq(a) == "pageup"@ || ascii_lower_seq(a) == "pgup"@ {
        lemma_alias_denotes_its_target(a, "Page_Up"@, answers);
    }
    if ascii_lower_seq(a) == "pagedown"@ || ascii_lower_seq(a) == "pgdown"@ || ascii_lower_seq(a) == "pgdn"@ {
        lemma_alias_denotes_its_target(a, "Page_Down"@, answers);
    }
    if ascii_lower_seq(a) == "backspace"@ {
        lemma_alias_denotes_its_target(a, "BackSpace"@, answers);
    }
    if ascii_lower_seq(a) == "capslock"@ {
        lemma_alias_denotes_its_target(a, "Caps_Lock"@, answers);
    }
    if ascii_lower_seq(a) == "numlock"@ {
        lemma_alias_denotes_its_target(a, "Num_Lock"@, answers);
    }
    if ascii_lower_seq(a) == "scrolllock"@ {
        lemma_alias_denotes_its_target(a, "Scroll_Lock"@, answers);
    }
}

/// Reads a key chord such as `Super+Shift+H`, looking its key name up in
/// `answers`.
pub fn parse_chord(text: &str, answers: &Vec<KeysymAnswer>) -> (r: Result<KeyChord, ConfigError>)
    ensures
        match chord_of(text@, answers@) {
            Ok(c) => r == Ok::<KeyChord, ConfigError>(c),
            Err(m) => r matches Err(e) && e.0@ == m,
        },
{
    let name = crate::keys::key_name_of_chord(text);
    let key = parse_key(&name, answers);
    KeyChord::from_str(text, key)
}

/// The binding a `bind` node writes: a chord, an action name and the
/// action's arguments (one zoom value for `camera-zoom`, a program for
/// `spawn`, none otherwise).
pub open spec fn binding_of(head: HeadView, answers: Seq<KeysymAnswer>) -> Result<BindingView, Seq<char>> {
    match string_at(head, 0) {
        Err(m) => Err(m),
        Ok(text) => match chord_of(text, answers) {
            Err(m) => Err(m),
            Ok(chord) => match string_at(head, 1) {
                Err(m) => Err(m),
                Ok(name) => if name == "camera-zoom"@ {
                    if head.entries.len() != 3 {
                        Err("camera-zoom bind expects exactly one zoom value"@)
                    } else {
                        match number_at(head, 2) {
                            Err(m) => Err(m),
                            Ok(z) => if zoom_in_range(z) {
                                Ok(BindingView { chord, action: ActionView::CameraZoom(z) })
                            } else {
                                Err("camera-zoom bind value must be between 0.1 and 1.0"@)
                            },
                        }
                    }
                } else if name == "spawn"@ {
                    match argv_of(head, 2, "spawn bind"@) {
                        Err(m) => Err(m),
                        Ok(argv) => Ok(BindingView { chord, action: ActionView::Spawn(argv) }),
                    }
                } else if head.entries.len() != 2 {
                    Err(name + " bind does not accept additional arguments"@)
                } else {
                    match action_named(name) {
                        Err(m) => Err(m),
                        Ok(action) => Ok(BindingView { chord, action }),
                    }
                },
            },
        },
    }
}

/// Reads a `bind` node, looking chord key names up in `answers`.
pub fn parse_binding(head: &Head, answers: &Vec<KeysymAnswer>) -> (r: Result<KeyBinding, ConfigError>)
    ensures
        match binding_of(head@, answers@) {
            Ok(v) => r matches Ok(b) && b@ == v,
            Err(m) => r matches Err(e) && e.0@ == m,
        },
{
    let text = head.string_at(0)?;
    let chord = parse_chord(text.as_str(), answers)?;
    let name = crate::text::chars_of(head.string_at(1)?.as_str());
    if is_word(&name, "camera-zoom") {
        if head.entries.len() != 3 {
            return Err(ConfigError::from_str("camera-zoom bind expects exactly one zoom value"));
        }
        let zoom = head.number_at(2)?;
        if !zoom_ok(zoom) {
            return Err(ConfigError::from_str("camera-zoom bind value must be between 0.1 and 1.0"));
        }
        Ok(KeyBinding { chord, action: ConfigAction::CameraZoom(zoom) })
    } else if is_word(&name, "spawn") {
        let argv = parse_argv(head, 2, "spawn bind")?;
        Ok(KeyBinding { chord, action: ConfigAction::Spawn(argv) })
    } else if head.entries.len() != 2 {
        let mut m = name.clone();
        append_str(&mut m, " bind does not accept additional arguments");
        Err(ConfigError::from_chars(&m))
    } else {
        let action = crate::bindings::parse_action(&name)?;
        Ok(KeyBinding { chord, action })
    }
}

} // verus!
