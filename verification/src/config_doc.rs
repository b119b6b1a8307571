//! The configuration document as the parser reads it: top-level nodes with a
//! name, positional arguments, named properties and a block of child nodes.
//! The configuration language reads two levels, so a child node records only
//! whether it has a block of its own.

use vstd::prelude::*;

use crate::config_error::ConfigError;
use crate::text::{append_chars, append_str, decimal};

verus! {

/// A value written in the configuration.
#[derive(Clone, Debug)]
pub enum Value {
    /// A quoted string.
    Text(String),
    /// A raw string (`r"..."`).
    RawText(String),
    /// An integer, written in any base.
    Integer(i64),
    /// A decimal number: the bits of the IEEE-754 binary64 value that was read.
    Real(u64),
    Bool(bool),
    Null,
}

/// The mathematical form of a [`Value`].
pub enum ValueView {
    Text(Seq<char>),
    RawText(Seq<char>),
    Integer(i64),
    Real(u64),
    Bool(bool),
    Null,
}

impl View for Value {
    type V = ValueView;

    open spec fn view(&self) -> ValueView {
        match self {
            Value::Text(s) => ValueView::Text(s@),
            Value::RawText(s) => ValueView::RawText(s@),
            Value::Integer(i) => ValueView::Integer(*i),
            Value::Real(b) => ValueView::Real(*b),
            Value::Bool(b) => ValueView::Bool(*b),
            Value::Null => ValueView::Null,
        }
    }
}

/// The text of a string value, quoted or raw.
pub open spec fn text_of(value: ValueView) -> Option<Seq<char>> {
    match value {
        ValueView::Text(s) => Some(s),
        ValueView::RawText(s) => Some(s),
        _ => None,
    }
}

/// One entry of a node: a positional argument (no name) or a property.
#[derive(Clone, Debug)]
pub struct Entry {
    pub name: Option<String>,
    pub value: Value,
}

/// The mathematical form of an [`Entry`].
pub struct EntryView {
    pub name: Option<Seq<char>>,
    pub value: ValueView,
}

impl View for Entry {
    type V = EntryView;

    open spec fn view(&self) -> EntryView {
        EntryView {
            name: match &self.name {
                Some(n) => Some(n@),
                None => None,
            },
            value: self.value@,
        }
    }
}

/// A node's name and entries, and whether it has a block of children.
#[derive(Clone, Debug)]
pub struct Head {
    pub name: String,
    pub entries: Vec<Entry>,
    pub has_children: bool,
}

/// The mathematical form of a [`Head`].
pub struct HeadView {
    pub name: Seq<char>,
    pub entries: Seq<EntryView>,
    pub has_children: bool,
}

impl View for Head {
    type V = HeadView;

    open spec fn view(&self) -> HeadView {
        HeadView {
            name: self.name@,
            entries: self.entries@.map_values(|e: Entry| e@),
            has_children: self.has_children,
        }
    }
}

/// Where a node was written: the index of its file in the list of sources,
/// the line it starts on and that line's text without surrounding whitespace.
#[derive(Clone, Debug)]
pub struct Origin {
    pub file: usize,
    pub line: usize,
    pub text: String,
}

/// A top-level node and its child nodes (empty when it has no block).
#[derive(Clone, Debug)]
pub struct Node {
    pub head: Head,
    pub children: Vec<Head>,
    /// `None` for a node that was not read from a file.
    pub origin: Option<Origin>,
}

/// The mathematical form of an [`Origin`].
pub struct OriginView {
    pub file: usize,
    pub line: usize,
    pub text: Seq<char>,
}

/// The mathematical form of a [`Node`].
pub struct NodeView {
    pub head: HeadView,
    pub children: Seq<HeadView>,
    pub origin: Option<OriginView>,
}

impl View for Node {
    type V = NodeView;

    open spec fn view(&self) -> NodeView {
        NodeView {
            head: self.head@,
            children: self.children@.map_values(|c: Head| c@),
            origin: match &self.origin {
                Some(o) => Some(OriginView { file: o.file, line: o.line, text: o.text@ }),
                None => None,
            },
        }
    }
}

/// The views of a list of nodes.
pub open spec fn node_views(nodes: Seq<Node>) -> Seq<NodeView> {
    nodes.map_values(|n: Node| n@)
}

/// `step` applied to `init` and then to each of `items` in order; the first
/// error ends the walk.
pub open spec fn fold_steps<S, T>(items: Seq<T>, init: S, step: spec_fn(S, T) -> Result<S, Seq<char>>) -> Result<
    S,
    Seq<char>,
>
    decreases items.len(),
{
    if items.len() == 0 {
        Ok(init)
    } else {
        match fold_steps(items.drop_last(), init, step) {
            Err(e) => Err(e),
            Ok(s) => step(s, items.last()),
        }
    }
}

/// One more item of a walk.
pub proof fn lemma_fold_next<S, T>(items: Seq<T>, init: S, step: spec_fn(S, T) -> Result<S, Seq<char>>, i: int)
    requires
        0 <= i < items.len(),
    ensures
        fold_steps(items.take(i + 1), init, step) == match fold_steps(items.take(i), init, step) {
            Err(e) => Err(e),
            Ok(s) => step(s, items[i]),
        },
{
    assert(items.take(i + 1).drop_last() =~= items.take(i));
}

/// An error ends the walk: the whole walk fails as its prefix did.
pub proof fn lemma_fold_error<S, T>(items: Seq<T>, init: S, step: spec_fn(S, T) -> Result<S, Seq<char>>, i: int)
    requires
        0 <= i <= items.len(),
        fold_steps(items.take(i), init, step) is Err,
    ensures
        fold_steps(items, init, step) == fold_steps(items.take(i), init, step),
    decreases items.len() - i,
{
    if i < items.len() {
        lemma_fold_next(items, init, step, i);
        lemma_fold_error(items, init, step, i + 1);
    } else {
        assert(items.take(i) =~= items);
    }
}

/// A walk over all items.
pub proof fn lemma_fold_all<S, T>(items: Seq<T>, init: S, step: spec_fn(S, T) -> Result<S, Seq<char>>)
    ensures
        fold_steps(items.take(items.len() as int), init, step) == fold_steps(items, init, step),
{
    assert(items.take(items.len() as int) =~= items);
}

/// A configuration file: the path as it is displayed, and its text.
#[derive(Clone, Debug)]
pub struct SourceFile {
    pub path: String,
    pub text: String,
}

/// The values of the positional arguments among `entries`, in order.
pub open spec fn arguments(entries: Seq<EntryView>) -> Seq<ValueView>
    decreases entries.len(),
{
    if entries.len() == 0 {
        Seq::empty()
    } else {
        let rest = arguments(entries.drop_last());
        match entries.last().name {
            None => rest.push(entries.last().value),
            Some(_) => rest,
        }
    }
}

/// The positional argument number `index` of a node.
pub open spec fn argument(head: HeadView, index: int) -> Option<ValueView> {
    let args = arguments(head.entries);
    if 0 <= index < args.len() {
        Some(args[index])
    } else {
        None
    }
}

/// The value of the last property named `key` among `entries`.
pub open spec fn property(entries: Seq<EntryView>, key: Seq<char>) -> Option<ValueView>
    decreases entries.len(),
{
    if entries.len() == 0 {
        None
    } else if entries.last().name == Some(key) {
        Some(entries.last().value)
    } else {
        property(entries.drop_last(), key)
    }
}

/// A name between backticks, as messages quote names.
pub open spec fn ticked(name: Seq<char>) -> Seq<char> {
    "`"@ + name + "`"@
}

/// A node's name between backticks followed by `tail`.
pub open spec fn about(head: HeadView, tail: Seq<char>) -> Seq<char> {
    ticked(head.name) + tail
}

/// The positional string at `index`.
pub open spec fn string_at(head: HeadView, index: int) -> Result<Seq<char>, Seq<char>> {
    match argument(head, index) {
        Some(v) => match text_of(v) {
            Some(s) => Ok(s),
            None => Err(about(head, " expects a string at index "@ + decimal(index as nat))),
        },
        None => Err(about(head, " expects a string at index "@ + decimal(index as nat))),
    }
}

/// The positional non-negative integer at `index`.
pub open spec fn u64_at(head: HeadView, index: int) -> Result<u64, Seq<char>> {
    let error = about(head, " expects a non-negative integer at index "@ + decimal(index as nat));
    match argument(head, index) {
        Some(ValueView::Integer(i)) => if i >= 0 {
            Ok(i as u64)
        } else {
            Err(error)
        },
        _ => Err(error),
    }
}

/// The positional 32-bit integer at `index`.
pub open spec fn i32_at(head: HeadView, index: int) -> Result<i32, Seq<char>> {
    let error = about(head, " expects a 32-bit integer at index "@ + decimal(index as nat));
    match argument(head, index) {
        Some(ValueView::Integer(i)) => if i32::MIN <= i <= i32::MAX {
            Ok(i as i32)
        } else {
            Err(error)
        },
        _ => Err(error),
    }
}

/// A number as the configuration wrote it.
#[derive(Clone, Copy, Debug, PartialEq, Eq, Structural)]
pub enum Number {
    Integer(i64),
    /// The bits of an IEEE-754 binary64 value.
    Real(u64),
}

/// The positional number at `index`: a decimal or an integer.
pub open spec fn number_at(head: HeadView, index: int) -> Result<Number, Seq<char>> {
    match argument(head, index) {
        Some(ValueView::Integer(i)) => Ok(Number::Integer(i)),
        Some(ValueView::Real(b)) => Ok(Number::Real(b)),
        _ => Err(about(head, " expects a number at index "@ + decimal(index as nat))),
    }
}

/// The first positional argument as a 32-bit unsigned integer.
pub open spec fn u32_first(head: HeadView) -> Result<u32, Seq<char>> {
    match u64_at(head, 0) {
        Err(e) => Err(e),
        Ok(n) => if n <= u32::MAX {
            Ok(n as u32)
        } else {
            Err(about(head, " is too large"@))
        },
    }
}

/// The first positional argument as a boolean.
pub open spec fn bool_first(head: HeadView) -> Result<bool, Seq<char>> {
    match argument(head, 0) {
        Some(ValueView::Bool(b)) => Ok(b),
        _ => Err(about(head, " expects true or false"@)),
    }
}

/// The non-negative integer property `key`.
pub open spec fn u64_property(head: HeadView, key: Seq<char>) -> Result<u64, Seq<char>> {
    let error = about(head, " requires a non-negative integer "@ + ticked(key) + " property"@);
    match property(head.entries, key) {
        Some(ValueView::Integer(i)) => if i >= 0 {
            Ok(i as u64)
        } else {
            Err(error)
        },
        _ => Err(error),
    }
}

/// The string property `key`, if the node has one.
pub open spec fn optional_string_property(head: HeadView, key: Seq<char>) -> Result<Option<Seq<char>>, Seq<char>> {
    match property(head.entries, key) {
        None => Ok(None),
        Some(v) => match text_of(v) {
            Some(s) => Ok(Some(s)),
            None => Err(ticked(key) + " expects a string"@),
        },
    }
}

/// The characters of a `String`.
fn text_chars(s: &String) -> (v: Vec<char>)
    ensures
        v@ == s@,
{
    crate::text::chars_of(s.as_str())
}

/// The error `` `name`tail `` for a node.
fn about_error(head: &Head, tail: &Vec<char>) -> (e: ConfigError)
    ensures
        e.0@ == about(head@, tail@),
{
    let mut m: Vec<char> = Vec::new();
    append_str(&mut m, "`");
    append_chars(&mut m, &text_chars(&head.name));
    append_str(&mut m, "`");
    append_chars(&mut m, tail);
    ConfigError::from_chars(&m)
}

/// `lit` followed by the decimal form of `index`.
fn with_index(lit: &str, index: usize) -> (v: Vec<char>)
    ensures
        v@ == lit@ + decimal(index as nat),
{
    let mut v = crate::text::chars_of(lit);
    append_chars(&mut v, &crate::text::decimal_of(index as u64));
    v
}

proof fn lemma_arguments_step(entries: Seq<EntryView>, i: int)
    requires
        0 <= i < entries.len(),
    ensures
        entries.take(i + 1).drop_last() == entries.take(i),
        entries.take(i + 1).last() == entries[i],
{
    assert(entries.take(i + 1).drop_last() =~= entries.take(i));
}

proof fn lemma_arguments_prefix(entries: Seq<EntryView>, i: int, j: int)
    requires
        0 <= i <= j <= entries.len(),
    ensures
        arguments(entries.take(i)).len() <= arguments(entries.take(j)).len(),
        forall|k: int| 0 <= k < arguments(entries.take(i)).len() ==> arguments(entries.take(j))[k]
            == arguments(entries.take(i))[k],
    decreases j - i,
{
    if i < j {
        lemma_arguments_prefix(entries, i, j - 1);
        lemma_arguments_step(entries, j - 1);
    }
}

impl Head {
    /// The positional argument number `index`.
    pub fn argument_at(&self, index: usize) -> (v: Option<&Value>)
        ensures
            match v {
                Some(x) => argument(self@, index as int) == Some(x@),
                None => argument(self@, index as int) is None,
            },
    {
        let ghost entries = self@.entries;
        let mut count: usize = 0;
        let mut i: usize = 0;
        while i < self.entries.len()
            invariant
                i <= self.entries.len(),
                entries == self@.entries,
                entries.len() == self.entries.len(),
                count == arguments(entries.take(i as int)).len(),
                count <= index,
            decreases self.entries.len() - i,
        {
            proof {
                lemma_arguments_step(entries, i as int);
            }
            let entry = &self.entries[i];
            if entry.name.is_none() {
                if count == index {
                    proof {
                        lemma_arguments_prefix(entries, i as int + 1, entries.len() as int);
                        assert(entries.take(entries.len() as int) == entries);
                    }
                    return Some(&entry.value);
                }
                count = count + 1;
            }
            i = i + 1;
        }
        assert(entries.take(entries.len() as int) == entries);
        None
    }

    /// The value of the last property named `key`.
    pub fn property_named(&self, key: &Vec<char>) -> (v: Option<&Value>)
        ensures
            match v {
                Some(x) => property(self@.entries, key@) == Some(x@),
                None => property(self@.entries, key@) is None,
            },
    {
        let ghost entries = self@.entries;
        let mut i: usize = self.entries.len();
        assert(entries.take(i as int) == entries);
        while i > 0
            invariant
                i <= self.entries.len(),
                entries == self@.entries,
                entries.len() == self.entries.len(),
                property(entries, key@) == property(entries.take(i as int), key@),
            decreases i,
        {
            proof {
                lemma_arguments_step(entries, i as int - 1);
            }
            let entry = &self.entries[i - 1];
            match &entry.name {
                Some(n) => {
                    let chars = text_chars(n);
                    if crate::text::chars_equal(&chars, key) {
                        return Some(&entry.value);
                    }
                },
                None => {},
            }
            i = i - 1;
        }
        None
    }

    /// The positional string at `index`.
    pub fn string_at(&self, index: usize) -> (r: Result<String, ConfigError>)
        ensures
            match string_at(self@, index as int) {
                Ok(s) => r matches Ok(t) && t@ == s,
                Err(m) => r matches Err(e) && e.0@ == m,
            },
    {
        match self.argument_at(index) {
            Some(Value::Text(s)) => Ok(s.clone()),
            Some(Value::RawText(s)) => Ok(s.clone()),
            _ => Err(about_error(self, &with_index(" expects a string at index ", index))),
        }
    }

    /// The positional non-negative integer at `index`.
    pub fn u64_at(&self, index: usize) -> (r: Result<u64, ConfigError>)
        ensures
            match u64_at(self@, index as int) {
                Ok(n) => r == Ok::<u64, ConfigError>(n),
                Err(m) => r matches Err(e) && e.0@ == m,
            },
    {
        match self.argument_at(index) {
            Some(Value::Integer(i)) => {
                if *i >= 0 {
                    return Ok(*i as u64);
                }
            },
            _ => {},
        }
        Err(about_error(self, &with_index(" expects a non-negative integer at index ", index)))
    }

    /// The positional 32-bit integer at `index`.
    pub fn i32_at(&self, index: usize) -> (r: Result<i32, ConfigError>)
        ensures
            match i32_at(self@, index as int) {
                Ok(n) => r == Ok::<i32, ConfigError>(n),
                Err(m) => r matches Err(e) && e.0@ == m,
            },
    {
        match self.argument_at(index) {
            Some(Value::Integer(i)) => {
                if i32::MIN as i64 <= *i && *i <= i32::MAX as i64 {
                    return Ok(*i as i32);
                }
            },
            _ => {},
        }
        Err(about_error(self, &with_index(" expects a 32-bit integer at index ", index)))
    }

    /// The positional number at `index`.
    pub fn number_at(&self, index: usize) -> (r: Result<Number, ConfigError>)
        ensures
            match number_at(self@, index as int) {
                Ok(n) => r == Ok::<Number, ConfigError>(n),
                Err(m) => r matches Err(e) && e.0@ == m,
            },
    {
        match self.argument_at(index) {
            Some(Value::Integer(i)) => Ok(Number::Integer(*i)),
            Some(Value::Real(b)) => Ok(Number::Real(*b)),
            _ => Err(about_error(self, &with_index(" expects a number at index ", index))),
        }
    }

    /// The first positional argument as a 32-bit unsigned integer.
    pub fn u32_first(&self) -> (r: Result<u32, ConfigError>)
        ensures
            match u32_first(self@) {
                Ok(n) => r == Ok::<u32, ConfigError>(n),
                Err(m) => r matches Err(e) && e.0@ == m,
            },
    {
        let n = self.u64_at(0)?;
        if n <= u32::MAX as u64 {
            Ok(n as u32)
        } else {
            Err(about_error(self, &crate::text::chars_of(" is too large")))
        }
    }

    /// The first positional argument as a boolean.
    pub fn bool_first(&self) -> (r: Result<bool, ConfigError>)
        ensures
            match bool_first(self@) {
                Ok(b) => r == Ok::<bool, ConfigError>(b),
                Err(m) => r matches Err(e) && e.0@ == m,
            },
    {
        match self.argument_at(0) {
            Some(Value::Bool(b)) => Ok(*b),
            _ => Err(about_error(self, &crate::text::chars_of(" expects true or false"))),
        }
    }

    /// The non-negative integer property `key`.
    pub fn u64_property(&self, key: &str) -> (r: Result<u64, ConfigError>)
        ensures
            match u64_property(self@, key@) {
                Ok(n) => r == Ok::<u64, ConfigError>(n),
                Err(m) => r matches Err(e) && e.0@ == m,
            },
    {
        let key_chars = crate::text::chars_of(key);
        match self.property_named(&key_chars) {
            Some(Value::Integer(i)) => {
                if *i >= 0 {
                    return Ok(*i as u64);
                }
            },
            _ => {},
        }
        let mut tail = crate::text::chars_of(" requires a non-negative integer ");
        append_str(&mut tail, "`");
        append_chars(&mut tail, &key_chars);
        append_str(&mut tail, "`");
        append_str(&mut tail, " property");
        assert(tail@ =~= " requires a non-negative integer "@ + ticked(key@) + " property"@);
        Err(about_error(self, &tail))
    }

    /// The string property `key`, if the node has one.
    pub fn optional_string_property(&self, key: &str) -> (r: Result<Option<String>, ConfigError>)
        ensures
            match optional_string_property(self@, key@) {
                Ok(None) => r matches Ok(None),
                Ok(Some(s)) => r matches Ok(Some(t)) && t@ == s,
                Err(m) => r matches Err(e) && e.0@ == m,
            },
    {
        let key_chars = crate::text::chars_of(key);
        match self.property_named(&key_chars) {
            None => Ok(None),
            Some(Value::Text(s)) => Ok(Some(s.clone())),
            Some(Value::RawText(s)) => Ok(Some(s.clone())),
            Some(_) => {
                let mut m = crate::text::chars_of("`");
                append_chars(&mut m, &key_chars);
                append_str(&mut m, "`");
                append_str(&mut m, " expects a string");
                assert(m@ =~= ticked(key@) + " expects a string"@);
                Err(ConfigError::from_chars(&m))
            },
        }
    }

    /// Whether the node's name is `name`.
    pub fn is_named(&self, name: &str) -> (r: bool)
        ensures
            r == (self@.name == name@),
    {
        crate::text::is_word(&text_chars(&self.name), name)
    }

    /// The error `` `name`tail `` about this node.
    pub fn error(&self, tail: &str) -> (e: ConfigError)
        ensures
            e.0@ == about(self@, tail@),
    {
        about_error(self, &crate::text::chars_of(tail))
    }
}

} // verus!
