//! Reading configuration text with the `kdl` crate into the document model
//! of [`crate::config_doc`], and the handling of `include` nodes.

use vstd::prelude::*;

use kdl::{KdlDocument, KdlValue};

use crate::config_doc::{string_at, Entry, Head, HeadView, Node, NodeView, Origin, OriginView, Value};
use crate::config_error::ConfigError;
use crate::config_locate::location;
use crate::text::{append_chars, append_str, decimal, trim_seq};

verus! {

#[verifier::external_type_specification]
#[verifier::external_body]
pub struct ExKdlDocument(KdlDocument);

/// What the configuration reads of one node of a KDL document: its name,
/// entries and whether it has a block, the heads of the nodes in its block
/// (none when it has no block), and the byte offset where it starts.
pub struct KdlItem {
    pub head: HeadView,
    pub children: Seq<HeadView>,
    pub offset: usize,
}

/// The nodes a KDL document holds, in order.
pub uninterp spec fn kdl_items(document: KdlDocument) -> Seq<KdlItem>;

/// What `KdlDocument::from_str` makes of `source`: the nodes of the parsed
/// document, or the offset of the error's span and the text of its kind.
pub uninterp spec fn kdl_parse(source: Seq<char>) -> Result<Seq<KdlItem>, (usize, Seq<char>)>;

/// The heads of a list of nodes.
pub open spec fn item_heads(items: Seq<KdlItem>) -> Seq<HeadView> {
    items.map_values(|item: KdlItem| item.head)
}

/// Parses `source` with `KdlDocument::from_str`. The contract claims that
/// the result is what [`kdl_parse`] names for the text: a document holding
/// those nodes, or the error with that offset and kind text.
#[verifier::external_body]
fn parse_kdl(source: &str) -> (r: Result<KdlDocument, (usize, String)>)
    ensures
        match r {
            Ok(document) => kdl_parse(source@) == Ok::<Seq<KdlItem>, (usize, Seq<char>)>(kdl_items(document)),
            Err((offset, kind)) => kdl_parse(source@) == Err::<Seq<KdlItem>, (usize, Seq<char>)>((offset, kind@)),
        },
{
    match source.parse::<KdlDocument>() {
        Ok(document) => Ok(document),
        Err(error) => Err((error.span.offset(), error.kind.to_string())),
    }
}

/// `KdlDocument::nodes().len()`: how many nodes the document holds.
#[verifier::external_body]
fn node_count(document: &KdlDocument) -> (n: usize)
    ensures
        n == kdl_items(*document).len(),
{
    document.nodes().len()
}

/// `KdlNode::name` of the document's node `i`.
#[verifier::external_body]
fn node_name(document: &KdlDocument, i: usize) -> (name: String)
    requires
        i < kdl_items(*document).len(),
    ensures
        name@ == kdl_items(*document)[i as int].head.name,
{
    document.nodes()[i].name().value().to_owned()
}

/// `KdlNode::entries().len()` of node `i`: how many arguments and
/// properties it has.
#[verifier::external_body]
fn entry_count(document: &KdlDocument, i: usize) -> (n: usize)
    requires
        i < kdl_items(*document).len(),
    ensures
        n == kdl_items(*document)[i as int].head.entries.len(),
{
    document.nodes()[i].entries().len()
}

/// `KdlEntry::name` of entry `j` of node `i`: the name of a property, and
/// `None` for an argument.
#[verifier::external_body]
fn entry_name(document: &KdlDocument, i: usize, j: usize) -> (name: Option<String>)
    requires
        i < kdl_items(*document).len(),
        j < kdl_items(*document)[i as int].head.entries.len(),
    ensures
        kdl_items(*document)[i as int].head.entries[j as int].name == match name {
            Some(n) => Some(n@),
            None => None::<Seq<char>>,
        },
{
    document.nodes()[i].entries()[j].name().map(|name| name.value().to_owned())
}

/// `KdlEntry::value` of entry `j` of node `i`, as a [`Value`]: each kind of
/// number keeps its value, a decimal as the bits of its binary64 value.
#[verifier::external_body]
fn entry_value(document: &KdlDocument, i: usize, j: usize) -> (value: Value)
    requires
        i < kdl_items(*document).len(),
        j < kdl_items(*document)[i as int].head.entries.len(),
    ensures
        value@ == kdl_items(*document)[i as int].head.entries[j as int].value,
{
    match document.nodes()[i].entries()[j].value() {
        KdlValue::String(s) => Value::Text(s.clone()),
        KdlValue::RawString(s) => Value::RawText(s.clone()),
        KdlValue::Base2(n) | KdlValue::Base8(n) | KdlValue::Base10(n) | KdlValue::Base16(n) => Value::Integer(*n),
        KdlValue::Base10Float(x) => Value::Real(x.to_bits()),
        KdlValue::Bool(b) => Value::Bool(*b),
        KdlValue::Null => Value::Null,
    }
}

/// `KdlNode::children` of node `i`: its block, a document of its own, when
/// it has one. The contract claims that the block's nodes are the ones
/// whose heads [`KdlItem::children`] lists.
#[verifier::external_body]
fn node_block(document: &KdlDocument, i: usize) -> (block: Option<&KdlDocument>)
    requires
        i < kdl_items(*document).len(),
    ensures
        (block is Some) == kdl_items(*document)[i as int].head.has_children,
        match block {
            Some(b) => item_heads(kdl_items(*b)) == kdl_items(*document)[i as int].children,
            None => kdl_items(*document)[i as int].children.len() == 0,
        },
{
    document.nodes()[i].children()
}

/// `KdlNode::span().offset()` of node `i`: the byte offset where it starts.
#[verifier::external_body]
fn node_offset(document: &KdlDocument, i: usize) -> (offset: usize)
    requires
        i < kdl_items(*document).len(),
    ensures
        offset == kdl_items(*document)[i as int].offset,
{
    document.nodes()[i].span().offset()
}

/// The head of node `i` of a document.
fn head_at(document: &KdlDocument, i: usize) -> (head: Head)
    requires
        i < kdl_items(*document).len(),
    ensures
        head@ == kdl_items(*document)[i as int].head,
{
    let ghost target = kdl_items(*document)[i as int].head;
    let count = entry_count(document, i);
    let mut entries: Vec<Entry> = Vec::new();
    let mut j: usize = 0;
    while j < count
        invariant
            i < kdl_items(*document).len(),
            target == kdl_items(*document)[i as int].head,
            count == target.entries.len(),
            j <= count,
            entries@.len() == j,
            forall|k: int| 0 <= k < j ==> (#[trigger] entries@[k])@ == target.entries[k],
        decreases count - j,
    {
        entries.push(Entry { name: entry_name(document, i, j), value: entry_value(document, i, j) });
        j = j + 1;
    }
    let has_children = node_block(document, i).is_some();
    let head = Head { name: node_name(document, i), entries, has_children };
    assert(head@.entries =~= target.entries);
    head
}

/// The heads of the nodes in the block of node `i` of a document.
fn children_at(document: &KdlDocument, i: usize) -> (children: Vec<Head>)
    requires
        i < kdl_items(*document).len(),
    ensures
        children@.len() == kdl_items(*document)[i as int].children.len(),
        forall|k: int|
            0 <= k < children@.len() ==> (#[trigger] children@[k])@ == kdl_items(*document)[i as int].children[k],
{
    let mut children: Vec<Head> = Vec::new();
    match node_block(document, i) {
        Some(block) => {
            let ghost target = kdl_items(*document)[i as int].children;
            let count = node_count(block);
            let mut k: usize = 0;
            while k < count
                invariant
                    count == kdl_items(*block).len(),
                    item_heads(kdl_items(*block)) == target,
                    k <= count,
                    children@.len() == k,
                    forall|m: int| 0 <= m < k ==> (#[trigger] children@[m])@ == target[m],
                decreases count - k,
            {
                let child = head_at(block, k);
                assert(item_heads(kdl_items(*block))[k as int] == kdl_items(*block)[k as int].head);
                children.push(child);
                k = k + 1;
            }
        },
        None => {},
    }
    children
}

/// The message for a syntax error at byte `offset` of `source`.
pub open spec fn syntax_message(source: Seq<char>, offset: usize, kind: Seq<char>) -> Seq<char> {
    let (line, column, text) = location(source, offset as int);
    "KDL parse error at line "@ + decimal(line as nat) + ", column "@ + decimal(column as nat) + ": "@ + kind
        + "; `"@ + trim_seq(text) + "`"@
}

fn syntax_error(source: &Vec<char>, offset: usize, kind: &String) -> (m: Vec<char>)
    requires
        source@.len() < usize::MAX,
    ensures
        m@ == syntax_message(source@, offset, kind@),
{
    let (line, column, text) = crate::config_locate::source_location(source, offset);
    let mut m = crate::text::chars_of("KDL parse error at line ");
    append_chars(&mut m, &crate::text::decimal_of(line as u64));
    append_str(&mut m, ", column ");
    append_chars(&mut m, &crate::text::decimal_of(column as u64));
    append_str(&mut m, ": ");
    append_chars(&mut m, &crate::text::chars_of(kind.as_str()));
    append_str(&mut m, "; `");
    append_chars(&mut m, &crate::text::trim_chars(&text));
    append_str(&mut m, "`");
    assert(m@ =~= syntax_message(source@, offset, kind@));
    m
}

/// The message for a text too long to locate positions in.
fn too_long() -> (e: ConfigError)
    ensures
        e.0@ == "configuration text is too long"@,
{
    ConfigError::from_str("configuration text is too long")
}

/// A node of text that was not read from a file.
pub open spec fn document_node(item: KdlItem) -> NodeView {
    NodeView { head: item.head, children: item.children, origin: None }
}

/// The nodes of text that was not read from a file.
pub open spec fn document_nodes(items: Seq<KdlItem>) -> Seq<NodeView> {
    items.map_values(|item: KdlItem| document_node(item))
}

/// Parses configuration text that was not read from a file: its top-level
/// nodes, with their children and no origin. A syntax error is reported
/// with its line, column and line text.
pub fn parse_document(source: &str) -> (r: Result<Vec<Node>, ConfigError>)
    ensures
        match kdl_parse(source@) {
            Ok(items) => r matches Ok(nodes) && crate::config_doc::node_views(nodes@) == document_nodes(items),
            Err((offset, kind)) => if source@.len() < usize::MAX {
                r matches Err(e) && e.0@ == syntax_message(source@, offset, kind)
            } else {
                r matches Err(e) && e.0@ == "configuration text is too long"@
            },
        },
{
    match parse_kdl(source) {
        Err((offset, kind)) => {
            let chars = crate::text::chars_of(source);
            if chars.len() == usize::MAX {
                return Err(too_long());
            }
            Err(ConfigError::from_chars(&syntax_error(&chars, offset, &kind)))
        },
        Ok(document) => {
            let ghost items = kdl_items(document);
            let count = node_count(&document);
            let mut nodes: Vec<Node> = Vec::new();
            let mut i: usize = 0;
            while i < count
                invariant
                    items == kdl_items(document),
                    count == items.len(),
                    i <= count,
                    nodes@.len() == i,
                    forall|k: int| 0 <= k < i ==> (#[trigger] nodes@[k])@ == document_node(items[k]),
                decreases count - i,
            {
                let node = Node { head: head_at(&document, i), children: children_at(&document, i), origin: None };
                assert(node@.children =~= items[i as int].children);
                nodes.push(node);
                i = i + 1;
            }
            assert(crate::config_doc::node_views(nodes@) =~= document_nodes(items));
            Ok(nodes)
        },
    }
}

/// An item of a configuration file, in the order the file writes it.
#[derive(Clone, Debug)]
pub enum FileItem {
    /// A configuration node.
    Node(Node),
    /// An `include` of the file at this path (relative to the including file
    /// unless absolute).
    Include(String),
    /// An `include` node that does not name one path.
    Invalid(ConfigError),
}

/// The mathematical form of a [`FileItem`].
pub enum FileItemView {
    Node(NodeView),
    Include(Seq<char>),
    Invalid(Seq<char>),
}

impl View for FileItem {
    type V = FileItemView;

    open spec fn view(&self) -> FileItemView {
        match self {
            FileItem::Node(n) => FileItemView::Node(n@),
            FileItem::Include(p) => FileItemView::Include(p@),
            FileItem::Invalid(e) => FileItemView::Invalid(e.0@),
        }
    }
}

/// `path: message at line N: `text``, for an `include` node.
pub open spec fn include_message(path: Seq<char>, message: Seq<char>, line: usize, text: Seq<char>) -> Seq<char> {
    path + ": "@ + message + " at line "@ + decimal(line as nat) + ": `"@ + text + "`"@
}

/// What an `include` node written at `line` of the file displayed as `path`
/// (whose trimmed line text is `text`) asks for: exactly one argument, a
/// non-empty string, and no block.
pub open spec fn include_of(head: HeadView, path: Seq<char>, line: usize, text: Seq<char>) -> Result<Seq<char>, Seq<char>> {
    if head.entries.len() != 1 || head.has_children {
        Err(include_message(path, "include expects exactly one path"@, line, text))
    } else {
        match string_at(head, 0) {
            Err(m) => Err(include_message(path, m, line, text)),
            Ok(s) => if s.len() == 0 {
                Err(path + ": "@ + "include path cannot be empty at line "@ + decimal(line as nat))
            } else {
                Ok(s)
            },
        }
    }
}

/// Reads an `include` node.
pub fn include_target(head: &Head, path: &str, line: usize, text: &Vec<char>) -> (r: Result<String, ConfigError>)
    ensures
        match include_of(head@, path@, line, text@) {
            Ok(s) => r matches Ok(t) && t@ == s,
            Err(m) => r matches Err(e) && e.0@ == m,
        },
{
    let mut prefix = crate::text::chars_of(path);
    append_str(&mut prefix, ": ");
    if head.entries.len() != 1 || head.has_children {
        let mut m = prefix;
        append_str(&mut m, "include expects exactly one path");
        append_str(&mut m, " at line ");
        append_chars(&mut m, &crate::text::decimal_of(line as u64));
        append_str(&mut m, ": `");
        append_chars(&mut m, text);
        append_str(&mut m, "`");
        assert(m@ =~= include_message(path@, "include expects exactly one path"@, line, text@));
        return Err(ConfigError::from_chars(&m));
    }
    match head.string_at(0) {
        Err(e) => {
            let mut m = prefix;
            append_chars(&mut m, &e.message_chars());
            append_str(&mut m, " at line ");
            append_chars(&mut m, &crate::text::decimal_of(line as u64));
            append_str(&mut m, ": `");
            append_chars(&mut m, text);
            append_str(&mut m, "`");
            assert(m@ =~= include_message(path@, e.0@, line, text@));
            Err(ConfigError::from_chars(&m))
        },
        Ok(s) => {
            if s.as_str().is_empty() {
                let mut m = prefix;
                append_str(&mut m, "include path cannot be empty at line ");
                append_chars(&mut m, &crate::text::decimal_of(line as u64));
                assert(m@ =~= path@ + ": "@ + "include path cannot be empty at line "@ + decimal(line as nat));
                return Err(ConfigError::from_chars(&m));
            }
            Ok(s)
        },
    }
}

/// The item that `item`, a node of configuration file number `file` (whose
/// text is `source`, displayed as `path`), is: an `include` with its target
/// or its problem, or a node with its origin (its line and that line's
/// trimmed text).
pub open spec fn file_item(item: KdlItem, source: Seq<char>, file: usize, path: Seq<char>) -> FileItemView {
    let (line, _column, text) = location(source, item.offset as int);
    let trimmed = trim_seq(text);
    if item.head.name == "include"@ {
        match include_of(item.head, path, line as usize, trimmed) {
            Ok(target) => FileItemView::Include(target),
            Err(m) => FileItemView::Invalid(m),
        }
    } else {
        FileItemView::Node(
            NodeView {
                head: item.head,
                children: item.children,
                origin: Some(OriginView { file, line: line as usize, text: trimmed }),
            },
        )
    }
}

/// Whether `out` is what reading the nodes `items` of a file gives: their
/// items in order, ending with the first `include` that does not name one
/// path.
pub open spec fn read_items(out: Seq<FileItemView>, items: Seq<KdlItem>, source: Seq<char>, file: usize, path: Seq<char>) -> bool {
    &&& out.len() <= items.len()
    &&& forall|k: int| 0 <= k < out.len() ==> out[k] == file_item(items[k], source, file, path)
    &&& forall|k: int| 0 <= k < out.len() - 1 ==> !(out[k] is Invalid)
    &&& out.len() < items.len() ==> out.len() > 0 && out.last() is Invalid
}

/// The views of a list of file items.
pub open spec fn item_views(items: Seq<FileItem>) -> Seq<FileItemView> {
    items.map_values(|item: FileItem| item@)
}

/// Reads the text of configuration file number `file`, displayed as `path`:
/// its nodes with their origins, and its `include` nodes in place. A syntax
/// error is reported in the file; the items end at the first `include` node
/// that does not name one path.
pub fn read_file_items(source: &str, file: usize, path: &str) -> (r: Result<Vec<FileItem>, ConfigError>)
    ensures
        source@.len() < usize::MAX ==> match kdl_parse(source@) {
            Err((offset, kind)) => r matches Err(e) && e.0@ == path@ + ": "@ + syntax_message(
                source@,
                offset,
                kind,
            ),
            Ok(items) => r matches Ok(out) && read_items(item_views(out@), items, source@, file, path@),
        },
        source@.len() == usize::MAX ==> (r matches Err(e) && e.0@ == "configuration text is too long"@),
{
    let chars = crate::text::chars_of(source);
    if chars.len() == usize::MAX {
        return Err(too_long());
    }
    match parse_kdl(source) {
        Err((offset, kind)) => {
            let mut m = crate::text::chars_of(path);
            append_str(&mut m, ": ");
            append_chars(&mut m, &syntax_error(&chars, offset, &kind));
            Err(ConfigError::from_chars(&m))
        },
        Ok(document) => {
            let ghost items = kdl_items(document);
            let count = node_count(&document);
            let mut out: Vec<FileItem> = Vec::new();
            let mut i: usize = 0;
            while i < count
                invariant
                    chars@ == source@,
                    chars@.len() < usize::MAX,
                    items == kdl_items(document),
                    kdl_parse(source@) == Ok::<Seq<KdlItem>, (usize, Seq<char>)>(items),
                    count == items.len(),
                    i <= count,
                    out@.len() == i,
                    forall|k: int| 0 <= k < i ==> (#[trigger] out@[k])@ == file_item(items[k], source@, file, path@),
                    forall|k: int| 0 <= k < i ==> !((#[trigger] out@[k])@ is Invalid),
                decreases count - i,
            {
                let (line, _column, line_text) = crate::config_locate::source_location(&chars, node_offset(&document, i));
                let text = crate::text::trim_chars(&line_text);
                let head = head_at(&document, i);
                if head.is_named("include") {
                    match include_target(&head, path, line, &text) {
                        Ok(target) => out.push(FileItem::Include(target)),
                        Err(e) => {
                            out.push(FileItem::Invalid(e));
                            proof {
                                assert(out@[i as int]@ == file_item(items[i as int], source@, file, path@));
                                assert(read_items(item_views(out@), items, source@, file, path@));
                            }
                            return Ok(out);
                        },
                    }
                } else {
                    let origin = Origin { file, line, text: crate::text::string_of(&text) };
                    let node = Node { head, children: children_at(&document, i), origin: Some(origin) };
                    assert(node@.children =~= items[i as int].children);
                    out.push(FileItem::Node(node));
                }
                i = i + 1;
            }
            assert(read_items(item_views(out@), items, source@, file, path@));
            Ok(out)
        },
    }
}

/// The include cycle that opening `canonical` would close, if `stack` (the
/// files being read, outermost first) already holds it: the files from its
/// first appearance on, then `canonical` again.
pub open spec fn cycle_of(stack: Seq<Seq<char>>, canonical: Seq<char>) -> Option<Seq<Seq<char>>> {
    match stack.index_of_first(canonical) {
        Some(i) => Some(stack.skip(i).push(canonical)),
        None => None,
    }
}

/// `parts` joined by ` -> `.
pub open spec fn arrows(parts: Seq<Seq<char>>) -> Seq<char>
    decreases parts.len(),
{
    if parts.len() == 0 {
        Seq::empty()
    } else if parts.len() == 1 {
        parts[0]
    } else {
        arrows(parts.drop_last()) + " -> "@ + parts.last()
    }
}

/// The error for opening `canonical` while `stack` is being read, if that
/// would close an include cycle.
pub fn include_cycle(stack: &Vec<String>, canonical: &str) -> (r: Option<ConfigError>)
    ensures
        match cycle_of(stack@.map_values(|s: String| s@), canonical@) {
            Some(cycle) => r matches Some(e) && e.0@ == "configuration include cycle: "@ + arrows(cycle),
            None => r is None,
        },
{
    proof {
        stack@.map_values(|s: String| s@).index_of_first_ensures(canonical@);
    }
    let ghost views = stack@.map_values(|s: String| s@);
    let target = crate::text::chars_of(canonical);
    let mut i: usize = 0;
    while i < stack.len()
        invariant
            i <= stack@.len(),
            views == stack@.map_values(|s: String| s@),
            target@ == canonical@,
            forall|j: int| 0 <= j < i ==> views[j] != canonical@,
        decreases stack.len() - i,
    {
        assert(views[i as int] == stack@[i as int]@);
        if crate::text::chars_equal(&crate::text::chars_of(stack[i].as_str()), &target) {
            proof {
                assert(views.contains(canonical@));
                views.index_of_first_ensures(canonical@);
                let first = views.index_of_first(canonical@)->Some_0;
                if first < i {
                    assert(views[first] != canonical@);
                }
                if first > i {
                    assert(views[i as int] != canonical@);
                }
                assert(first == i);
            }
            let mut m = crate::text::chars_of("configuration include cycle: ");
            let ghost head = m@;
            let mut k: usize = i;
            let ghost cycle = views.skip(i as int).push(canonical@);
            while k < stack.len()
                invariant
                    i <= k <= stack@.len(),
                    views == stack@.map_values(|s: String| s@),
                    cycle == views.skip(i as int).push(canonical@),
                    m@ == head + arrows(cycle.take(k - i)),
                decreases stack.len() - k,
            {
                assert(cycle.take(k - i + 1).drop_last() =~= cycle.take(k - i));
                assert(cycle[k - i] == stack@[k as int]@);
                if k > i {
                    append_str(&mut m, " -> ");
                }
                append_chars(&mut m, &crate::text::chars_of(stack[k].as_str()));
                proof {
                    if k == i {
                        assert(cycle.take(1) =~= seq![cycle[0]]);
                    }
                    assert(m@ =~= head + arrows(cycle.take(k - i + 1)));
                }
                k = k + 1;
            }
            assert(cycle.take(cycle.len() - 1).push(canonical@) =~= cycle);
            append_str(&mut m, " -> ");
            append_chars(&mut m, &target);
            proof {
                assert(cycle.drop_last() =~= cycle.take(stack.len() - i));
                assert(m@ =~= head + arrows(cycle));
            }
            return Some(ConfigError::from_chars(&m));
        }
        i = i + 1;
    }
    None
}

/// The directory part of a path, as `Path::parent` gives it for a file
/// path: everything before the last `/` (the root itself when that is the
/// first byte), and nothing when there is no `/`.
pub open spec fn directory_of(path: Seq<u8>) -> Seq<u8> {
    let slash = path.index_of_last(47u8);
    match slash {
        Some(i) => if i == 0 {
            path.take(1)
        } else {
            path.take(i)
        },
        None => Seq::empty(),
    }
}

/// The path an `include` of `target` in the file at `including` names: an
/// absolute target as it is, a relative one next to the including file.
pub open spec fn resolved_include(including: Seq<u8>, target: Seq<u8>) -> Seq<u8> {
    let dir = directory_of(including);
    if target.len() > 0 && target[0] == 47u8 {
        target
    } else if dir.len() == 0 {
        target
    } else if dir.last() == 47u8 {
        dir + target
    } else {
        dir.push(47u8) + target
    }
}

/// The path that the `include` of `target` (as bytes) in the file at
/// `including` names.
pub fn include_path(including: &Vec<u8>, target: &Vec<u8>) -> (path: Vec<u8>)
    ensures
        path@ == resolved_include(including@, target@),
{
    if target.len() > 0 && target[0] == 47u8 {
        return target.clone();
    }
    let mut last: Option<usize> = None;
    let mut i: usize = 0;
    while i < including.len()
        invariant
            i <= including@.len(),
            match last {
                Some(k) => k < i && including@[k as int] == 47u8 && forall|j: int| k < j < i ==> including@[j] != 47u8,
                None => forall|j: int| 0 <= j < i ==> including@[j] != 47u8,
            },
        decreases including.len() - i,
    {
        if including[i] == 47u8 {
            last = Some(i);
        }
        i = i + 1;
    }
    proof {
        including@.index_of_last_ensures(47u8);
    }
    let mut path: Vec<u8> = Vec::new();
    match last {
        Some(k) => {
            let end = if k == 0 {
                1
            } else {
                k
            };
            let mut j: usize = 0;
            while j < end
                invariant
                    end <= including@.len(),
                    j <= end,
                    path@ == including@.take(j as int),
                decreases end - j,
            {
                path.push(including[j]);
                assert(including@.take(j as int + 1) =~= including@.take(j as int).push(including@[j as int]));
                j = j + 1;
            }
            if path[path.len() - 1] != 47u8 {
                path.push(47u8);
            }
        },
        None => {},
    }
    let ghost dir_part = path@;
    let mut j: usize = 0;
    while j < target.len()
        invariant
            j <= target@.len(),
            path@ == dir_part + target@.take(j as int),
        decreases target.len() - j,
    {
        path.push(target[j]);
        assert(target@.take(j as int + 1) =~= target@.take(j as int).push(target@[j as int]));
        j = j + 1;
    }
    assert(target@.take(target@.len() as int) =~= target@);
    assert(path@ =~= resolved_include(including@, target@));
    path
}

/// What was found at an included path.
#[derive(Clone, Debug)]
pub enum IncludeMetadata {
    Found,
    NotFound,
    /// Inspecting it failed otherwise, with this error text.
    Failed(String),
}

/// What loading does with an include: read the file, skip a file that does
/// not exist, or fail.
#[derive(Clone, Debug)]
pub enum IncludeStep {
    Load,
    Skip,
    Fail(ConfigError),
}

/// Decides what loading does with the include at the path displayed as
/// `path`, given what was found there: a missing file is skipped (such files
/// may be written later), any other failure to inspect it is an error.
pub fn include_step(path: &str, found: IncludeMetadata) -> (step: IncludeStep)
    ensures
        match found {
            IncludeMetadata::Found => step is Load,
            IncludeMetadata::NotFound => step is Skip,
            IncludeMetadata::Failed(error) => step matches IncludeStep::Fail(e) && e.0@
                == "failed to inspect included configuration "@ + path@ + ": "@ + error@,
        },
{
    match found {
        IncludeMetadata::Found => IncludeStep::Load,
        IncludeMetadata::NotFound => IncludeStep::Skip,
        IncludeMetadata::Failed(error) => {
            let mut m = crate::text::chars_of("failed to inspect included configuration ");
            append_str(&mut m, path);
            append_str(&mut m, ": ");
            append_str(&mut m, error.as_str());
            IncludeStep::Fail(ConfigError::from_chars(&m))
        },
    }
}

} // verus!
