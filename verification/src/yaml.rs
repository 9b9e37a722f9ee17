//! YAML documents as plain data.
//!
//! Parsing is done by the `yaml-rust` crate. Its document tree is copied,
//! node for node, into [`Node`], a type of this crate, so that everything
//! which reads a document can be verified. The two functions that touch
//! `yaml-rust` values are trusted; what is assumed of them is written
//! above each. A text is looked over before it is handed to `yaml-rust`,
//! and one that could nest too deeply for the stack is not handed over.

use vstd::prelude::*;
use vstd::string::StringSliceAdditionalSpecFns;

verus! {

/// The mathematical value of a [`Node`].
pub enum NodeView {
    Real(Seq<char>),
    Integer(int),
    Text(Seq<char>),
    Boolean(bool),
    Array(Seq<NodeView>),
    /// The entries of a mapping, in the order in which they were written.
    Hash(Seq<(NodeView, NodeView)>),
    Alias(nat),
    Null,
    BadValue,
}

/// One node of a YAML document. The variants are those of
/// `yaml_rust::Yaml`; a mapping keeps its entries in insertion order.
#[derive(Debug, PartialEq, Eq)]
pub enum Node {
    Real(String),
    Integer(i64),
    Text(String),
    Boolean(bool),
    Array(Vec<Node>),
    Hash(Vec<(Node, Node)>),
    Alias(usize),
    Null,
    BadValue,
}

/// The value of a node: the same tree, with mathematical strings,
/// integers and sequences.
pub open spec fn node_view(node: Node) -> NodeView
    decreases node,
{
    match node {
        Node::Real(s) => NodeView::Real(s@),
        Node::Integer(i) => NodeView::Integer(i as int),
        Node::Text(s) => NodeView::Text(s@),
        Node::Boolean(b) => NodeView::Boolean(b),
        Node::Array(v) => NodeView::Array(
            Seq::new(
                v@.len(),
                |i: int|
                    if 0 <= i < v@.len() {
                        node_view(v@[i])
                    } else {
                        NodeView::BadValue
                    },
            ),
        ),
        Node::Hash(h) => NodeView::Hash(
            Seq::new(
                h@.len(),
                |i: int|
                    if 0 <= i < h@.len() {
                        (node_view(h@[i].0), node_view(h@[i].1))
                    } else {
                        (NodeView::BadValue, NodeView::BadValue)
                    },
            ),
        ),
        Node::Alias(n) => NodeView::Alias(n as nat),
        Node::Null => NodeView::Null,
        Node::BadValue => NodeView::BadValue,
    }
}

impl View for Node {
    type V = NodeView;

    open spec fn view(&self) -> NodeView {
        node_view(*self)
    }
}

/// The values of a sequence of nodes, in order.
pub open spec fn node_views(nodes: Seq<Node>) -> Seq<NodeView> {
    Seq::new(nodes.len(), |i: int| nodes[i]@)
}

/// The value of the first entry at or after `from` whose key is `key`.
pub open spec fn lookup_from(entries: Seq<(NodeView, NodeView)>, key: NodeView, from: int) -> Option<
    NodeView,
>
    decreases entries.len() - from,
{
    if from < 0 || from >= entries.len() {
        None
    } else if entries[from].0 == key {
        Some(entries[from].1)
    } else {
        lookup_from(entries, key, from + 1)
    }
}

impl NodeView {
    /// The text of a string scalar; no other node has one.
    pub open spec fn text(self) -> Option<Seq<char>> {
        match self {
            NodeView::Text(s) => Some(s),
            _ => None,
        }
    }

    /// The elements of a sequence; no other node has them.
    pub open spec fn items(self) -> Option<Seq<NodeView>> {
        match self {
            NodeView::Array(items) => Some(items),
            _ => None,
        }
    }

    /// The value stored in a mapping under the string key `key`.
    pub open spec fn member(self, key: Seq<char>) -> Option<NodeView> {
        match self {
            NodeView::Hash(entries) => lookup_from(entries, NodeView::Text(key), 0),
            _ => None,
        }
    }

    /// The first element of a sequence, or the value that a mapping stores
    /// under the integer key 0.
    pub open spec fn first(self) -> Option<NodeView> {
        match self {
            NodeView::Array(items) => if items.len() > 0 {
                Some(items[0])
            } else {
                None
            },
            NodeView::Hash(entries) => lookup_from(entries, NodeView::Integer(0), 0),
            _ => None,
        }
    }
}

/// The view of an optional node.
pub open spec fn option_view(node: Option<&Node>) -> Option<NodeView> {
    match node {
        Some(n) => Some(n@),
        None => None,
    }
}

/// The values of the entries of a mapping, in order.
pub open spec fn entry_views(entries: Seq<(Node, Node)>) -> Seq<(NodeView, NodeView)> {
    Seq::new(entries.len(), |i: int| (entries[i].0@, entries[i].1@))
}

/// A key under which a mapping is searched.
enum Key {
    Text(String),
    Integer(i64),
}

impl Key {
    /// The node that is equal to this key.
    spec fn node(self) -> NodeView {
        match self {
            Key::Text(s) => NodeView::Text(s@),
            Key::Integer(i) => NodeView::Integer(i as int),
        }
    }

    /// Whether `node` is this key.
    fn is_node(&self, node: &Node) -> (r: bool)
        ensures
            r == (node@ == self.node()),
    {
        match (self, node) {
            (Key::Text(a), Node::Text(b)) => *a == *b,
            (Key::Integer(a), Node::Integer(b)) => *a == *b,
            _ => false,
        }
    }
}

/// The value of the first entry whose key is `key`.
fn lookup<'a>(entries: &'a Vec<(Node, Node)>, key: &Key) -> (r: Option<&'a Node>)
    ensures
        option_view(r) == lookup_from(entry_views(entries@), key.node(), 0),
{
    let ghost model = entry_views(entries@);
    let mut i: usize = 0;
    while i < entries.len()
        invariant
            i <= entries.len(),
            model == entry_views(entries@),
            lookup_from(model, key.node(), 0) == lookup_from(model, key.node(), i as int),
        decreases entries.len() - i,
    {
        if key.is_node(&entries[i].0) {
            return Some(&entries[i].1);
        }
        i += 1;
    }
    None
}

impl Node {
    /// The text of a string scalar.
    pub fn as_str(&self) -> (r: Option<&str>)
        ensures
            match r {
                Some(s) => self@.text() == Some(s@),
                None => self@.text() is None,
            },
    {
        match self {
            Node::Text(s) => Some(s.as_str()),
            _ => None,
        }
    }

    /// The elements of a sequence.
    pub fn as_vec(&self) -> (r: Option<&Vec<Node>>)
        ensures
            match r {
                Some(v) => self@.items() == Some(node_views(v@)),
                None => self@.items() is None,
            },
    {
        match self {
            Node::Array(v) => {
                assert(node_views(v@) =~= self@->Array_0);
                Some(v)
            },
            _ => None,
        }
    }

    /// The value that a mapping stores under the string key `key`: that of
    /// the first entry with this key. `None` if there is no such entry or
    /// if `self` is no mapping.
    pub fn member(&self, key: &str) -> (r: Option<&Node>)
        ensures
            option_view(r) == self@.member(key@),
    {
        match self {
            Node::Hash(entries) => {
                assert(entry_views(entries@) =~= self@->Hash_0);
                lookup(entries, &Key::Text(key.to_owned()))
            },
            _ => None,
        }
    }

    /// The first element of a sequence, or the value that a mapping stores
    /// under the integer key 0. `None` if there is neither.
    pub fn first(&self) -> (r: Option<&Node>)
        ensures
            option_view(r) == self@.first(),
    {
        match self {
            Node::Array(items) => {
                assert(node_views(items@) =~= self@->Array_0);
                if items.len() > 0 {
                    Some(&items[0])
                } else {
                    None
                }
            },
            Node::Hash(entries) => {
                assert(entry_views(entries@) =~= self@->Hash_0);
                lookup(entries, &Key::Integer(0))
            },
            _ => None,
        }
    }
}

#[verifier::external_type_specification]
#[verifier::external_body]
pub struct ExYaml(yaml_rust::Yaml);

#[verifier::external_type_specification]
#[verifier::external_body]
pub struct ExScanError(yaml_rust::ScanError);

/// The documents that `yaml-rust` reads from `source`, or `None` where it
/// reports a scan error.
pub uninterp spec fn yaml_documents(source: Seq<char>) -> Option<Seq<NodeView>>;

/// The tree that a `yaml-rust` value holds.
pub uninterp spec fn yaml_node(yaml: yaml_rust::Yaml) -> NodeView;

/// The number of levels that a document which is loaded can have.
pub const MAX_DEPTH: usize = 512;

/// The number of `*` that a text with a `&` may hold and still be loaded.
pub const MAX_ALIASES: usize = 16;

/// Why a text was not turned into documents.
#[derive(Debug, Clone, Copy, PartialEq, Eq)]
pub enum LoadFault {
    /// The text could nest more deeply than is read: see [`loadable`].
    TooDeep,
    /// The text is not YAML.
    Syntax,
}

/// Whether a `-`, `?` or `:` is an indicator when `byte` follows it: a
/// blank, a line break or a zero byte.
pub open spec fn ends_indicator(byte: u8) -> bool {
    byte == 32 || byte == 9 || byte == 10 || byte == 13 || byte == 0
}

/// Whether the byte at `i` can open a block collection: it is `-`, `?` or
/// `:`, and the text ends there or goes on with a blank.
pub open spec fn opens_block(bytes: Seq<u8>, i: int) -> bool {
    &&& 0 <= i < bytes.len()
    &&& (bytes[i] == 45 || bytes[i] == 63 || bytes[i] == 58)
    &&& (i + 1 == bytes.len() || ends_indicator(bytes[i + 1]))
}

/// The number of bytes between the byte at `i` and the start of its line,
/// where only a line feed ends a line.
pub open spec fn column_of(bytes: Seq<u8>, i: int) -> int
    decreases i,
{
    if i <= 0 || i > bytes.len() {
        0
    } else if bytes[i - 1] == 10 {
        0
    } else {
        column_of(bytes, i - 1) + 1
    }
}

/// How often `byte` occurs among the first `n` bytes.
pub open spec fn occurrences(bytes: Seq<u8>, byte: u8, n: int) -> int
    decreases n,
{
    if n <= 0 {
        0
    } else if bytes[n - 1] == byte {
        occurrences(bytes, byte, n - 1) + 1
    } else {
        occurrences(bytes, byte, n - 1)
    }
}

/// How many of the first `n` bytes can open a block collection.
pub open spec fn indicators(bytes: Seq<u8>, n: int) -> int
    decreases n,
{
    if n <= 0 {
        0
    } else if opens_block(bytes, n - 1) {
        indicators(bytes, n - 1) + 1
    } else {
        indicators(bytes, n - 1)
    }
}

/// The number of columns within which the first `n` bytes can open a block
/// collection: one more than the highest column of such a byte, and 0
/// where there is none.
pub open spec fn indicator_columns(bytes: Seq<u8>, n: int) -> int
    decreases n,
{
    if n <= 0 {
        0
    } else if opens_block(bytes, n - 1) && column_of(bytes, n - 1) + 1 > indicator_columns(
        bytes,
        n - 1,
    ) {
        column_of(bytes, n - 1) + 1
    } else {
        indicator_columns(bytes, n - 1)
    }
}

/// The smaller of two numbers.
pub open spec fn smaller(a: int, b: int) -> int {
    if a < b {
        a
    } else {
        b
    }
}

/// More levels than the text can nest without an alias: one for each byte
/// that can open a block collection, but no more than two for each column
/// in which one stands; one for each `{`, two for each `[`; and one for
/// the scalar at the end.
pub open spec fn nesting_bound(bytes: Seq<u8>) -> int {
    let n = bytes.len() as int;
    smaller(indicators(bytes, n), 2 * indicator_columns(bytes, n)) + occurrences(bytes, 123, n)
        + 2 * occurrences(bytes, 91, n) + 1
}

/// More aliases than can follow one another into anchored nodes: each
/// takes a `*` and a `&` of its own.
pub open spec fn alias_links(bytes: Seq<u8>) -> int {
    let n = bytes.len() as int;
    smaller(occurrences(bytes, 38, n), occurrences(bytes, 42, n))
}

/// The texts that are handed to `yaml-rust`. A text with a `&` holds at
/// most [`MAX_ALIASES`] `*`, so that little is copied for aliases. And the
/// levels that the text can nest, taken once for the text and once more
/// for each alias that can lead into an anchored node, are at most
/// [`MAX_DEPTH`].
pub open spec fn loadable(bytes: Seq<u8>) -> bool {
    let n = bytes.len() as int;
    &&& occurrences(bytes, 38, n) == 0 || occurrences(bytes, 42, n) <= MAX_ALIASES
    &&& nesting_bound(bytes) <= MAX_DEPTH as int / (alias_links(bytes) + 1)
}

/// Whether `node` has at most `levels` levels.
pub open spec fn fits(node: NodeView, levels: nat) -> bool
    decreases levels,
{
    levels > 0 && match node {
        NodeView::Array(items) => forall|i: int|
            0 <= i < items.len() ==> fits(#[trigger] items[i], (levels - 1) as nat),
        NodeView::Hash(entries) => forall|i: int|
            0 <= i < entries.len() ==> {
                &&& fits((#[trigger] entries[i]).0, (levels - 1) as nat)
                &&& fits(entries[i].1, (levels - 1) as nat)
            },
        _ => true,
    }
}

/// The documents of `source` as this crate loads them: those that
/// `yaml-rust` reads, where the text is [`loadable`].
pub open spec fn loaded_documents(source: Seq<char>) -> Result<Seq<NodeView>, LoadFault> {
    if !loadable(vstd::utf8::encode_utf8(source)) {
        Err(LoadFault::TooDeep)
    } else {
        match yaml_documents(source) {
            Some(docs) => Ok(docs),
            None => Err(LoadFault::Syntax),
        }
    }
}

/// Calls `yaml_rust::YamlLoader::load_from_str`. Its parser calls itself
/// once for each level of nesting, and it puts a copy of the anchored node
/// in the place of each alias, so only [`loadable`] texts are admitted.
/// Assumed: on such a text the call returns; the outcome depends on the
/// text alone, so that it can be called `yaml_documents(source)`; each
/// document has at most [`MAX_DEPTH`] levels. Nothing is assumed about
/// which texts load or what they load to.
///
/// Why the levels are so bounded. A block collection is opened by a `-`,
/// `?` or `:` before a blank, each opening one; those that are open at one
/// time stand at different columns, but for a sequence that is not
/// indented under its key, of which there is at most one for each mapping.
/// A flow collection is opened by a `[` or `{`; a `[` may hold a mapping
/// of a single pair without a bracket of its own. An alias is a `*` and
/// stands for a node that was anchored with a `&` before it; along one
/// path from the root each alias leads into another anchored node.
#[verifier::external_body]
fn load_yaml(source: &str) -> (r: Result<Vec<yaml_rust::Yaml>, yaml_rust::ScanError>)
    requires
        loadable(source.spec_bytes()),
    ensures
        match r {
            Ok(docs) => {
                &&& yaml_documents(source@) == Some(
                    Seq::new(docs@.len(), |i: int| yaml_node(docs@[i])),
                )
                &&& forall|i: int|
                    0 <= i < docs@.len() ==> fits(
                        yaml_node(#[trigger] docs@[i]),
                        MAX_DEPTH as nat,
                    )
            },
            Err(_) => yaml_documents(source@) is None,
        },
{
    yaml_rust::YamlLoader::load_from_str(source)
}

/// Copies a `yaml_rust::Yaml` into a [`Node`], variant for variant, the
/// entries of a mapping in the order in which `linked_hash_map` walks them
/// (insertion order). It calls itself once for each level of the value,
/// so the value has to have at most [`MAX_DEPTH`] levels. Assumed: the
/// copy holds what the `yaml-rust` value holds.
#[verifier::external_body]
fn node_from_yaml(yaml: &yaml_rust::Yaml) -> (node: Node)
    requires
        fits(yaml_node(*yaml), MAX_DEPTH as nat),
    ensures
        node@ == yaml_node(*yaml),
{
    match yaml {
        yaml_rust::Yaml::Real(s) => Node::Real(s.clone()),
        yaml_rust::Yaml::Integer(i) => Node::Integer(*i),
        yaml_rust::Yaml::String(s) => Node::Text(s.clone()),
        yaml_rust::Yaml::Boolean(b) => Node::Boolean(*b),
        yaml_rust::Yaml::Array(v) => Node::Array(v.iter().map(node_from_yaml).collect()),
        yaml_rust::Yaml::Hash(h) => Node::Hash(
            h.iter().map(|(k, v)| (node_from_yaml(k), node_from_yaml(v))).collect(),
        ),
        yaml_rust::Yaml::Alias(n) => Node::Alias(*n),
        yaml_rust::Yaml::Null => Node::Null,
        yaml_rust::Yaml::BadValue => Node::BadValue,
    }
}

/// `count`, or one more than [`MAX_DEPTH`] where it is beyond that.
pub open spec fn capped(count: int) -> int {
    if count <= MAX_DEPTH {
        count
    } else {
        MAX_DEPTH + 1
    }
}

/// One more than `count`, but not beyond one more than [`MAX_DEPTH`].
fn one_more(count: usize) -> (r: usize)
    requires
        count <= MAX_DEPTH + 1,
    ensures
        count <= MAX_DEPTH ==> r == count + 1,
        count > MAX_DEPTH ==> r == count,
{
    if count <= MAX_DEPTH {
        count + 1
    } else {
        count
    }
}

/// Whether `source` is a text that is handed to `yaml-rust`: see
/// [`loadable`].
pub fn is_loadable(source: &str) -> (r: bool)
    ensures
        r == loadable(source.spec_bytes()),
{
    let bytes = source.as_bytes();
    let mut column: usize = 0;
    let mut marks: usize = 0;
    let mut columns: usize = 0;
    let mut braces: usize = 0;
    let mut brackets: usize = 0;
    let mut anchors: usize = 0;
    let mut aliases: usize = 0;
    let mut i: usize = 0;
    while i < bytes.len()
        invariant
            i <= bytes.len(),
            column <= i,
            column == column_of(bytes@, i as int),
            marks == capped(indicators(bytes@, i as int)),
            columns == capped(indicator_columns(bytes@, i as int)),
            braces == capped(occurrences(bytes@, 123, i as int)),
            brackets == capped(occurrences(bytes@, 91, i as int)),
            anchors == capped(occurrences(bytes@, 38, i as int)),
            aliases == capped(occurrences(bytes@, 42, i as int)),
        decreases bytes.len() - i,
    {
        let byte = bytes[i];
        let indicator = byte == 45 || byte == 63 || byte == 58;
        let ended = if i + 1 == bytes.len() {
            true
        } else {
            let next = bytes[i + 1];
            next == 32 || next == 9 || next == 10 || next == 13 || next == 0
        };
        if indicator && ended {
            marks = one_more(marks);
            if column >= columns {
                columns = if column < MAX_DEPTH {
                    column + 1
                } else {
                    MAX_DEPTH + 1
                };
            }
        }
        if byte == 123 {
            braces = one_more(braces);
        }
        if byte == 91 {
            brackets = one_more(brackets);
        }
        if byte == 38 {
            anchors = one_more(anchors);
        }
        if byte == 42 {
            aliases = one_more(aliases);
        }
        if byte == 10 {
            column = 0;
        } else {
            column += 1;
        }
        i += 1;
    }
    if anchors > 0 && aliases > MAX_ALIASES {
        return false;
    }
    let links = if anchors < aliases {
        anchors
    } else {
        aliases
    };
    let blocks = if marks < 2 * columns {
        marks
    } else {
        2 * columns
    };
    blocks + braces + 2 * brackets + 1 <= MAX_DEPTH / (links + 1)
}

/// Reads the YAML documents of `source`, where the text is [`loadable`]
/// and is YAML.
pub fn load_documents(source: &str) -> (r: Result<Vec<Node>, LoadFault>)
    ensures
        match r {
            Ok(docs) => loaded_documents(source@) == Ok::<Seq<NodeView>, LoadFault>(
                node_views(docs@),
            ),
            Err(fault) => loaded_documents(source@) == Err::<Seq<NodeView>, LoadFault>(fault),
        },
{
    if !is_loadable(source) {
        return Err(LoadFault::TooDeep);
    }
    match load_yaml(source) {
        Ok(loaded) => {
            let mut docs: Vec<Node> = Vec::new();
            let mut i: usize = 0;
            while i < loaded.len()
                invariant
                    i <= loaded.len(),
                    docs@.len() == i,
                    forall|j: int| 0 <= j < i ==> docs@[j]@ == yaml_node(loaded@[j]),
                    forall|j: int|
                        0 <= j < loaded@.len() ==> fits(
                            yaml_node(#[trigger] loaded@[j]),
                            MAX_DEPTH as nat,
                        ),
                decreases loaded.len() - i,
            {
                docs.push(node_from_yaml(&loaded[i]));
                i += 1;
            }
            assert(node_views(docs@) =~= Seq::new(
                loaded@.len(),
                |i: int| yaml_node(loaded@[i]),
            ));
            Ok(docs)
        },
        Err(_) => Err(LoadFault::Syntax),
    }
}

} // verus!
