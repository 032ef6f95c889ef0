//! TOML documents as plain data, and the parser that produces them.

use vstd::prelude::*;
use vstd::string::*;

verus! {

/// A value of a TOML document: one node of its tree.
///
/// Floats and date-times are told apart from the rest and carry nothing:
/// the manifest has no field of either kind.
#[derive(Debug, PartialEq, Eq)]
pub enum Node {
    String(String),
    Integer(i64),
    Float,
    Boolean(bool),
    Datetime,
    Array(Vec<Node>),
    /// The entries of a table, in the parser's order.
    Table(Vec<(String, Node)>),
}

/// A TOML value as plain mathematical data.
pub enum NodeView {
    String(Seq<char>),
    Integer(i64),
    Float,
    Boolean(bool),
    Datetime,
    Array(Seq<NodeView>),
    Table(Seq<(Seq<char>, NodeView)>),
}

/// The plain data of a node: strings by their characters, arrays and tables
/// item by item in their order.
pub open spec fn node_view(node: Node) -> NodeView
    decreases node,
{
    match node {
        Node::String(text) => NodeView::String(text@),
        Node::Integer(number) => NodeView::Integer(number),
        Node::Float => NodeView::Float,
        Node::Boolean(flag) => NodeView::Boolean(flag),
        Node::Datetime => NodeView::Datetime,
        Node::Array(items) => NodeView::Array(
            Seq::new(
                items@.len(),
                |i: int|
                    if 0 <= i < items.len() {
                        node_view(items[i])
                    } else {
                        arbitrary()
                    },
            ),
        ),
        Node::Table(entries) => NodeView::Table(
            Seq::new(
                entries@.len(),
                |i: int|
                    if 0 <= i < entries.len() {
                        (entries[i].0@, node_view(entries[i].1))
                    } else {
                        arbitrary()
                    },
            ),
        ),
    }
}

impl View for Node {
    type V = NodeView;

    open spec fn view(&self) -> NodeView {
        node_view(*self)
    }
}

/// The entries of a table as plain data: each key with its value, in order.
pub open spec fn entries_view(entries: Vec<(String, Node)>) -> Seq<(Seq<char>, NodeView)> {
    Node::Table(entries)@->Table_0
}

/// The items of an array as plain data, in order.
pub open spec fn items_view(items: Vec<Node>) -> Seq<NodeView> {
    Node::Array(items)@->Array_0
}

/// The parser's own form of a value.
#[verifier::external_type_specification]
#[verifier::external_body]
pub struct ExTomlValue(toml::Value);

/// The parser's account of why a text is no TOML document.
#[verifier::external_type_specification]
#[verifier::external_body]
pub struct ExTomlError(toml::de::Error);

/// What the parser holds in one of its values.
pub uninterp spec fn toml_value_view(value: toml::Value) -> NodeView;

/// The document that the parser reads from a text, or `None` where it
/// rejects the text.
pub uninterp spec fn toml_document(text: Seq<char>) -> Option<NodeView>;

/// Calls `toml::from_str` for a `toml::Table` and wraps the table as a
/// `toml::Value`.
///
/// Claimed: whether the call succeeds, and the document it yields, depend on
/// the text alone.
#[verifier::external_body]
fn parse_toml(text: &str) -> (parsed: Result<toml::Value, toml::de::Error>)
    ensures
        match parsed {
            Ok(value) => toml_document(text@) == Some(toml_value_view(value)),
            Err(_) => toml_document(text@) is None,
        },
{
    toml::from_str::<toml::Table>(text).map(toml::Value::Table)
}

/// Rebuilds a `toml::Value` as a [`Node`], one arm for each variant of
/// `toml::Value`; a table is walked with the `into_iter` of
/// `toml::map::Map`.
///
/// Claimed: the result holds what the parser's value holds. Strings,
/// integers and booleans are moved over, arrays and tables item by item in
/// their order; a float or a date-time leaves only its kind.
#[verifier::external_body]
fn node_from_toml(value: toml::Value) -> (own: Node)
    ensures
        own@ == toml_value_view(value),
{
    match value {
        toml::Value::String(text) => Node::String(text),
        toml::Value::Integer(number) => Node::Integer(number),
        toml::Value::Float(_) => Node::Float,
        toml::Value::Boolean(flag) => Node::Boolean(flag),
        toml::Value::Datetime(_) => Node::Datetime,
        toml::Value::Array(items) => Node::Array(items.into_iter().map(node_from_toml).collect()),
        toml::Value::Table(table) => Node::Table(
            table.into_iter().map(|(key, item)| (key, node_from_toml(item))).collect(),
        ),
    }
}

/// Reads a TOML document.
///
/// Returns the document that the parser makes of `text`, or `None` where
/// the parser rejects it.
pub fn parse_document(text: &str) -> (document: Option<Node>)
    ensures
        match document {
            Some(node) => toml_document(text@) == Some(node@),
            None => toml_document(text@) is None,
        },
{
    match parse_toml(text) {
        Ok(value) => Some(node_from_toml(value)),
        Err(_) => None,
    }
}

} // verus!
