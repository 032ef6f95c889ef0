//! The shape of the manifest: which TOML documents list dataset
//! descriptors, and which descriptors they list.
//!
//! A manifest has one table that counts, [`MANIFEST_SECTION`]. Each of its
//! entries is a table that describes one dataset. Keys that the shape does
//! not name are passed over. One entry out of shape spoils the whole
//! manifest: there is no partial result.

use vstd::prelude::*;
use vstd::string::*;

use crate::config::{list_view, TickerVectorConfig, TickerVectorConfigView};
use crate::config_map::TickerVectorConfigMap;
use crate::document::{entries_view, items_view, parse_document, toml_document, Node, NodeView};
use crate::error::{LoaderError, LoaderErrorView};
use crate::keys::{compare_keys, KeyOrder};

verus! {

/// Name of the table that maps dataset keys to descriptors.
pub const MANIFEST_SECTION: &'static str = "ticker_vector_config";

/// The entry at index `i` is the first one under `key`.
pub open spec fn first_under(entries: Seq<(Seq<char>, NodeView)>, key: Seq<char>, i: int) -> bool {
    &&& 0 <= i < entries.len()
    &&& entries[i].0 == key
    &&& forall|j: int| 0 <= j < i ==> entries[j].0 != key
}

/// The value that a table holds under `key`: that of the first entry with
/// this key, if there is one.
pub open spec fn lookup(entries: Seq<(Seq<char>, NodeView)>, key: Seq<char>) -> Option<NodeView> {
    if exists|i: int| first_under(entries, key, i) {
        Some(entries[choose|i: int| first_under(entries, key, i)].1)
    } else {
        None
    }
}

/// An optional string field: absent, or a string. `None` where the value
/// is of another kind.
pub open spec fn optional_text(found: Option<NodeView>) -> Option<Option<Seq<char>>> {
    match found {
        None => Some(None),
        Some(NodeView::String(text)) => Some(Some(text)),
        Some(_) => None,
    }
}

/// An optional unsigned field: absent, or an integer from 0 to `u32::MAX`.
/// `None` where the value is of another kind or out of that range.
pub open spec fn optional_count(found: Option<NodeView>) -> Option<Option<u32>> {
    match found {
        None => Some(None),
        Some(NodeView::Integer(number)) => if 0 <= number <= u32::MAX {
            Some(Some(number as u32))
        } else {
            None
        },
        Some(_) => None,
    }
}

/// Whether every item is a string.
pub open spec fn all_text(items: Seq<NodeView>) -> bool {
    forall|i: int| 0 <= i < items.len() ==> items[i] is String
}

/// The strings of a list whose items are all strings.
pub open spec fn texts(items: Seq<NodeView>) -> Seq<Seq<char>> {
    Seq::new(items.len(), |i: int| items[i]->String_0)
}

/// An optional list field: absent, or an array of strings. `None` where
/// the value is of another kind or some item is no string.
pub open spec fn optional_text_list(found: Option<NodeView>) -> Option<Option<Seq<Seq<char>>>> {
    match found {
        None => Some(None),
        Some(NodeView::Array(items)) => if all_text(items) {
            Some(Some(texts(items)))
        } else {
            None
        },
        Some(_) => None,
    }
}

/// The descriptor that a value states, or `None` where it states none: it
/// is no table, `path` is missing or no string, or another named field is
/// of the wrong kind.
pub open spec fn descriptor(node: NodeView) -> Option<TickerVectorConfigView> {
    match node {
        NodeView::Table(fields) => {
            let path = lookup(fields, "path"@);
            let description = optional_text(lookup(fields, "description"@));
            let proto_noteboook = optional_text(lookup(fields, "proto_noteboook"@));
            let last_training_time = optional_text(lookup(fields, "last_training_time"@));
            let features = optional_count(lookup(fields, "features"@));
            let vector_dimensions = optional_count(lookup(fields, "vector_dimensions"@));
            let training_sequence_length = optional_count(
                lookup(fields, "training_sequence_length"@),
            );
            let training_data_sources = optional_text_list(
                lookup(fields, "training_data_sources"@),
            );
            if path is Some && path->0 is String && description is Some && proto_noteboook is Some
                && last_training_time is Some && features is Some && vector_dimensions is Some
                && training_sequence_length is Some && training_data_sources is Some {
                Some(
                    TickerVectorConfigView {
                        path: path->0->String_0,
                        description: description->0,
                        proto_noteboook: proto_noteboook->0,
                        last_training_time: last_training_time->0,
                        features: features->0,
                        vector_dimensions: vector_dimensions->0,
                        training_sequence_length: training_sequence_length->0,
                        training_data_sources: training_data_sources->0,
                    },
                )
            } else {
                None
            }
        },
        _ => None,
    }
}

/// The descriptors that the entries of the manifest's table state, by key,
/// or `None` where some entry states none. Where a key repeats, the later
/// entry counts.
pub open spec fn section_configs(entries: Seq<(Seq<char>, NodeView)>) -> Option<
    Map<Seq<char>, TickerVectorConfigView>,
>
    decreases entries.len(),
{
    if entries.len() == 0 {
        Some(Map::empty())
    } else {
        match (section_configs(entries.drop_last()), descriptor(entries.last().1)) {
            (Some(configs), Some(config)) => Some(configs.insert(entries.last().0, config)),
            _ => None,
        }
    }
}

/// The descriptors that a document lists, or `None` where the document is
/// no manifest: [`MANIFEST_SECTION`] is missing or no table, or one of its
/// entries states no descriptor.
pub open spec fn manifest_configs(document: NodeView) -> Option<
    Map<Seq<char>, TickerVectorConfigView>,
> {
    match document {
        NodeView::Table(top) => match lookup(top, MANIFEST_SECTION@) {
            Some(NodeView::Table(section)) => section_configs(section),
            _ => None,
        },
        _ => None,
    }
}

/// The descriptors that a manifest text lists, or `None` where the text is
/// no TOML document or the document no manifest.
pub open spec fn text_configs(text: Seq<char>) -> Option<Map<Seq<char>, TickerVectorConfigView>> {
    match toml_document(text) {
        Some(document) => manifest_configs(document),
        None => None,
    }
}

/// One entry out of shape spoils the whole table.
pub proof fn lemma_section_rejects(entries: Seq<(Seq<char>, NodeView)>, i: int)
    requires
        0 <= i < entries.len(),
        descriptor(entries[i].1) is None,
    ensures
        section_configs(entries) is None,
    decreases entries.len(),
{
    if i < entries.len() - 1 {
        assert(entries.drop_last()[i] == entries[i]);
        lemma_section_rejects(entries.drop_last(), i);
    }
}

/// A manifest with an entry that lacks `path` lists no descriptors at all:
/// not those of its other entries either.
pub proof fn lemma_entry_without_path_spoils_manifest(
    top: Seq<(Seq<char>, NodeView)>,
    section: Seq<(Seq<char>, NodeView)>,
    i: int,
)
    requires
        lookup(top, MANIFEST_SECTION@) == Some(NodeView::Table(section)),
        0 <= i < section.len(),
        section[i].1 is Table,
        lookup(section[i].1->Table_0, "path"@) is None,
    ensures
        manifest_configs(NodeView::Table(top)) is None,
{
    lemma_section_rejects(section, i);
}

/// The manifest as a whole: its one table of descriptors.
#[derive(Debug, PartialEq, Eq)]
pub struct Config {
    /// The descriptors, by dataset key.
    pub ticker_vector_config: TickerVectorConfigMap,
}

/// Finds the value that a table holds under `key`.
fn find<'a>(entries: &'a Vec<(String, Node)>, key: &str) -> (found: Option<&'a Node>)
    ensures
        match found {
            Some(node) => lookup(entries_view(*entries), key@) == Some(node@),
            None => lookup(entries_view(*entries), key@) is None,
        },
{
    let ghost view = entries_view(*entries);
    let mut i: usize = 0;
    while i < entries.len()
        invariant
            i <= entries.len(),
            view == entries_view(*entries),
            forall|j: int| 0 <= j < i ==> view[j].0 != key@,
        decreases entries.len() - i,
    {
        if let KeyOrder::Same = compare_keys(entries[i].0.as_str(), key) {
            proof {
                assert(first_under(view, key@, i as int));
                let chosen = choose|j: int| first_under(view, key@, j);
                assert(chosen == i);
            }
            return Some(&entries[i].1);
        }
        i += 1;
    }
    None
}

/// Reads an optional string field.
fn read_optional_text(found: Option<&Node>) -> (read: Option<Option<String>>)
    ensures
        match read {
            Some(Some(text)) => optional_text(found_view(found)) == Some(Some(text@)),
            Some(None) => optional_text(found_view(found)) == Some(None::<Seq<char>>),
            None => optional_text(found_view(found)) is None,
        },
{
    match found {
        None => Some(None),
        Some(Node::String(text)) => Some(Some(text.clone())),
        Some(_) => None,
    }
}

/// Reads an optional unsigned field.
fn read_optional_count(found: Option<&Node>) -> (read: Option<Option<u32>>)
    ensures
        read == optional_count(found_view(found)),
{
    match found {
        None => Some(None),
        Some(Node::Integer(number)) => {
            if 0 <= *number && *number <= 0xffff_ffff {
                Some(Some(*number as u32))
            } else {
                None
            }
        },
        Some(_) => None,
    }
}

/// Reads an optional list-of-strings field.
fn read_optional_text_list(found: Option<&Node>) -> (read: Option<Option<Vec<String>>>)
    ensures
        match read {
            Some(Some(list)) => optional_text_list(found_view(found)) == Some(
                Some(list_view(list@)),
            ),
            Some(None) => optional_text_list(found_view(found)) == Some(None::<Seq<Seq<char>>>),
            None => optional_text_list(found_view(found)) is None,
        },
{
    match found {
        None => Some(None),
        Some(Node::Array(items)) => {
            let ghost view = items_view(*items);
            let mut list: Vec<String> = Vec::new();
            let mut i: usize = 0;
            while i < items.len()
                invariant
                    i <= items.len(),
                    view == items_view(*items),
                    found_view(found) == Some(NodeView::Array(view)),
                    list@.len() == i,
                    forall|j: int| 0 <= j < i ==> view[j] is String && list@[j]@ == view[j]->String_0,
                decreases items.len() - i,
            {
                assert(view[i as int] == items@[i as int]@);
                match &items[i] {
                    Node::String(text) => {
                        list.push(text.clone());
                    },
                    _ => {
                        assert(!(view[i as int] is String));
                        assert(!all_text(view));
                        return None;
                    },
                }
                i += 1;
            }
            assert(list_view(list@) =~= texts(view));
            Some(Some(list))
        },
        Some(_) => None,
    }
}

/// The plain data of a value that may be absent.
pub open spec fn found_view(found: Option<&Node>) -> Option<NodeView> {
    match found {
        Some(node) => Some(node@),
        None => None,
    }
}

impl TickerVectorConfig {
    /// Reads the descriptor that a value of the manifest states.
    ///
    /// Fails with [`LoaderError::Parse`] exactly where the value states
    /// none.
    pub fn from_node(node: &Node) -> (read: Result<TickerVectorConfig, LoaderError>)
        ensures
            match read {
                Ok(config) => descriptor(node@) == Some(config@),
                Err(error) => descriptor(node@) is None && error@ == LoaderErrorView::Parse,
            },
    {
        let fields = match node {
            Node::Table(fields) => fields,
            _ => { return Err(LoaderError::Parse); },
        };
        let path = match find(fields, "path") {
            Some(Node::String(text)) => text.clone(),
            _ => { return Err(LoaderError::Parse); },
        };
        let description = match read_optional_text(find(fields, "description")) {
            Some(read) => read,
            None => { return Err(LoaderError::Parse); },
        };
        let proto_noteboook = match read_optional_text(find(fields, "proto_noteboook")) {
            Some(read) => read,
            None => { return Err(LoaderError::Parse); },
        };
        let last_training_time = match read_optional_text(find(fields, "last_training_time")) {
            Some(read) => read,
            None => { return Err(LoaderError::Parse); },
        };
        let features = match read_optional_count(find(fields, "features")) {
            Some(read) => read,
            None => { return Err(LoaderError::Parse); },
        };
        let vector_dimensions = match read_optional_count(find(fields, "vector_dimensions")) {
            Some(read) => read,
            None => { return Err(LoaderError::Parse); },
        };
        let training_sequence_length = match read_optional_count(
            find(fields, "training_sequence_length"),
        ) {
            Some(read) => read,
            None => { return Err(LoaderError::Parse); },
        };
        let training_data_sources = match read_optional_text_list(
            find(fields, "training_data_sources"),
        ) {
            Some(read) => read,
            None => { return Err(LoaderError::Parse); },
        };
        Ok(
            TickerVectorConfig {
                path,
                description,
                proto_noteboook,
                last_training_time,
                features,
                vector_dimensions,
                training_sequence_length,
                training_data_sources,
            },
        )
    }
}

/// Reads the descriptors of the manifest's table.
fn configs_from_section(entries: &Vec<(String, Node)>) -> (read: Option<TickerVectorConfigMap>)
    ensures
        match read {
            Some(configs) => section_configs(entries_view(*entries)) == Some(configs@),
            None => section_configs(entries_view(*entries)) is None,
        },
{
    let ghost view = entries_view(*entries);
    let mut configs = TickerVectorConfigMap::new();
    let mut i: usize = 0;
    while i < entries.len()
        invariant
            i <= entries.len(),
            view == entries_view(*entries),
            section_configs(view.take(i as int)) == Some(configs@),
        decreases entries.len() - i,
    {
        match TickerVectorConfig::from_node(&entries[i].1) {
            Ok(config) => {
                configs.insert(entries[i].0.clone(), config);
                proof {
                    let upto = view.take(i + 1);
                    assert(upto.drop_last() =~= view.take(i as int));
                    assert(upto.last() == view[i as int]);
                }
            },
            Err(_) => {
                proof {
                    lemma_section_rejects(view, i as int);
                }
                return None;
            },
        }
        i += 1;
    }
    proof {
        assert(view.take(entries.len() as int) =~= view);
    }
    Some(configs)
}

impl Config {
    /// Reads a document as a manifest.
    ///
    /// Fails with [`LoaderError::Parse`] exactly where the document is no
    /// manifest; else the result holds every descriptor that the document
    /// lists.
    pub fn from_document(document: &Node) -> (read: Result<Config, LoaderError>)
        ensures
            match read {
                Ok(config) => manifest_configs(document@) == Some(config.ticker_vector_config@),
                Err(error) => manifest_configs(document@) is None && error@
                    == LoaderErrorView::Parse,
            },
    {
        let top = match document {
            Node::Table(top) => top,
            _ => { return Err(LoaderError::Parse); },
        };
        let section = match find(top, MANIFEST_SECTION) {
            Some(Node::Table(section)) => section,
            _ => { return Err(LoaderError::Parse); },
        };
        match configs_from_section(section) {
            Some(configs) => Ok(Config { ticker_vector_config: configs }),
            None => Err(LoaderError::Parse),
        }
    }
}

/// Reads every dataset descriptor from the text of a manifest.
///
/// Fails with [`LoaderError::Parse`] exactly where the text is no TOML
/// document or the document no manifest.
pub fn load_all_configs_from_str(text: &str) -> (loaded: Result<TickerVectorConfigMap, LoaderError>)
    ensures
        match loaded {
            Ok(configs) => text_configs(text@) == Some(configs@),
            Err(error) => text_configs(text@) is None && error@ == LoaderErrorView::Parse,
        },
{
    match parse_document(text) {
        Some(document) => match Config::from_document(&document) {
            Ok(config) => Ok(config.ticker_vector_config),
            Err(error) => Err(error),
        },
        None => Err(LoaderError::Parse),
    }
}

/// Looks a descriptor up by its key. Keys are matched exactly and with
/// regard to case.
pub fn get_config_by_key<'a>(configs: &'a TickerVectorConfigMap, key: &str) -> (found: Option<
    &'a TickerVectorConfig,
>)
    ensures
        match found {
            Some(config) => configs@.contains_key(key@) && config@ == configs@[key@],
            None => !configs@.contains_key(key@),
        },
{
    configs.get(key)
}

} // verus!
