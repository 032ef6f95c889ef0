//! Client-side logic for the ETF Matcher dataset manifest: where resources
//! live, what the manifest says, and which dataset a key stands for.
//!
//! The crate performs no network transfer itself. Each operation is a small
//! value that names the URL to fetch and, once handed what came back, yields
//! either the result or the next transfer.

pub mod config;
pub mod config_map;
pub mod document;
pub mod error;
pub mod fetch;
pub mod keys;
pub mod manifest;
pub mod resource;

pub use resource::{
    get_resource_url, get_symbol_map_url, locate_resource, ResourceLocation, BASE_URL,
    SYMBOL_MAP_FILE,
};
pub use config::{TickerVectorConfig, TickerVectorConfigView};
pub use config_map::TickerVectorConfigMap;
pub use document::{parse_document, Node, NodeView};
pub use error::{LoaderError, LoaderErrorView};
pub use manifest::{get_config_by_key, load_all_configs_from_str, Config, MANIFEST_SECTION};
pub use fetch::{
    get_all_etf_matcher_configs, get_etf_matcher_config_by_key, get_resource, get_symbol_map,
    get_ticker_vectors_collection_by_key, load_all_configs_from_url, ConfigFetch, ConfigsFetch,
    DatasetFetch, ResourceFetch, MANIFEST_FILE,
};
