//! The operations of the loader, each as a transfer to be carried out.
//!
//! Nothing here touches the network. An operation starts as a value that
//! names the URL to fetch. The caller performs the transfer and hands what
//! came back to `complete`, which yields the operation's result or, for a
//! dataset looked up by key, the transfer that comes next. A transfer hands
//! back `Ok` with the body, or `Err` with the transport's own account of the
//! failure (no connection, a status that is no success).

use vstd::prelude::*;
use vstd::string::*;

use crate::config::{TickerVectorConfig, TickerVectorConfigView};
use crate::config_map::TickerVectorConfigMap;
use crate::error::{LoaderError, LoaderErrorView};
use crate::manifest::{get_config_by_key, load_all_configs_from_str, text_configs};
use crate::resource::{
    fetch_url, get_resource_url, get_symbol_map_url, is_absolute_url, locate_resource,
    resource_url, SYMBOL_MAP_FILE,
};

verus! {

/// File name of the manifest below the base URL.
pub const MANIFEST_FILE: &'static str = "ticker_vector_configs.toml";

/// A result as plain mathematical data.
pub open spec fn result_view<T: View, E: View>(result: Result<T, E>) -> Result<T::V, E::V> {
    match result {
        Ok(value) => Ok(value@),
        Err(error) => Err(error@),
    }
}

/// What loading all descriptors yields, given what the transfer of the
/// manifest handed back.
pub open spec fn configs_outcome(fetched: Result<Seq<char>, Seq<char>>) -> Result<
    Map<Seq<char>, TickerVectorConfigView>,
    LoaderErrorView,
> {
    match fetched {
        Err(account) => Err(LoaderErrorView::Transport(account)),
        Ok(text) => match text_configs(text) {
            Some(configs) => Ok(configs),
            None => Err(LoaderErrorView::Parse),
        },
    }
}

/// What looking one descriptor up yields: all descriptors are loaded, then
/// the key is looked up among them.
pub open spec fn config_outcome(fetched: Result<Seq<char>, Seq<char>>, key: Seq<char>) -> Result<
    TickerVectorConfigView,
    LoaderErrorView,
> {
    match configs_outcome(fetched) {
        Err(error) => Err(error),
        Ok(configs) => if configs.contains_key(key) {
            Ok(configs[key])
        } else {
            Err(LoaderErrorView::NotFound { key })
        },
    }
}

/// The URL to fetch a dataset from, by its key: the descriptor is looked
/// up, and its path resolved.
pub open spec fn dataset_outcome(fetched: Result<Seq<char>, Seq<char>>, key: Seq<char>) -> Result<
    Seq<char>,
    LoaderErrorView,
> {
    match config_outcome(fetched, key) {
        Err(error) => Err(error),
        Ok(config) => Ok(fetch_url(config.path)),
    }
}

/// What fetching a resource yields: the body as it came, or the failure of
/// the transfer.
pub open spec fn resource_outcome(fetched: Result<Seq<u8>, Seq<char>>) -> Result<
    Seq<u8>,
    LoaderErrorView,
> {
    match fetched {
        Ok(bytes) => Ok(bytes),
        Err(account) => Err(LoaderErrorView::Transport(account)),
    }
}

/// Loading keeps nothing between calls: two loads that were handed the same
/// manifest text yield descriptors that are equal by content, or fail alike.
pub proof fn lemma_load_is_repeatable(
    first: Result<TickerVectorConfigMap, LoaderError>,
    second: Result<TickerVectorConfigMap, LoaderError>,
    fetched: Result<Seq<char>, Seq<char>>,
)
    requires
        result_view(first) == configs_outcome(fetched),
        result_view(second) == configs_outcome(fetched),
    ensures
        result_view(first) == result_view(second),
        first is Ok ==> second is Ok && first->Ok_0@ == second->Ok_0@,
        first is Err ==> second is Err && first->Err_0@ == second->Err_0@,
{
}

/// A key that a manifest does not list is reported as not found, by that
/// key, and not as a failed transfer: by the lookup and by the download of
/// a dataset alike.
pub proof fn lemma_missing_key_is_not_found(text: Seq<char>, key: Seq<char>)
    requires
        text_configs(text) is Some,
        !text_configs(text)->0.contains_key(key),
    ensures
        config_outcome(Ok(text), key) == Err::<TickerVectorConfigView, LoaderErrorView>(
            LoaderErrorView::NotFound { key },
        ),
        dataset_outcome(Ok(text), key) == Err::<Seq<char>, LoaderErrorView>(
            LoaderErrorView::NotFound { key },
        ),
{
}

/// A failed transfer of the manifest is what every operation on the
/// manifest reports, whatever the key.
pub proof fn lemma_transport_failure_is_passed_on(account: Seq<char>, key: Seq<char>)
    ensures
        configs_outcome(Err(account)) == Err::<Map<Seq<char>, TickerVectorConfigView>, LoaderErrorView>(
            LoaderErrorView::Transport(account),
        ),
        config_outcome(Err(account), key) == Err::<TickerVectorConfigView, LoaderErrorView>(
            LoaderErrorView::Transport(account),
        ),
        dataset_outcome(Err(account), key) == Err::<Seq<char>, LoaderErrorView>(
            LoaderErrorView::Transport(account),
        ),
{
}

/// A pending load of all descriptors: the manifest at `url` is to be
/// fetched as text.
#[derive(Debug, PartialEq, Eq)]
pub struct ConfigsFetch {
    pub url: String,
}

/// A pending lookup of one descriptor by its key.
#[derive(Debug, PartialEq, Eq)]
pub struct ConfigFetch {
    /// The load of all descriptors that the lookup rests on.
    pub configs: ConfigsFetch,
    pub key: String,
}

/// A pending download of a dataset by its key. The manifest comes first;
/// it says where the dataset is.
#[derive(Debug, PartialEq, Eq)]
pub struct DatasetFetch {
    /// The lookup of the dataset's descriptor.
    pub config: ConfigFetch,
}

/// A pending download: the resource at `url` is to be fetched as bytes.
#[derive(Debug, PartialEq, Eq)]
pub struct ResourceFetch {
    pub url: String,
}

impl View for ResourceFetch {
    type V = Seq<char>;

    /// The URL to fetch.
    open spec fn view(&self) -> Seq<char> {
        self.url@
    }
}

impl ConfigsFetch {
    /// Finishes the load with what the transfer of the manifest handed back.
    ///
    /// A failed transfer is passed on as [`LoaderError::Transport`]; a text
    /// that is no manifest gives [`LoaderError::Parse`]; else the result
    /// holds every descriptor of the manifest.
    pub fn complete(self, fetched: Result<String, String>) -> (loaded: Result<
        TickerVectorConfigMap,
        LoaderError,
    >)
        ensures
            result_view(loaded) == configs_outcome(result_view(fetched)),
    {
        match fetched {
            Ok(text) => load_all_configs_from_str(text.as_str()),
            Err(account) => Err(LoaderError::Transport(account)),
        }
    }
}

impl ConfigFetch {
    /// Finishes the lookup with what the transfer of the manifest handed
    /// back.
    ///
    /// Fails as the load of all descriptors fails; where that succeeds and
    /// the key has no entry, with [`LoaderError::NotFound`] for the key.
    pub fn complete(self, fetched: Result<String, String>) -> (found: Result<
        TickerVectorConfig,
        LoaderError,
    >)
        ensures
            result_view(found) == config_outcome(result_view(fetched), self.key@),
    {
        let configs = match self.configs.complete(fetched) {
            Ok(configs) => configs,
            Err(error) => { return Err(error); },
        };
        match get_config_by_key(&configs, self.key.as_str()) {
            Some(config) => Ok(config.clone()),
            None => Err(LoaderError::NotFound { key: self.key }),
        }
    }
}

impl DatasetFetch {
    /// Goes on with what the transfer of the manifest handed back: yields
    /// the download of the dataset that the key stands for.
    ///
    /// Fails as the lookup of the descriptor fails.
    pub fn complete(self, fetched: Result<String, String>) -> (next: Result<
        ResourceFetch,
        LoaderError,
    >)
        ensures
            result_view(next) == dataset_outcome(result_view(fetched), self.config.key@),
    {
        match self.config.complete(fetched) {
            Ok(config) => Ok(get_resource(config.path.as_str())),
            Err(error) => Err(error),
        }
    }
}

impl ResourceFetch {
    /// Finishes the download with what the transfer handed back: the body
    /// unchanged, or the failure as [`LoaderError::Transport`].
    pub fn complete(self, fetched: Result<Vec<u8>, String>) -> (body: Result<Vec<u8>, LoaderError>)
        ensures
            result_view(body) == resource_outcome(result_view(fetched)),
    {
        match fetched {
            Ok(bytes) => Ok(bytes),
            Err(account) => Err(LoaderError::Transport(account)),
        }
    }
}

/// Starts a load of all descriptors from the manifest at `url`.
pub fn load_all_configs_from_url(url: &str) -> (fetch: ConfigsFetch)
    ensures
        fetch.url@ == url@,
{
    ConfigsFetch { url: String::from_str(url) }
}

/// Starts a load of all descriptors from the well-known manifest.
pub fn get_all_etf_matcher_configs() -> (fetch: ConfigsFetch)
    ensures
        fetch.url@ == resource_url(MANIFEST_FILE@),
{
    let url = get_resource_url(MANIFEST_FILE);
    load_all_configs_from_url(url.as_str())
}

/// Starts a lookup of the descriptor under `key` in the well-known
/// manifest.
pub fn get_etf_matcher_config_by_key(key: &str) -> (fetch: ConfigFetch)
    ensures
        fetch.configs.url@ == resource_url(MANIFEST_FILE@),
        fetch.key@ == key@,
{
    ConfigFetch { configs: get_all_etf_matcher_configs(), key: String::from_str(key) }
}

/// Starts a download of the dataset that `key` stands for in the
/// well-known manifest.
pub fn get_ticker_vectors_collection_by_key(key: &str) -> (fetch: DatasetFetch)
    ensures
        fetch.config.configs.url@ == resource_url(MANIFEST_FILE@),
        fetch.config.key@ == key@,
{
    DatasetFetch { config: get_etf_matcher_config_by_key(key) }
}

/// Starts a download of a resource, given as a file name below the base
/// URL or as a complete URL.
pub fn get_resource(path: &str) -> (fetch: ResourceFetch)
    ensures
        fetch@ == fetch_url(path@),
{
    ResourceFetch { url: locate_resource(path).url() }
}

/// A URL below the base URL is a complete URL: resolving it again changes
/// nothing.
pub proof fn lemma_resource_url_is_absolute(filename: Seq<char>)
    ensures
        is_absolute_url(resource_url(filename)),
        fetch_url(resource_url(filename)) == resource_url(filename),
{
    reveal_strlit("https://etfmatcher.com/data/");
    reveal_strlit("https://");
    let url = resource_url(filename);
    assert("https://"@ =~= url.subrange(0, "https://"@.len() as int));
}

/// Starts a download of the ticker symbol map.
pub fn get_symbol_map() -> (fetch: ResourceFetch)
    ensures
        fetch@ == resource_url(SYMBOL_MAP_FILE@),
{
    proof {
        lemma_resource_url_is_absolute(SYMBOL_MAP_FILE@);
    }
    let url = get_symbol_map_url();
    get_resource(url.as_str())
}

} // verus!
