use etf_matcher_vector_config_loader::{
    get_all_etf_matcher_configs, get_etf_matcher_config_by_key, get_resource,
    get_ticker_vectors_collection_by_key, load_all_configs_from_url, LoaderError, MANIFEST_FILE,
};

const MANIFEST: &str = r#"
[ticker_vector_config.test]
path = "test_path.bin"
description = "Test Config"
features = 100

[ticker_vector_config.remote]
path = "https://example.com/remote.bin"

[ticker_vector_config.plain]
path = "http://example.com/plain.bin"

[ticker_vector_config.odd]
path = "ftp://example.com/odd.bin"
"#;

const BROKEN: &str = r#"
[ticker_vector_config.test]
path = "test_path.bin"

[ticker_vector_config.pathless]
description = "no path"
"#;

#[test]
fn manifest_file_is_the_published_one() {
    assert_eq!(MANIFEST_FILE, "ticker_vector_configs.toml");
}

#[test]
fn all_configs_come_from_the_manifest_url() {
    assert_eq!(
        get_all_etf_matcher_configs().url,
        "https://etfmatcher.com/data/ticker_vector_configs.toml"
    );
    assert_eq!(
        get_all_etf_matcher_configs(),
        load_all_configs_from_url("https://etfmatcher.com/data/ticker_vector_configs.toml")
    );
}

#[test]
fn load_from_url_fetches_that_url() {
    for url in ["http://localhost:8080/fixture.toml", "", "not a url", "x.toml"] {
        assert_eq!(load_all_configs_from_url(url).url, url);
    }
}

#[test]
fn load_yields_every_descriptor() {
    let configs = load_all_configs_from_url("http://localhost/m.toml")
        .complete(Ok(MANIFEST.to_string()))
        .unwrap();
    assert_eq!(configs.len(), 4);
    assert_eq!(configs.get("test").unwrap().path, "test_path.bin");
    assert_eq!(configs.get("test").unwrap().features, Some(100));
}

#[test]
fn load_passes_a_failed_transfer_on() {
    assert_eq!(
        get_all_etf_matcher_configs().complete(Err("timed out".to_string())),
        Err(LoaderError::Transport("timed out".to_string()))
    );
    assert_eq!(
        load_all_configs_from_url("x").complete(Err(String::new())),
        Err(LoaderError::Transport(String::new()))
    );
}

#[test]
fn load_rejects_a_manifest_with_a_pathless_entry() {
    assert_eq!(
        load_all_configs_from_url("http://localhost/m.toml").complete(Ok(BROKEN.to_string())),
        Err(LoaderError::Parse)
    );
    assert_eq!(
        get_all_etf_matcher_configs().complete(Ok("not toml at all".to_string())),
        Err(LoaderError::Parse)
    );
}

#[test]
fn loading_twice_yields_equal_maps() {
    let first = get_all_etf_matcher_configs().complete(Ok(MANIFEST.to_string())).unwrap();
    let second = get_all_etf_matcher_configs().complete(Ok(MANIFEST.to_string())).unwrap();
    assert_eq!(first, second);
    assert_eq!(first.keys(), second.keys());
    assert_eq!(first.len(), 4);
}

#[test]
fn lookup_by_key_fetches_the_manifest() {
    let fetch = get_etf_matcher_config_by_key("test");
    assert_eq!(fetch.configs.url, "https://etfmatcher.com/data/ticker_vector_configs.toml");
    assert_eq!(fetch.key, "test");
}

#[test]
fn lookup_by_key_yields_the_descriptor() {
    let config = get_etf_matcher_config_by_key("test").complete(Ok(MANIFEST.to_string())).unwrap();
    assert_eq!(config.path, "test_path.bin");
    assert_eq!(config.description.as_deref(), Some("Test Config"));
    assert_eq!(config.features, Some(100));
    assert_eq!(config.vector_dimensions, None);
}

#[test]
fn lookup_of_a_missing_key_is_not_found() {
    assert_eq!(
        get_etf_matcher_config_by_key("nonexistent_key").complete(Ok(MANIFEST.to_string())),
        Err(LoaderError::NotFound { key: "nonexistent_key".to_string() })
    );
    assert_eq!(
        get_etf_matcher_config_by_key("Test").complete(Ok(MANIFEST.to_string())),
        Err(LoaderError::NotFound { key: "Test".to_string() })
    );
    assert_eq!(
        get_etf_matcher_config_by_key("").complete(Ok("[ticker_vector_config]\n".to_string())),
        Err(LoaderError::NotFound { key: String::new() })
    );
}

#[test]
fn lookup_fails_as_the_load_fails() {
    assert_eq!(
        get_etf_matcher_config_by_key("test").complete(Err("no route".to_string())),
        Err(LoaderError::Transport("no route".to_string()))
    );
    assert_eq!(
        get_etf_matcher_config_by_key("test").complete(Ok(BROKEN.to_string())),
        Err(LoaderError::Parse)
    );
    assert_eq!(
        get_etf_matcher_config_by_key("nonexistent_key").complete(Ok(BROKEN.to_string())),
        Err(LoaderError::Parse)
    );
}

#[test]
fn dataset_by_key_fetches_the_manifest_first() {
    let fetch = get_ticker_vectors_collection_by_key("test");
    assert_eq!(fetch.config.configs.url, "https://etfmatcher.com/data/ticker_vector_configs.toml");
    assert_eq!(fetch.config.key, "test");
    assert_eq!(fetch.config, get_etf_matcher_config_by_key("test"));
}

#[test]
fn dataset_by_key_goes_on_to_the_resolved_path() {
    let next = get_ticker_vectors_collection_by_key("test").complete(Ok(MANIFEST.to_string())).unwrap();
    assert_eq!(next.url, "https://etfmatcher.com/data/test_path.bin");
    assert_eq!(next, get_resource("test_path.bin"));
    assert_eq!(next.complete(Ok(vec![1, 2, 3])), Ok(vec![1, 2, 3]));
}

#[test]
fn dataset_with_a_complete_url_is_fetched_from_it() {
    let next = get_ticker_vectors_collection_by_key("remote").complete(Ok(MANIFEST.to_string())).unwrap();
    assert_eq!(next.url, "https://example.com/remote.bin");
    let next = get_ticker_vectors_collection_by_key("plain").complete(Ok(MANIFEST.to_string())).unwrap();
    assert_eq!(next.url, "http://example.com/plain.bin");
    let next = get_ticker_vectors_collection_by_key("odd").complete(Ok(MANIFEST.to_string())).unwrap();
    assert_eq!(next.url, "https://etfmatcher.com/data/ftp://example.com/odd.bin");
}

#[test]
fn dataset_of_a_missing_key_is_not_found() {
    assert_eq!(
        get_ticker_vectors_collection_by_key("nonexistent_key").complete(Ok(MANIFEST.to_string())),
        Err(LoaderError::NotFound { key: "nonexistent_key".to_string() })
    );
}

#[test]
fn dataset_fails_as_the_lookup_fails() {
    assert_eq!(
        get_ticker_vectors_collection_by_key("test").complete(Err("HTTP status 500".to_string())),
        Err(LoaderError::Transport("HTTP status 500".to_string()))
    );
    assert_eq!(
        get_ticker_vectors_collection_by_key("test").complete(Ok(BROKEN.to_string())),
        Err(LoaderError::Parse)
    );
}

#[test]
fn dataset_download_may_fail_after_the_manifest_was_read() {
    let next = get_ticker_vectors_collection_by_key("test").complete(Ok(MANIFEST.to_string())).unwrap();
    assert_eq!(
        next.complete(Err("HTTP status 404".to_string())),
        Err(LoaderError::Transport("HTTP status 404".to_string()))
    );
}

#[test]
fn messages_name_the_failure() {
    assert_eq!(
        LoaderError::NotFound { key: "nonexistent_key".to_string() }.message(),
        "Config for key 'nonexistent_key' not found"
    );
    assert_eq!(LoaderError::NotFound { key: String::new() }.message(), "Config for key '' not found");
    assert_eq!(LoaderError::Transport("timed out".to_string()).message(), "timed out");
    assert_eq!(LoaderError::Parse.message(), "manifest does not conform to the expected schema");
}
