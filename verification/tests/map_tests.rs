use etf_matcher_vector_config_loader::keys::{compare_keys, KeyOrder};
use etf_matcher_vector_config_loader::{get_config_by_key, TickerVectorConfig, TickerVectorConfigMap};

fn config(path: &str) -> TickerVectorConfig {
    TickerVectorConfig {
        path: path.to_string(),
        description: None,
        proto_noteboook: None,
        last_training_time: None,
        features: None,
        vector_dimensions: None,
        training_sequence_length: None,
        training_data_sources: None,
    }
}

fn full_config() -> TickerVectorConfig {
    TickerVectorConfig {
        path: "test_path.bin".to_string(),
        description: Some("Test Config".to_string()),
        proto_noteboook: Some("notebook.ipynb".to_string()),
        last_training_time: Some("2025-01-01T00:00:00Z".to_string()),
        features: Some(100),
        vector_dimensions: Some(200),
        training_sequence_length: Some(50),
        training_data_sources: Some(vec!["source1".to_string(), "source2".to_string()]),
    }
}

#[test]
fn new_map_is_empty() {
    let configs = TickerVectorConfigMap::new();
    assert!(configs.is_empty());
    assert_eq!(configs.len(), 0);
    assert_eq!(configs.keys(), Vec::<String>::new());
    assert!(configs.get("default").is_none());
    assert!(configs.get("").is_none());
    assert!(!configs.contains_key("default"));
}

#[test]
fn lookup_returns_the_stored_descriptor_field_for_field() {
    let mut configs = TickerVectorConfigMap::new();
    configs.insert("test".to_string(), full_config());
    let found = get_config_by_key(&configs, "test").unwrap();
    assert_eq!(found.path, "test_path.bin");
    assert_eq!(found.description.as_deref(), Some("Test Config"));
    assert_eq!(found.proto_noteboook.as_deref(), Some("notebook.ipynb"));
    assert_eq!(found.last_training_time.as_deref(), Some("2025-01-01T00:00:00Z"));
    assert_eq!(found.features, Some(100));
    assert_eq!(found.vector_dimensions, Some(200));
    assert_eq!(found.training_sequence_length, Some(50));
    assert_eq!(
        found.training_data_sources,
        Some(vec!["source1".to_string(), "source2".to_string()])
    );
    assert_eq!(found, &full_config());
    assert!(get_config_by_key(&configs, "nonexistent").is_none());
}

#[test]
fn lookup_regards_case() {
    let mut configs = TickerVectorConfigMap::new();
    configs.insert("default".to_string(), config("d.bin"));
    assert!(get_config_by_key(&configs, "default").is_some());
    assert!(get_config_by_key(&configs, "Default").is_none());
    assert!(get_config_by_key(&configs, "DEFAULT").is_none());
    assert!(configs.contains_key("default"));
    assert!(!configs.contains_key("Default"));
}

#[test]
fn lookup_matches_whole_keys_only() {
    let mut configs = TickerVectorConfigMap::new();
    configs.insert("default".to_string(), config("d.bin"));
    for key in ["", "defaul", "default ", " default", "defaultx", "d"] {
        assert!(get_config_by_key(&configs, key).is_none(), "found {:?}", key);
    }
}

#[test]
fn empty_key_is_a_key() {
    let mut configs = TickerVectorConfigMap::new();
    configs.insert(String::new(), config("empty.bin"));
    assert_eq!(configs.get("").unwrap().path, "empty.bin");
    assert_eq!(configs.len(), 1);
}

#[test]
fn insert_hands_back_what_was_replaced() {
    let mut configs = TickerVectorConfigMap::new();
    assert_eq!(configs.insert("k".to_string(), config("first.bin")), None);
    assert_eq!(
        configs.insert("k".to_string(), config("second.bin")),
        Some(config("first.bin"))
    );
    assert_eq!(configs.len(), 1);
    assert_eq!(configs.get("k"), Some(&config("second.bin")));
}

#[test]
fn keys_ascend_whatever_the_order_of_insertion() {
    let mut configs = TickerVectorConfigMap::new();
    for key in ["v5-sma-lstm-stacks", "default", "zeta", "Alpha", "alpha", "a", "ab", "", "é"] {
        assert_eq!(configs.insert(key.to_string(), config(key)), None);
    }
    let mut expected: Vec<String> =
        ["v5-sma-lstm-stacks", "default", "zeta", "Alpha", "alpha", "a", "ab", "", "é"]
            .iter()
            .map(|k| k.to_string())
            .collect();
    expected.sort();
    assert_eq!(configs.keys(), expected);
    assert_eq!(configs.len(), 9);
    for key in expected.iter() {
        assert_eq!(configs.get(key).unwrap().path, *key);
    }
}

#[test]
fn maps_with_the_same_content_are_equal() {
    let mut one = TickerVectorConfigMap::new();
    one.insert("a".to_string(), config("a.bin"));
    one.insert("b".to_string(), config("b.bin"));
    let mut other = TickerVectorConfigMap::new();
    other.insert("b".to_string(), config("old.bin"));
    other.insert("a".to_string(), config("a.bin"));
    other.insert("b".to_string(), config("b.bin"));
    assert_eq!(one, other);
}

#[test]
fn many_entries_are_all_found() {
    let mut configs = TickerVectorConfigMap::new();
    for i in 0..200u32 {
        let key = format!("key-{}", (i * 37) % 200);
        configs.insert(key.clone(), config(&key));
    }
    assert_eq!(configs.len(), 200);
    for i in 0..200u32 {
        let key = format!("key-{}", i);
        assert_eq!(configs.get(&key).unwrap().path, key);
    }
    assert!(configs.get("key-200").is_none());
    let keys = configs.keys();
    for pair in keys.windows(2) {
        assert!(pair[0] < pair[1]);
    }
}

#[test]
fn clone_agrees_field_for_field() {
    let source = full_config();
    let copy = source.clone();
    assert_eq!(copy, source);
    assert_eq!(config("x").clone(), config("x"));
}

#[test]
fn keys_compare_as_str_does() {
    let samples = [
        "", "a", "A", "ab", "abc", "b", "default", "Default", "é", "e", "z", "zz", "日本", "日",
        "\u{10000}", "\u{ffff}", "v5-sma-lstm-stacks", "v5", "~", " ",
    ];
    for a in samples {
        for b in samples {
            let expected = if a < b {
                KeyOrder::Before
            } else if a > b {
                KeyOrder::After
            } else {
                KeyOrder::Same
            };
            assert_eq!(compare_keys(a, b), expected, "{:?} against {:?}", a, b);
        }
    }
}
