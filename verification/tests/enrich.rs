use winter_mcp::enrich::{
    check_columns, check_enrichment_input, drop_tuple, parse_failure_mode, unique_lookups,
    CacheKey, EnrichmentOptions, EnrichmentResult, EnrichmentSpec, EnrichmentType, FailureMode,
    LookupOutcome,
};
use winter_mcp::json::JsonValue;

fn spec(column: usize, t: EnrichmentType, options: EnrichmentOptions) -> EnrichmentSpec {
    EnrichmentSpec { column, enrichment_type: t, options, on_failure: None, max_retries: 0 }
}

fn tuple(xs: &[&str]) -> Vec<String> {
    xs.iter().map(|s| s.to_string()).collect()
}

#[test]
fn test_enrichment_type_serialization() {
    assert_eq!(EnrichmentType::Profile.as_str(), "profile");
    assert_eq!(EnrichmentType::AuthorFeed.as_str(), "author_feed");
    assert_eq!(EnrichmentType::SearchPosts.as_str(), "search_posts");
    assert_eq!(EnrichmentType::ThreadContext.as_str(), "thread_context");
    assert_eq!(EnrichmentType::Followers.as_str(), "followers");
    assert_eq!(EnrichmentType::Follows.as_str(), "follows");
}

#[test]
fn test_failure_mode_default() {
    let mode: FailureMode = Default::default();
    assert_eq!(mode, FailureMode::Continue);
}

#[test]
fn test_cache_key_equality() {
    let spec = EnrichmentSpec {
        column: 0,
        enrichment_type: EnrichmentType::Profile,
        options: EnrichmentOptions::default(),
        on_failure: None,
        max_retries: 0,
    };

    let key1 = CacheKey::new(0, "did:plc:abc", &spec);
    let key2 = CacheKey::new(0, "did:plc:abc", &spec);
    let key3 = CacheKey::new(0, "did:plc:xyz", &spec);

    assert_eq!(key1, key2);
    assert_ne!(key1, key3);
}

#[test]
fn test_cache_key_different_options() {
    let spec1 = EnrichmentSpec {
        column: 0,
        enrichment_type: EnrichmentType::AuthorFeed,
        options: EnrichmentOptions { limit: Some(5), ..Default::default() },
        on_failure: None,
        max_retries: 0,
    };

    let spec2 = EnrichmentSpec {
        column: 0,
        enrichment_type: EnrichmentType::AuthorFeed,
        options: EnrichmentOptions { limit: Some(10), ..Default::default() },
        on_failure: None,
        max_retries: 0,
    };

    let key1 = CacheKey::new(0, "did:plc:abc", &spec1);
    let key2 = CacheKey::new(0, "did:plc:abc", &spec2);

    // Different options should produce different keys
    assert_ne!(key1, key2);
}

// --- further cases ---

#[test]
fn failure_mode_names() {
    assert_eq!(parse_failure_mode("continue"), Some(FailureMode::Continue));
    assert_eq!(parse_failure_mode("skip_tuple"), Some(FailureMode::SkipTuple));
    assert_eq!(parse_failure_mode("halt"), Some(FailureMode::Halt));
    assert_eq!(parse_failure_mode("stop"), None);
}

#[test]
fn column_checks() {
    let tuples = vec![tuple(&["a", "b"]), tuple(&["c"])];
    let ok = vec![spec(1, EnrichmentType::Profile, EnrichmentOptions::default())];
    assert!(check_columns(&tuples, &ok).is_ok());
    let bad = vec![
        spec(0, EnrichmentType::Profile, EnrichmentOptions::default()),
        spec(2, EnrichmentType::Follows, EnrichmentOptions::default()),
    ];
    assert_eq!(
        check_columns(&tuples, &bad),
        Err("Enrichment column 2 exceeds tuple size (max: 1)".to_string())
    );
    assert_eq!(
        check_columns(&Vec::new(), &bad),
        Err("Enrichment column 2 exceeds tuple size (max: 0)".to_string())
    );
}

#[test]
fn input_checks() {
    assert_eq!(check_enrichment_input(EnrichmentType::Profile, "did:plc:x"), None);
    assert_eq!(
        check_enrichment_input(EnrichmentType::Followers, "alice"),
        Some("followers enrichment expects a DID, got: alice".to_string())
    );
    assert_eq!(
        check_enrichment_input(EnrichmentType::ThreadContext, "did:plc:x"),
        Some("thread_context enrichment expects an AT URI, got: did:plc:x".to_string())
    );
    assert_eq!(check_enrichment_input(EnrichmentType::SearchPosts, "anything"), None);
}

#[test]
fn lookups_are_deduplicated() {
    let tuples = vec![
        tuple(&["did:a", "x"]),
        tuple(&["did:a", "y"]),
        tuple(&["did:b"]),
    ];
    let specs = vec![
        spec(0, EnrichmentType::Profile, EnrichmentOptions::default()),
        spec(1, EnrichmentType::SearchPosts, EnrichmentOptions { limit: Some(3), ..Default::default() }),
    ];
    let keys = unique_lookups(&tuples, &specs);
    let names: Vec<(usize, String)> = keys.iter().map(|k| (k.column, k.key.clone())).collect();
    assert_eq!(
        names,
        vec![
            (0, "did:a".to_string()),
            (1, "x".to_string()),
            (1, "y".to_string()),
            (0, "did:b".to_string()),
        ]
    );
}

#[test]
fn tuples_dropped_only_under_skip() {
    let mut skip = spec(0, EnrichmentType::Profile, EnrichmentOptions::default());
    skip.on_failure = Some(FailureMode::SkipTuple);
    let specs = vec![skip.clone()];
    let failed = vec![LookupOutcome { key: CacheKey::new(0, "did:a", &skip), success: false }];
    assert!(drop_tuple(&tuple(&["did:a"]), &specs, FailureMode::Continue, &failed));
    assert!(!drop_tuple(&tuple(&["did:b"]), &specs, FailureMode::Continue, &failed));
    let cont = vec![spec(0, EnrichmentType::Profile, EnrichmentOptions::default())];
    assert!(!drop_tuple(&tuple(&["did:a"]), &cont, FailureMode::Continue, &failed));
    assert!(drop_tuple(&tuple(&["did:a"]), &cont, FailureMode::SkipTuple, &failed));
}

#[test]
fn test_enrichment_result_success() {
    let result = EnrichmentResult::success(JsonValue::Object(vec![(
        "foo".to_string(),
        JsonValue::String("bar".to_string()),
    )]));
    assert!(result.success);
    assert!(result.data.is_some());
    assert!(result.error.is_none());
}

#[test]
fn test_enrichment_result_error() {
    let result = EnrichmentResult::error("something went wrong".to_string());
    assert!(!result.success);
    assert!(result.data.is_none());
    assert_eq!(result.error, Some("something went wrong".to_string()));
}
