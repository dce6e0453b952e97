use winter_mcp::enrich::{
    enrich_response, CacheKey, EnrichResponse, EnrichmentOptions, EnrichmentResult, EnrichmentSpec,
    EnrichmentType, FailureMode,
};
use winter_mcp::json::JsonValue;

fn spec_with(column: usize, t: EnrichmentType, limit: Option<u8>, on_failure: Option<FailureMode>) -> EnrichmentSpec {
    let mut options = EnrichmentOptions::default();
    options.limit = limit;
    EnrichmentSpec { column, enrichment_type: t, options, on_failure, max_retries: 0 }
}

fn tuples() -> Vec<Vec<String>> {
    vec![
        vec!["did:a".to_string(), "x".to_string()],
        vec!["did:b".to_string(), "y".to_string()],
    ]
}

fn ok(key: &str, s: &EnrichmentSpec) -> (CacheKey, EnrichmentResult) {
    (CacheKey::new(s.column, key, s), EnrichmentResult::success(JsonValue::String(key.to_string())))
}

fn failed(key: &str, s: &EnrichmentSpec) -> (CacheKey, EnrichmentResult) {
    (CacheKey::new(s.column, key, s), EnrichmentResult::error(format!("no {}", key)))
}

fn shape(r: &EnrichResponse) -> Vec<(usize, Vec<(usize, EnrichmentType, usize)>)> {
    r.results.iter().map(|e| (e.tuple, e.enrichments.clone())).collect()
}

#[test]
fn continue_reports_failures_and_keeps_tuples() {
    let s = spec_with(0, EnrichmentType::Profile, None, None);
    let outcomes = vec![ok("did:a", &s), failed("did:b", &s)];
    let r = enrich_response("q(X)", &tuples(), &vec![s], FailureMode::Continue, &outcomes);
    assert_eq!(r.query, "q(X)");
    assert!(!r.halted);
    assert_eq!(r.errors, vec![1]);
    assert_eq!(
        shape(&r),
        vec![(0, vec![(0, EnrichmentType::Profile, 0)]), (1, vec![(0, EnrichmentType::Profile, 1)])]
    );
    assert_eq!(r.count, 2);
    assert_eq!(r.unique_keys, 2);
    assert_eq!(r.total_lookups, 2);
}

#[test]
fn skip_tuple_leaves_the_tuple_out() {
    let s = spec_with(0, EnrichmentType::Profile, None, Some(FailureMode::SkipTuple));
    let outcomes = vec![ok("did:a", &s), failed("did:b", &s)];
    let r = enrich_response("q(X)", &tuples(), &vec![s], FailureMode::Continue, &outcomes);
    assert!(!r.halted);
    assert_eq!(r.errors, vec![1]);
    assert_eq!(shape(&r), vec![(0, vec![(0, EnrichmentType::Profile, 0)])]);
    assert_eq!(r.count, 1);
}

#[test]
fn global_skip_tuple_applies_without_own_mode() {
    let s = spec_with(0, EnrichmentType::Profile, None, None);
    let outcomes = vec![failed("did:a", &s), ok("did:b", &s)];
    let r = enrich_response("q(X)", &tuples(), &vec![s], FailureMode::SkipTuple, &outcomes);
    assert_eq!(shape(&r), vec![(1, vec![(0, EnrichmentType::Profile, 1)])]);
}

#[test]
fn halt_stops_at_the_first_failure() {
    let s = spec_with(0, EnrichmentType::Profile, None, Some(FailureMode::Halt));
    let outcomes = vec![failed("did:b", &s), ok("did:a", &s)];
    let r = enrich_response("q(X)", &tuples(), &vec![s], FailureMode::Continue, &outcomes);
    assert!(r.halted);
    assert_eq!(r.errors, vec![0]);
    // The outcome after the halt is not taken: the first tuple has no result.
    assert_eq!(shape(&r), vec![(0, vec![]), (1, vec![(0, EnrichmentType::Profile, 0)])]);
    assert_eq!(r.unique_keys, 2);
}

#[test]
fn halt_after_other_failures_reports_them_all() {
    let cont = spec_with(1, EnrichmentType::SearchPosts, None, None);
    let halt = spec_with(0, EnrichmentType::Profile, None, Some(FailureMode::Halt));
    let outcomes = vec![failed("x", &cont), ok("did:a", &halt), failed("did:b", &halt), failed("y", &cont)];
    let r = enrich_response("q(X)", &tuples(), &vec![halt, cont], FailureMode::Continue, &outcomes);
    assert!(r.halted);
    assert_eq!(r.errors, vec![0, 2]);
    assert_eq!(r.total_lookups, 4);
    assert_eq!(
        shape(&r),
        vec![
            (0, vec![(0, EnrichmentType::Profile, 1), (1, EnrichmentType::SearchPosts, 0)]),
            (1, vec![(0, EnrichmentType::Profile, 2)]),
        ]
    );
}

#[test]
fn the_last_enrichment_of_a_column_and_type_is_reported() {
    let a = spec_with(0, EnrichmentType::AuthorFeed, Some(5), None);
    let b = spec_with(0, EnrichmentType::AuthorFeed, None, None);
    let t = vec![vec!["did:a".to_string()]];
    let outcomes = vec![ok("did:a", &a), ok("did:a", &b)];
    let r = enrich_response("q(X)", &t, &vec![a, b], FailureMode::Continue, &outcomes);
    assert_eq!(shape(&r), vec![(0, vec![(0, EnrichmentType::AuthorFeed, 1)])]);
}

#[test]
fn no_tuples_gives_an_empty_response() {
    let s = spec_with(0, EnrichmentType::Profile, None, None);
    let r = enrich_response("q(X)", &vec![], &vec![s], FailureMode::Continue, &vec![]);
    assert_eq!(r.count, 0);
    assert!(r.results.is_empty() && r.errors.is_empty() && !r.halted);
    assert_eq!((r.unique_keys, r.total_lookups), (0, 0));
}
