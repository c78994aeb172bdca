use std::collections::HashMap;
use url_shortener::handlers::{
    check_custom_id, confirm_custom_id, confirm_custom_id_at, create_short_url, creation_status,
    finish_creation, get_url_stats, redirect_status, redirect_url, redirect_url_at, stats_status,
    validate_request, ApiError, CreateStep, RedirectStep, StoreReply,
};
use url_shortener::models::{
    short_url, CreateUrlRequest, CreateUrlResponse, Timestamp, UrlRecord, UrlStats,
};

const BASE: &str = "http://sho.rt";

fn select(store: &HashMap<String, UrlRecord>, id: &str) -> StoreReply {
    match store.get(id) {
        Some(record) => StoreReply::Found(record.clone()),
        None => StoreReply::Missing,
    }
}

fn insert(store: &mut HashMap<String, UrlRecord>, record: UrlRecord) -> StoreReply {
    if store.contains_key(&record.short_id) {
        return StoreReply::Failed;
    }
    store.insert(record.short_id.clone(), record.clone());
    StoreReply::Found(record)
}

fn create(
    store: &mut HashMap<String, UrlRecord>,
    url: &str,
    custom_id: Option<&str>,
) -> Result<CreateUrlResponse, ApiError> {
    let payload =
        CreateUrlRequest { url: url.to_string(), custom_id: custom_id.map(|s| s.to_string()) };
    let record = match create_short_url(&payload) {
        CreateStep::Reject(e) => return Err(e),
        CreateStep::CheckExisting { id, url } => {
            let reply = select(store, &id);
            confirm_custom_id(&reply, id, url)?
        }
        CreateStep::Insert(record) => record,
    };
    let id = record.short_id.clone();
    let reply = insert(store, record);
    finish_creation(reply, &id, BASE)
}

fn redirect(store: &mut HashMap<String, UrlRecord>, id: &str) -> Result<String, ApiError> {
    match redirect_url(select(store, id)) {
        RedirectStep::Reject(e) => Err(e),
        RedirectStep::Redirect { location, update } => {
            store.insert(id.to_string(), update);
            Ok(location)
        }
    }
}

fn stats(store: &HashMap<String, UrlRecord>, id: &str) -> Result<UrlStats, ApiError> {
    get_url_stats(select(store, id), BASE)
}

fn sample_record() -> UrlRecord {
    UrlRecord::new_at(
        "abc".to_string(),
        "https://example.com".to_string(),
        Timestamp { secs: 1_700_000_000, nanos: 42 },
    )
}

#[test]
fn end_to_end_create_redirect_stats() {
    let mut store = HashMap::new();
    let answer = create(&mut store, "https://example.com", None);
    assert_eq!(creation_status(&answer), 201);
    let created = answer.unwrap();
    assert_eq!(created.id.len(), 8);
    assert_eq!(created.original_url, "https://example.com");
    assert_eq!(created.short_url, format!("{}/{}", BASE, created.id));
    let target = redirect(&mut store, &created.id).unwrap();
    assert_eq!(target, "https://example.com");
    let s = stats(&store, &created.id).unwrap();
    assert_eq!(s.click_count, 1);
    assert_eq!(s.id, created.id);
    assert_eq!(s.created_at, created.created_at);
    assert!(s.last_accessed.is_some());
}

#[test]
fn successive_creations_get_different_ids() {
    let mut store = HashMap::new();
    let a = create(&mut store, "https://example.com", None).unwrap();
    let b = create(&mut store, "https://example.com", None).unwrap();
    assert_eq!(a.id.len(), 8);
    assert_eq!(b.id.len(), 8);
    assert_ne!(a.id, b.id);
    assert_eq!(store.len(), 2);
}

#[test]
fn custom_id_creation_is_found_with_zero_clicks() {
    let mut store = HashMap::new();
    let created = create(&mut store, "https://example.com/a", Some("my-link")).unwrap();
    assert_eq!(created.id, "my-link");
    assert_eq!(created.short_url, "http://sho.rt/my-link");
    assert_eq!(created.original_url, "https://example.com/a");
    let s = stats(&store, "my-link").unwrap();
    assert_eq!(s.id, "my-link");
    assert_eq!(s.click_count, 0);
    assert_eq!(s.last_accessed, None);
    assert_eq!(s.short_url, "http://sho.rt/my-link");
    assert_eq!(s.original_url, "https://example.com/a");
}

#[test]
fn custom_id_length_bounds() {
    let mut store = HashMap::new();
    let one = "a";
    let fifty = "b".repeat(50);
    let fifty_one = "c".repeat(51);
    assert!(create(&mut store, "https://example.com", Some(one)).is_ok());
    assert!(create(&mut store, "https://example.com", Some(&fifty)).is_ok());
    assert_eq!(store.len(), 2);
    assert_eq!(
        create(&mut store, "https://example.com", Some("")).unwrap_err(),
        ApiError::InvalidCustomId
    );
    assert_eq!(
        create(&mut store, "https://example.com", Some(&fifty_one)).unwrap_err(),
        ApiError::InvalidCustomId
    );
    assert_eq!(store.len(), 2);
    assert_eq!(ApiError::InvalidCustomId.status_code(), 400);
}

#[test]
fn custom_id_length_counts_characters() {
    assert!(check_custom_id(&"é".repeat(50)));
    assert!(!check_custom_id(&"é".repeat(51)));
    assert!(check_custom_id("x"));
    assert!(!check_custom_id(""));
}

#[test]
fn existing_custom_id_is_a_conflict() {
    let mut store = HashMap::new();
    create(&mut store, "https://example.com/first", Some("taken")).unwrap();
    redirect(&mut store, "taken").unwrap();
    let before = store.get("taken").unwrap().clone();
    let err = create(&mut store, "https://example.com/second", Some("taken")).unwrap_err();
    assert_eq!(err, ApiError::CustomIdTaken);
    assert_eq!(err.status_code(), 409);
    let after = store.get("taken").unwrap();
    assert_eq!(after.original_url, "https://example.com/first");
    assert_eq!(after.click_count, before.click_count);
    assert_eq!(after.created_at, before.created_at);
    assert_eq!(after.last_accessed, before.last_accessed);
    assert_eq!(store.len(), 1);
}

#[test]
fn invalid_url_is_rejected_before_the_custom_id() {
    let mut store = HashMap::new();
    let err = create(&mut store, "not-a-url", Some("")).unwrap_err();
    assert_eq!(err, ApiError::InvalidUrl);
    assert_eq!(err.status_code(), 400);
    assert_eq!(create(&mut store, "", None).unwrap_err(), ApiError::InvalidUrl);
    assert!(store.is_empty());
}

#[test]
fn redirects_are_counted() {
    let mut store = HashMap::new();
    create(&mut store, "https://example.com", Some("count")).unwrap();
    let created_at = store.get("count").unwrap().created_at;
    for n in 1..=7 {
        assert_eq!(redirect(&mut store, "count").unwrap(), "https://example.com");
        let s = stats(&store, "count").unwrap();
        assert_eq!(s.click_count, n);
        assert!(s.last_accessed.is_some());
        assert_eq!(s.created_at, created_at);
    }
}

#[test]
fn unknown_id_is_not_found() {
    let mut store: HashMap<String, UrlRecord> = HashMap::new();
    let err = redirect(&mut store, "nobody").unwrap_err();
    assert_eq!(err, ApiError::NotFound);
    assert_eq!(err.status_code(), 404);
    assert_eq!(err.message(), "Short URL not found");
    assert_eq!(stats(&store, "nobody").unwrap_err(), ApiError::NotFound);
    assert!(store.is_empty());
}

#[test]
fn store_failures_are_server_errors() {
    assert_eq!(
        confirm_custom_id(&StoreReply::Failed, "a".to_string(), "https://e.x".to_string())
            .unwrap_err(),
        ApiError::LookupFailed
    );
    assert_eq!(finish_creation(StoreReply::Failed, "a", BASE).unwrap_err(), ApiError::CreateFailed);
    assert_eq!(
        finish_creation(StoreReply::Missing, "a", BASE).unwrap_err(),
        ApiError::CreateFailed
    );
    assert_eq!(get_url_stats(StoreReply::Failed, BASE).unwrap_err(), ApiError::Internal);
    match redirect_url(StoreReply::Failed) {
        RedirectStep::Reject(e) => assert_eq!(e, ApiError::Internal),
        RedirectStep::Redirect { .. } => panic!("a failed lookup must not redirect"),
    }
    assert_eq!(ApiError::LookupFailed.status_code(), 500);
    assert_eq!(ApiError::CreateFailed.status_code(), 500);
    assert_eq!(ApiError::Internal.status_code(), 500);
}

#[test]
fn error_messages() {
    assert_eq!(ApiError::InvalidUrl.message(), "Invalid URL format");
    assert_eq!(
        ApiError::InvalidCustomId.message(),
        "Custom ID must be between 1 and 50 characters"
    );
    assert_eq!(ApiError::CustomIdTaken.message(), "Custom ID already exists");
    assert_eq!(ApiError::NotFound.message(), "Short URL not found");
    assert_eq!(ApiError::LookupFailed.message(), "Database error");
    assert_eq!(ApiError::CreateFailed.message(), "Failed to create short URL");
    assert_eq!(ApiError::Internal.message(), "Internal server error");
}

#[test]
fn validate_request_verdicts() {
    let with = |custom: Option<&str>| CreateUrlRequest {
        url: "https://example.com".to_string(),
        custom_id: custom.map(|s| s.to_string()),
    };
    assert_eq!(validate_request(false, &with(Some("ok"))), Err(ApiError::InvalidUrl));
    assert_eq!(validate_request(true, &with(Some("ok"))), Ok(Some("ok".to_string())));
    assert_eq!(validate_request(true, &with(Some(""))), Err(ApiError::InvalidCustomId));
    assert_eq!(validate_request(true, &with(None)), Ok(None));
}

#[test]
fn create_step_for_custom_id_asks_for_a_lookup() {
    let payload = CreateUrlRequest {
        url: "https://example.com/x".to_string(),
        custom_id: Some("mine".to_string()),
    };
    match create_short_url(&payload) {
        CreateStep::CheckExisting { id, url } => {
            assert_eq!(id, "mine");
            assert_eq!(url, "https://example.com/x");
        }
        other => panic!("expected a lookup, got {:?}", other),
    }
}

#[test]
fn confirm_custom_id_at_builds_a_fresh_record() {
    let t = Timestamp { secs: 10, nanos: 20 };
    let record = confirm_custom_id_at(
        &StoreReply::Missing,
        "mine".to_string(),
        "https://example.com".to_string(),
        t,
    )
    .unwrap();
    assert_eq!(record.short_id, "mine");
    assert_eq!(record.original_url, "https://example.com");
    assert_eq!(record.click_count, 0);
    assert_eq!(record.created_at, t);
    assert_eq!(record.last_accessed, None);
    let taken = confirm_custom_id_at(
        &StoreReply::Found(sample_record()),
        "abc".to_string(),
        "https://example.com".to_string(),
        t,
    );
    assert_eq!(taken.unwrap_err(), ApiError::CustomIdTaken);
}

#[test]
fn finish_creation_answers_from_the_stored_record() {
    let response = finish_creation(StoreReply::Found(sample_record()), "abc", BASE).unwrap();
    assert_eq!(response.short_url, "http://sho.rt/abc");
    assert_eq!(response.original_url, "https://example.com");
    assert_eq!(response.id, "abc");
    assert_eq!(response.created_at, Timestamp { secs: 1_700_000_000, nanos: 42 });
}

#[test]
fn redirect_url_at_counts_one_visit() {
    let now = Timestamp { secs: 1_700_000_500, nanos: 7 };
    match redirect_url_at(StoreReply::Found(sample_record()), now) {
        RedirectStep::Redirect { location, update } => {
            assert_eq!(location, "https://example.com");
            assert_eq!(update.short_id, "abc");
            assert_eq!(update.original_url, "https://example.com");
            assert_eq!(update.click_count, 1);
            assert_eq!(update.created_at, Timestamp { secs: 1_700_000_000, nanos: 42 });
            assert_eq!(update.last_accessed, Some(now));
        }
        RedirectStep::Reject(e) => panic!("expected a redirect, got {:?}", e),
    }
    match redirect_url_at(StoreReply::Missing, now) {
        RedirectStep::Reject(e) => assert_eq!(e, ApiError::NotFound),
        RedirectStep::Redirect { .. } => panic!("a missing record must not redirect"),
    }
}

#[test]
fn record_visit_keeps_the_rest() {
    let later = Timestamp { secs: 2, nanos: 3 };
    let record = sample_record().record_visit(Timestamp { secs: 1, nanos: 0 }).record_visit(later);
    assert_eq!(record.click_count, 2);
    assert_eq!(record.last_accessed, Some(later));
    assert_eq!(record.short_id, "abc");
}

#[test]
fn new_record_starts_unvisited() {
    let record = UrlRecord::new("abc".to_string(), "https://example.com".to_string());
    assert_eq!(record.short_id, "abc");
    assert_eq!(record.original_url, "https://example.com");
    assert_eq!(record.click_count, 0);
    assert_eq!(record.last_accessed, None);
    assert!(record.created_at.secs > 1_600_000_000);
    assert!(record.created_at.nanos < 2_000_000_000);
}

#[test]
fn short_url_joins_with_a_slash() {
    assert_eq!(short_url("http://sho.rt", "abc"), "http://sho.rt/abc");
    assert_eq!(short_url("", ""), "/");
    assert_eq!(short_url("0.0.0.0:3000", "x_Y-9"), "0.0.0.0:3000/x_Y-9");
}

#[test]
fn stats_report_the_record() {
    let record = sample_record().record_visit(Timestamp { secs: 5, nanos: 6 });
    let s = get_url_stats(StoreReply::Found(record), BASE).unwrap();
    assert_eq!(s.id, "abc");
    assert_eq!(s.original_url, "https://example.com");
    assert_eq!(s.short_url, "http://sho.rt/abc");
    assert_eq!(s.click_count, 1);
    assert_eq!(s.created_at, Timestamp { secs: 1_700_000_000, nanos: 42 });
    assert_eq!(s.last_accessed, Some(Timestamp { secs: 5, nanos: 6 }));
}

#[test]
fn success_statuses() {
    let created = finish_creation(StoreReply::Found(sample_record()), "abc", BASE);
    assert_eq!(creation_status(&created), 201);
    let failed = finish_creation(StoreReply::Failed, "abc", BASE);
    assert_eq!(creation_status(&failed), 500);
    assert_eq!(creation_status(&Err(ApiError::CustomIdTaken)), 409);
    assert_eq!(creation_status(&Err(ApiError::InvalidUrl)), 400);

    let moved = redirect_url(StoreReply::Found(sample_record()));
    assert_eq!(redirect_status(&moved), 308);
    assert_eq!(redirect_status(&redirect_url(StoreReply::Missing)), 404);
    assert_eq!(redirect_status(&redirect_url(StoreReply::Failed)), 500);

    assert_eq!(stats_status(&get_url_stats(StoreReply::Found(sample_record()), BASE)), 200);
    assert_eq!(stats_status(&get_url_stats(StoreReply::Missing, BASE)), 404);
    assert_eq!(stats_status(&get_url_stats(StoreReply::Failed, BASE)), 500);
}
