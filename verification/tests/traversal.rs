use supernova::config::{ClientConfig, Config};
use supernova::driver::{Driver, PageResponse, PageStatus};
use supernova::errors::FetchError;
use supernova::fetcher::assemble_page;
use supernova::headers::Header;
use supernova::ratelimit::{RateLimitSnapshot, RatePolicy};
use supernova::records::{render_record, Repository, StarRecord};

fn repo(id: i64, name: &str, description: Option<&str>) -> Repository {
    Repository {
        id,
        url: format!("https://example.test/{}", name),
        full_name: name.to_string(),
        description: description.map(|d| d.to_string()),
        star_count: id * 10,
        primary_language: None,
    }
}

fn record(id: i64, name: &str) -> StarRecord {
    StarRecord { starred_at: 1_600_000_000 + id, repository: repo(id, name, None) }
}

fn snapshot(limit: u64, remaining: u64, reset_at: u64) -> RateLimitSnapshot {
    RateLimitSnapshot { limit, remaining, reset_at }
}

fn success_page(
    records: Vec<StarRecord>,
    next_page: Option<String>,
    rate_limit: RateLimitSnapshot,
) -> PageResponse {
    PageResponse { status: PageStatus::Success, records, next_page, rate_limit }
}

#[test]
fn config_builds_initial_locator() {
    let config = Config::new("octocat".to_string(), None);
    let url = config.url().unwrap();
    assert_eq!(url, "https://api.github.com/users/octocat/starred");
}

#[test]
fn client_config_fixed_headers() {
    let c = ClientConfig::new();
    assert_eq!(c.accept, "application/vnd.github.v3.star+json");
    assert_eq!(c.user_agent, "supernova/0.1.0");
}

#[test]
fn pagination_completeness_over_three_pages() {
    let now: u64 = 1_000_000;
    let pages = vec![
        success_page(
            vec![record(1, "a/a"), record(2, "b/b")],
            Some("https://example.test/page2".to_string()),
            snapshot(5000, 4999, now + 3600),
        ),
        success_page(
            vec![record(3, "c/c")],
            Some("https://example.test/page3".to_string()),
            snapshot(5000, 4998, now + 3600),
        ),
        success_page(
            vec![record(4, "d/d"), record(5, "e/e"), record(6, "f/f")],
            None,
            snapshot(5000, 4997, now + 3600),
        ),
    ];
    let mut driver = Driver::new(
        Some("https://example.test/page1".to_string()),
        RatePolicy::standard(),
        false,
    );
    let mut fetches = 0;
    for page in pages {
        assert!(!driver.is_done());
        fetches += 1;
        let warning = driver.apply_page(page, now).unwrap();
        assert!(warning.is_none());
    }
    assert!(driver.is_done());
    assert_eq!(fetches, 3);
    let ids: Vec<i64> = driver.records.iter().map(|r| r.repository.id).collect();
    assert_eq!(ids, vec![1, 2, 3, 4, 5, 6]);
}

#[test]
fn termination_without_next_locator() {
    let now: u64 = 1_000_000;
    let mut driver = Driver::new(
        Some("https://example.test/only".to_string()),
        RatePolicy::standard(),
        false,
    );
    // Plenty of budget left: the driver still stops, because the page
    // names no next locator.
    let page = success_page(vec![record(1, "a/a")], None, snapshot(5000, 4000, now + 3600));
    driver.apply_page(page, now).unwrap();
    assert!(driver.is_done());
    assert_eq!(driver.current_locator(), None);
    assert_eq!(driver.records.len(), 1);
}

#[test]
fn quota_abort_discards_collection() {
    let now: u64 = 1_000_000;
    let mut driver = Driver::new(
        Some("https://example.test/page2".to_string()),
        RatePolicy::standard(),
        false,
    );
    // A page already collected before the quota ran out.
    let first = success_page(
        vec![record(1, "a/a")],
        Some("https://example.test/page2".to_string()),
        snapshot(60, 1, now + 1800),
    );
    driver.apply_page(first, now).unwrap();
    assert_eq!(driver.records.len(), 1);

    let throttled = PageResponse {
        status: PageStatus::Throttled,
        records: Vec::new(),
        next_page: None,
        rate_limit: snapshot(60, 0, now + 1800),
    };
    match driver.apply_page(throttled, now) {
        Err(FetchError::QuotaExhausted { limit, remaining, reset_minutes }) => {
            assert_eq!(limit, 60);
            assert_eq!(remaining, 0);
            assert_eq!(reset_minutes, 30);
        }
        other => panic!("expected quota exhaustion, got {:?}", other.is_ok()),
    }
    assert!(driver.records.is_empty());
    assert!(driver.is_done());
}

#[test]
fn low_quota_warning_is_non_fatal() {
    let now: u64 = 1_000_000;
    let mut driver = Driver::new(
        Some("https://example.test/only".to_string()),
        RatePolicy::standard(),
        false,
    );
    let page = success_page(vec![record(1, "a/a")], None, snapshot(5000, 5, now + 600));
    let warning = driver.apply_page(page, now).unwrap().expect("a warning was owed");
    assert_eq!(warning.remaining, 5);
    assert_eq!(warning.limit, 5000);
    assert_eq!(warning.reset_minutes, 10);
    // The run completed normally: the collection is kept.
    assert!(driver.is_done());
    assert_eq!(driver.records.len(), 1);
}

#[test]
fn warning_at_watch_value_only() {
    let now: u64 = 1_000_000;
    let policy = RatePolicy::standard();
    let cases = [
        (0u64, false), // exhaustion is an abort, never a warning
        (1, true),
        (5, true),
        (6, false),
        (10, true),
        (11, false),
    ];
    for (remaining, expect_warning) in cases {
        let mut driver = Driver::new(
            Some("https://example.test/only".to_string()),
            RatePolicy { warn_threshold: policy.warn_threshold, watch_value: policy.watch_value },
            false,
        );
        let page = success_page(Vec::new(), None, snapshot(5000, remaining, now + 60));
        let warning = driver.apply_page(page, now).unwrap();
        assert_eq!(warning.is_some(), expect_warning, "remaining = {}", remaining);
    }
}

#[test]
fn anonymous_advisory_exactly_once() {
    let config = Config::new("octocat".to_string(), None);
    let mut driver = Driver::start(config, RatePolicy::standard());
    // Armed before the first fetch, and only once.
    assert!(driver.take_advisory());
    assert!(!driver.take_advisory());
    let now: u64 = 1_000_000;
    let page = success_page(Vec::new(), None, snapshot(60, 59, now + 60));
    driver.apply_page(page, now).unwrap();
    // Applying pages never re-arms it.
    assert!(!driver.take_advisory());
}

#[test]
fn no_advisory_with_token() {
    let config = Config::new("octocat".to_string(), Some("example-token".to_string()));
    let mut driver = Driver::start(config, RatePolicy::standard());
    assert!(!driver.take_advisory());
}

#[test]
fn assemble_page_classifies_throttling() {
    let headers = vec![
        Header { name: "X-RateLimit-Limit".to_string(), value: "60".to_string() },
        Header { name: "X-RateLimit-Remaining".to_string(), value: "0".to_string() },
        Header { name: "X-RateLimit-Reset".to_string(), value: "1700000000".to_string() },
    ];
    let page = assemble_page(403, &headers, Vec::new()).unwrap();
    assert!(matches!(page.status, PageStatus::Throttled));
    assert_eq!(page.rate_limit.remaining, 0);
    assert_eq!(page.next_page, None);
}

#[test]
fn assemble_page_success_carries_batch_and_next() {
    let headers = vec![
        Header {
            name: "Link".to_string(),
            value: "<https://example.test/p2>; rel=\"next\"".to_string(),
        },
        Header { name: "X-RateLimit-Remaining".to_string(), value: "40".to_string() },
    ];
    let batch = vec![record(7, "g/g")];
    let page = assemble_page(200, &headers, batch).unwrap();
    assert!(matches!(page.status, PageStatus::Success));
    assert_eq!(page.records.len(), 1);
    assert_eq!(page.records[0].repository.id, 7);
    assert_eq!(page.next_page.as_deref(), Some("https://example.test/p2"));
}

#[test]
fn assemble_page_rejects_malformed_counter() {
    let headers = vec![Header {
        name: "X-RateLimit-Limit".to_string(),
        value: "over 9000".to_string(),
    }];
    assert!(matches!(
        assemble_page(200, &headers, Vec::new()),
        Err(FetchError::ProtocolViolation { .. })
    ));
}

#[test]
fn render_with_description() {
    let r = repo(1, "rust-lang/rust", Some("a systems language"));
    assert_eq!(
        render_record(&r),
        "[rust-lang/rust](https://example.test/rust-lang/rust) - a systems language"
    );
}

#[test]
fn render_without_description() {
    let r = repo(2, "octocat/hello", None);
    assert_eq!(render_record(&r), "[octocat/hello](https://example.test/octocat/hello)");
}
