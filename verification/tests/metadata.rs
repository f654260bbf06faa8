use supernova::errors::FetchError;
use supernova::headers::{parse_rate_limit, Header};
use supernova::link::extract_link_next;
use supernova::meta::parse_metadata;
use supernova::numbers::parse_u64;
use supernova::ratelimit::reset_minutes;

fn h(name: &str, value: &str) -> Header {
    Header { name: name.to_string(), value: value.to_string() }
}

#[test]
fn rate_limit_counters_read() {
    let headers = vec![
        h("X-RateLimit-Limit", "60"),
        h("X-RateLimit-Remaining", "59"),
        h("X-RateLimit-Reset", "1700000000"),
    ];
    let snap = parse_rate_limit(&headers).unwrap();
    assert_eq!(snap.limit, 60);
    assert_eq!(snap.remaining, 59);
    assert_eq!(snap.reset_at, 1700000000);
}

#[test]
fn rate_limit_names_case_insensitive() {
    let headers = vec![
        h("x-ratelimit-limit", "5000"),
        h("X-RATELIMIT-REMAINING", "4999"),
        h("x-RateLimit-reset", "123"),
    ];
    let snap = parse_rate_limit(&headers).unwrap();
    assert_eq!(snap.limit, 5000);
    assert_eq!(snap.remaining, 4999);
    assert_eq!(snap.reset_at, 123);
}

#[test]
fn rate_limit_missing_headers_default_zero() {
    let headers = vec![h("Content-Type", "application/json")];
    let snap = parse_rate_limit(&headers).unwrap();
    assert_eq!(snap.limit, 0);
    assert_eq!(snap.remaining, 0);
    assert_eq!(snap.reset_at, 0);
}

#[test]
fn rate_limit_repeated_header_last_wins() {
    let headers = vec![h("X-RateLimit-Limit", "60"), h("X-RateLimit-Limit", "5000")];
    let snap = parse_rate_limit(&headers).unwrap();
    assert_eq!(snap.limit, 5000);
}

#[test]
fn rate_limit_malformed_is_protocol_violation() {
    let headers = vec![h("X-RateLimit-Limit", "sixty")];
    match parse_rate_limit(&headers) {
        Err(FetchError::ProtocolViolation { raw }) => assert_eq!(raw, "sixty"),
        _ => panic!("expected a protocol violation"),
    }
}

#[test]
fn rate_limit_empty_value_is_protocol_violation() {
    let headers = vec![h("X-RateLimit-Remaining", "")];
    assert!(matches!(
        parse_rate_limit(&headers),
        Err(FetchError::ProtocolViolation { .. })
    ));
}

#[test]
fn rate_limit_oversized_value_is_protocol_violation() {
    let headers = vec![h("X-RateLimit-Reset", "99999999999999999999999999")];
    assert!(matches!(
        parse_rate_limit(&headers),
        Err(FetchError::ProtocolViolation { .. })
    ));
}

#[test]
fn parse_u64_exact_values() {
    assert_eq!(parse_u64("0"), Some(0));
    assert_eq!(parse_u64("007"), Some(7));
    assert_eq!(parse_u64("4999"), Some(4999));
    assert_eq!(parse_u64("18446744073709551615"), Some(u64::MAX));
}

#[test]
fn parse_u64_rejects_bad_input() {
    assert_eq!(parse_u64(""), None);
    assert_eq!(parse_u64("12a"), None);
    assert_eq!(parse_u64("-5"), None);
    assert_eq!(parse_u64(" 5"), None);
    assert_eq!(parse_u64("18446744073709551616"), None);
}

#[test]
fn link_next_selected() {
    let headers = vec![h(
        "Link",
        "<https://api.github.com/user/1/starred?page=2>; rel=\"next\", \
         <https://api.github.com/user/1/starred?page=5>; rel=\"last\"",
    )];
    assert_eq!(
        extract_link_next(&headers).as_deref(),
        Some("https://api.github.com/user/1/starred?page=2")
    );
}

#[test]
fn link_relation_tie_break() {
    // Entries tagged first/prev/last stand before the next entry and
    // are ignored; only the entry whose relation list holds "next" is
    // chosen.
    let headers = vec![h(
        "Link",
        "<https://example.test/a>; rel=\"first\", \
         <https://example.test/b>; rel=\"prev\", \
         <https://example.test/c>; rel=\"last\", \
         <https://example.test/d>; rel=\"next\"",
    )];
    assert_eq!(extract_link_next(&headers).as_deref(), Some("https://example.test/d"));
}

#[test]
fn link_relation_list_with_several_tokens() {
    let headers = vec![h("link", "<https://example.test/n>; rel=\"next last\"")];
    assert_eq!(extract_link_next(&headers).as_deref(), Some("https://example.test/n"));
}

#[test]
fn link_unquoted_relation_value() {
    let headers = vec![h("Link", "<https://example.test/n>; rel=next")];
    assert_eq!(extract_link_next(&headers).as_deref(), Some("https://example.test/n"));
}

#[test]
fn link_none_without_next_relation() {
    let headers = vec![h("Link", "<https://example.test/p>; rel=\"prev\"")];
    assert_eq!(extract_link_next(&headers), None);
}

#[test]
fn link_none_without_link_metadata() {
    let headers = vec![h("X-RateLimit-Limit", "60")];
    assert_eq!(extract_link_next(&headers), None);
}

#[test]
fn link_spread_over_two_headers() {
    let headers = vec![
        h("Link", "<https://example.test/z>; rel=\"last\""),
        h("Link", "<https://example.test/n>; rel=\"next\""),
    ];
    assert_eq!(extract_link_next(&headers).as_deref(), Some("https://example.test/n"));
}

#[test]
fn header_parser_idempotent() {
    let headers = vec![
        h("Link", "<https://example.test/n>; rel=\"next\""),
        h("X-RateLimit-Limit", "60"),
        h("X-RateLimit-Remaining", "42"),
        h("X-RateLimit-Reset", "1700000000"),
    ];
    let first = parse_metadata(&headers).unwrap();
    let second = parse_metadata(&headers).unwrap();
    assert_eq!(first.next_page, second.next_page);
    assert_eq!(first.rate_limit.limit, second.rate_limit.limit);
    assert_eq!(first.rate_limit.remaining, second.rate_limit.remaining);
    assert_eq!(first.rate_limit.reset_at, second.rate_limit.reset_at);
}

#[test]
fn reset_minutes_rounds_up_and_clamps() {
    let now: u64 = 1_000_000;
    assert_eq!(reset_minutes(now + 1800, now), 30);
    assert_eq!(reset_minutes(now + 600, now), 10);
    assert_eq!(reset_minutes(now + 601, now), 11);
    assert_eq!(reset_minutes(now + 1, now), 1);
    assert_eq!(reset_minutes(now, now), 0);
    assert_eq!(reset_minutes(now - 50, now), 0);
}
