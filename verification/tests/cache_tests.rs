//! ETag generation, conditional-request checks, and HTTP date handling.

use yarhs::cache::{check_etag_match, generate_etag, mtime_to_etag, CachePolicy};
use yarhs::httpdate::{check_not_modified_since, format_http_date, parse_http_date};

#[test]
fn test_generate_etag() {
    let etag = generate_etag(b"hello world");
    assert!(etag.starts_with('"'));
    assert!(etag.ends_with('"'));
    assert!(etag.len() > 2);
}

#[test]
fn test_etag_consistency() {
    let etag1 = generate_etag(b"same content");
    let etag2 = generate_etag(b"same content");
    assert_eq!(etag1, etag2);
}

#[test]
fn test_etag_difference() {
    let etag1 = generate_etag(b"content a");
    let etag2 = generate_etag(b"content b");
    assert_ne!(etag1, etag2);
}

#[test]
fn test_check_etag_match() {
    let etag = "\"abc123\"";
    assert!(check_etag_match(Some("\"abc123\""), etag));
    assert!(check_etag_match(Some("\"xyz\", \"abc123\""), etag));
    assert!(check_etag_match(Some("*"), etag));
    assert!(!check_etag_match(Some("\"different\""), etag));
    assert!(!check_etag_match(None, etag));
}

#[test]
fn test_cache_policy() {
    assert_eq!(
        CachePolicy::Public(3600).to_header_value(),
        "public, max-age=3600"
    );
    assert_eq!(
        CachePolicy::Private(600).to_header_value(),
        "private, max-age=600"
    );
    assert_eq!(CachePolicy::NoCache.to_header_value(), "no-cache");
    assert_eq!(CachePolicy::NoStore.to_header_value(), "no-store");
}

#[test]
fn test_format_http_date() {
    // A known date: Jan 1, 1970 00:00:00 GMT (Unix epoch).
    assert_eq!(format_http_date(0), "Thu, 01 Jan 1970 00:00:00 GMT");

    // Another known date.
    let secs = 784_111_777; // Sun, 06 Nov 1994 08:49:37 GMT
    assert_eq!(format_http_date(secs), "Sun, 06 Nov 1994 08:49:37 GMT");
}

#[test]
fn test_parse_http_date() {
    let date_str = "Sun, 06 Nov 1994 08:49:37 GMT";
    let parsed = parse_http_date(date_str).unwrap();
    assert_eq!(parsed, 784_111_777);

    // Invalid format.
    assert!(parse_http_date("invalid").is_none());
    assert!(parse_http_date("Sun 06 Nov 1994").is_none());
}

#[test]
fn test_check_not_modified_since() {
    let file_time = 1_000_000;
    let older_date = "Thu, 01 Jan 1970 00:00:00 GMT";
    let newer_date = "Tue, 19 Jan 2038 03:14:07 GMT";

    // File is newer than client's cache -> modified.
    assert!(!check_not_modified_since(Some(older_date), file_time));
    // File is older than client's cache -> not modified.
    assert!(check_not_modified_since(Some(newer_date), file_time));
    // No header -> assume modified.
    assert!(!check_not_modified_since(None, file_time));
}

#[test]
fn test_check_not_modified_since_exact_match() {
    // The client sends back the same Last-Modified value.
    let date_str = "Wed, 07 Jan 2026 08:42:17 GMT";
    let client_time = parse_http_date(date_str).unwrap();
    assert!(
        check_not_modified_since(Some(date_str), client_time),
        "Equal times should return 304"
    );
}

#[test]
fn test_check_not_modified_since_nanosecond_precision() {
    // File systems store mtime with nanoseconds, but HTTP dates have second
    // precision: the half-second fraction truncates away before comparison.
    let base_secs = 1_767_775_337;
    let http_date = format_http_date(base_secs);
    assert!(
        check_not_modified_since(Some(&http_date), base_secs),
        "Should return 304 even with nanosecond precision difference"
    );
}

#[test]
fn test_mtime_etag_is_hex_of_seconds() {
    assert_eq!(mtime_to_etag(0), "0");
    assert_eq!(mtime_to_etag(255), "ff");
    assert_eq!(mtime_to_etag(784_111_777), "2ebc98a1");
}

#[test]
fn test_parse_http_date_rejects_zero_day() {
    assert!(parse_http_date("Sun, 00 Nov 1994 08:49:37 GMT").is_none());
}

#[test]
fn test_format_http_date_leap_year() {
    // Feb 29 of a leap year round-trips.
    let secs = parse_http_date("Tue, 29 Feb 2000 12:00:00 GMT").unwrap();
    assert_eq!(format_http_date(secs), "Tue, 29 Feb 2000 12:00:00 GMT");
}
