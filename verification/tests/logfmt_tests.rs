//! Access log formatting.

use yarhs::logfmt::{escape_json, AccessLogEntry};

fn create_test_entry() -> AccessLogEntry {
    let mut entry = AccessLogEntry::new(
        "192.168.1.1".to_string(),
        "GET".to_string(),
        "/api/users".to_string(),
    );
    entry.query = Some("page=1".to_string());
    entry.http_version = "1.1".to_string();
    entry.status = 200;
    entry.body_bytes = 1234;
    entry.referer = Some("https://example.com".to_string());
    entry.user_agent = Some("Mozilla/5.0".to_string());
    entry.request_time_us = 1500;
    entry
}

#[test]
fn test_format_combined() {
    let entry = create_test_entry();
    let log = entry.format("combined");
    assert!(log.contains("192.168.1.1"));
    assert!(log.contains("GET /api/users?page=1 HTTP/1.1"));
    assert!(log.contains("200 1234"));
    assert!(log.contains("https://example.com"));
    assert!(log.contains("Mozilla/5.0"));
}

#[test]
fn test_format_common() {
    let entry = create_test_entry();
    let log = entry.format("common");
    assert!(log.contains("192.168.1.1"));
    assert!(log.contains("GET /api/users?page=1 HTTP/1.1"));
    assert!(log.contains("200 1234"));
    // Common format does not include referer/user-agent.
    assert!(!log.contains("https://example.com"));
}

#[test]
fn test_format_json() {
    let entry = create_test_entry();
    let log = entry.format("json");
    assert!(log.contains(r#""remote_addr":"192.168.1.1""#));
    assert!(log.contains(r#""method":"GET""#));
    assert!(log.contains(r#""status":200"#));
    assert!(log.contains(r#""body_bytes":1234"#));
}

#[test]
fn test_format_custom() {
    let entry = create_test_entry();
    let log = entry.format("$remote_addr - $status - $request_time");
    println!("Custom format output: {log}");
    assert!(log.contains("192.168.1.1"));
    assert!(log.contains("200"));
    // 1500us rounds to 0.002 seconds at three decimal places.
    assert!(
        log.contains("0.00"),
        "Expected log to contain '0.00', got: {log}"
    );
}

#[test]
fn test_format_custom_exact_request_time() {
    let mut entry = create_test_entry();
    entry.request_time_us = 1500;
    let log = entry.format("$request_time");
    assert_eq!(log, "0.002");
    entry.request_time_us = 1_234_567;
    let log = entry.format("$request_time");
    assert_eq!(log, "1.235");
}

#[test]
fn test_escape_json() {
    assert_eq!(escape_json("plain"), "plain");
    assert_eq!(escape_json("say \"hi\""), "say \\\"hi\\\"");
    assert_eq!(escape_json("a\\b"), "a\\\\b");
    assert_eq!(escape_json("line\nbreak"), "line\\nbreak");
    assert_eq!(escape_json("tab\there"), "tab\\there");
}

#[test]
fn test_format_json_escapes_fields() {
    let mut entry = create_test_entry();
    entry.user_agent = Some("agent \"quoted\"".to_string());
    let log = entry.format("json");
    assert!(log.contains(r#""user_agent":"agent \"quoted\"""#));
}
