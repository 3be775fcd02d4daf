//! Router decisions, the static pipeline, versioning, connection admission
//! and the persistent overlay.

use yarhs::conn::{admit_connection, connection_deadline_secs, keep_alive_enabled, plan_reload, ReloadDecision};
use yarhs::config::{Config, RouteHandler, RoutesConfig};
use yarhs::persist::{PersistentState, state_path_for};
use yarhs::response::build_options_response;
use yarhs::router::{check_body_size, check_http_method, route_request, RouteDecision};
use yarhs::static_files::{
    build_static_file_response_with_mtime, conditional_fast_path, is_path_within_root,
    resolve_file_path,
};
use yarhs::httpdate::format_http_date;
use yarhs::version::{ResourceType, VersionedResource, XdsVersionManager};

#[test]
fn test_method_filter() {
    assert!(check_http_method("GET", false).is_none());
    assert!(check_http_method("HEAD", false).is_none());
    let r = check_http_method("OPTIONS", false).unwrap();
    assert_eq!(r.status, 204);
    let r = check_http_method("POST", false).unwrap();
    assert_eq!(r.status, 405);
    assert_eq!(r.headers[1].1, "GET, HEAD, OPTIONS");
}

#[test]
fn test_options_cors_headers() {
    let r = build_options_response(true);
    assert_eq!(r.status, 204);
    assert_eq!(r.headers.len(), 5);
    assert_eq!(r.headers[1].0, "Access-Control-Allow-Origin");
    assert_eq!(r.headers[1].1, "*");
    let r = build_options_response(false);
    assert_eq!(r.headers.len(), 1);
}

#[test]
fn test_body_size_filter() {
    assert!(check_body_size(None, 100).is_none());
    assert!(check_body_size(Some("99"), 100).is_none());
    assert!(check_body_size(Some("100"), 100).is_none());
    let r = check_body_size(Some("101"), 100).unwrap();
    assert_eq!(r.status, 413);
    // Non-numeric Content-Length skips the check.
    assert!(check_body_size(Some("abc"), 100).is_none());
}

#[test]
fn test_route_request_health_and_fallbacks() {
    let routes = RoutesConfig::default();
    match route_request("/healthz", &routes) {
        RouteDecision::Respond(r) => {
            assert_eq!(r.status, 200);
            assert_eq!(r.body, b"ok");
        }
        _ => panic!("expected health response"),
    }
    assert!(matches!(
        route_request("/favicon.ico", &routes),
        RouteDecision::ServeFavicon
    ));
    assert!(matches!(
        route_request("/anything", &routes),
        RouteDecision::ServeHomepage
    ));
}

#[test]
fn test_route_request_custom_exact_beats_prefix() {
    let mut routes = RoutesConfig::default();
    routes.custom_routes.push((
        "/static".to_string(),
        RouteHandler::Dir {
            path: "public".to_string(),
        },
    ));
    routes.custom_routes.push((
        "/static/app".to_string(),
        RouteHandler::Redirect {
            target: "/moved".to_string(),
        },
    ));
    // The exact key wins even though an earlier key is a prefix match.
    match route_request("/static/app", &routes) {
        RouteDecision::Respond(r) => {
            assert_eq!(r.status, 302);
            assert_eq!(r.headers[0].1, "/moved");
        }
        other => panic!("expected redirect, got {:?}", other),
    }
    // A non-key path under the prefix serves the directory.
    match route_request("/static/css/site.css", &routes) {
        RouteDecision::ServeDir { dir, route_prefix, .. } => {
            assert_eq!(dir, "public");
            assert_eq!(route_prefix, "/static");
        }
        other => panic!("expected dir, got {:?}", other),
    }
}

#[test]
fn test_range_response_pipeline() {
    // A 1000-byte file with `bytes=0-99` yields 206, Content-Length 100,
    // Content-Range `bytes 0-99/1000`, and exactly the first 100 bytes.
    let data: Vec<u8> = (0..1000u32).map(|i| (i % 251) as u8).collect();
    let r = build_static_file_response_with_mtime(
        &data,
        "application/octet-stream",
        "\"etag\"",
        "Thu, 01 Jan 1970 00:00:00 GMT",
        false,
        Some("bytes=0-99"),
    );
    assert_eq!(r.status, 206);
    assert_eq!(r.headers[1].0, "Content-Length");
    assert_eq!(r.headers[1].1, "100");
    assert_eq!(r.headers[2].0, "Content-Range");
    assert_eq!(r.headers[2].1, "bytes 0-99/1000");
    assert_eq!(r.body, data[0..100].to_vec());
}

#[test]
fn test_range_not_satisfiable_pipeline() {
    let data = vec![0u8; 10];
    let r = build_static_file_response_with_mtime(
        &data,
        "text/plain",
        "\"e\"",
        "Thu, 01 Jan 1970 00:00:00 GMT",
        false,
        Some("bytes=50-"),
    );
    assert_eq!(r.status, 416);
    assert_eq!(r.headers[1].1, "bytes */10");
}

#[test]
fn test_full_response_pipeline_head() {
    let data = vec![7u8; 42];
    let r = build_static_file_response_with_mtime(
        &data,
        "text/plain",
        "\"e\"",
        "Thu, 01 Jan 1970 00:00:00 GMT",
        true,
        None,
    );
    assert_eq!(r.status, 200);
    assert_eq!(r.headers[1].1, "42");
    assert!(r.body.is_empty());
}

#[test]
fn test_conditional_mtime_first() {
    // Serving the Last-Modified date back yields a 304 before content is
    // read; the validator comes from the mtime alone.
    let mtime = 1_700_000_000;
    let last_modified = format_http_date(mtime);
    let r = conditional_fast_path(Some(&last_modified), mtime).unwrap();
    assert_eq!(r.status, 304);
    assert!(r.body.is_empty());
    assert_eq!(r.headers[0].0, "ETag");
    // A later client date also matches; an older one does not.
    assert!(conditional_fast_path(Some(&format_http_date(mtime + 60)), mtime).is_some());
    assert!(conditional_fast_path(Some(&format_http_date(mtime - 60)), mtime).is_none());
    assert!(conditional_fast_path(None, mtime).is_none());
}

#[test]
fn test_path_traversal_blocked() {
    // `..` components are stripped before the path ever reaches the root.
    let resolved = resolve_file_path("public", "/static/../etc/passwd", "/static");
    assert!(!resolved.contains(".."));
    assert!(resolved.starts_with("public/"));
    let plain = resolve_file_path("public", "/static/css/site.css", "/static");
    assert_eq!(plain, "public/css/site.css");
}

#[test]
fn test_path_within_root_check() {
    assert!(is_path_within_root("/srv/public", "/srv/public"));
    assert!(is_path_within_root("/srv/public", "/srv/public/css/site.css"));
    assert!(!is_path_within_root("/srv/public", "/etc/passwd"));
    // A sibling directory sharing the prefix string is outside.
    assert!(!is_path_within_root("/srv/public", "/srv/public2/x"));
}

#[test]
fn test_max_connections_admission() {
    // With a cap of two, the first two connections are served and the
    // third is rejected.
    assert!(admit_connection(0, Some(2), true));
    assert!(admit_connection(1, Some(2), true));
    assert!(!admit_connection(2, Some(2), true));
    // The management listener never enforces the cap.
    assert!(admit_connection(2, Some(2), false));
    assert!(admit_connection(99, None, true));
}

#[test]
fn test_connection_deadline() {
    assert_eq!(connection_deadline_secs(30, 40), 40);
    assert_eq!(connection_deadline_secs(50, 40), 50);
    assert!(keep_alive_enabled(75));
    assert!(!keep_alive_enabled(0));
}

#[test]
fn test_plan_reload() {
    let staged = Some(yarhs::config::DynamicServerConfig {
        host: "127.0.0.1".to_string(),
        port: 8081,
        api_host: "127.0.0.1".to_string(),
        api_port: 8000,
    });
    match plan_reload(&staged, false, "127.0.0.1:8080") {
        ReloadDecision::Rebind { new_addr, same_addr } => {
            assert_eq!(new_addr, "127.0.0.1:8081");
            assert!(!same_addr);
        }
        _ => panic!("expected rebind"),
    }
    match plan_reload(&staged, true, "127.0.0.1:8000") {
        ReloadDecision::Rebind { new_addr, same_addr } => {
            assert_eq!(new_addr, "127.0.0.1:8000");
            assert!(same_addr);
        }
        _ => panic!("expected rebind"),
    }
    assert!(matches!(
        plan_reload(&None, false, "x"),
        ReloadDecision::NoStagedConfig
    ));
}

#[test]
fn test_wall_clock_versioning() {
    // A fresh resource is stamped from the wall clock and starts at nonce 1;
    // each update raises the nonce by exactly one whatever the clock reads.
    let mut vr = VersionedResource::new();
    assert_eq!(vr.nonce, 1);
    let (_, n) = vr.increment();
    assert_eq!(n, 2);
    let m = XdsVersionManager::default();
    assert_eq!(m.get_version(ResourceType::Logging).1, 1);
}

#[test]
fn test_version_pairs_increase() {
    let mut vr = VersionedResource::new_at(10);
    assert_eq!(vr.get(), (10, 1));
    let (v1, n1) = vr.increment_at(20);
    let (v2, n2) = vr.increment_at(20);
    let (v3, n3) = vr.increment_at(25);
    assert_eq!((v1, n1), (20, 2));
    assert_eq!((v2, n2), (20, 3));
    assert_eq!((v3, n3), (25, 4));
    // Strictly increasing lexicographically, nonce step exactly one.
    assert!(v1 < v3 && n1 + 1 == n2 && n2 + 1 == n3);
    assert!(v1 == v2 && n1 < n2);
}

#[test]
fn test_compare_and_swap_semantics() {
    let mut m = XdsVersionManager::new_at(5);
    // A stale version string is refused and nothing changes.
    assert_eq!(
        m.compare_and_swap(ResourceType::Http, "4", 9),
        Err((5, 1))
    );
    assert_eq!(m.get_version(ResourceType::Http), (5, 1));
    // The current version in decimal succeeds.
    assert_eq!(m.compare_and_swap(ResourceType::Http, "5", 9), Ok((9, 2)));
    // The empty string always succeeds.
    assert_eq!(m.compare_and_swap(ResourceType::Http, "", 11), Ok((11, 3)));
}

#[test]
fn test_persistent_overlay_sections() {
    let mut state = PersistentState::default();
    assert!(state.server.is_none());
    let base = Config::default();
    state.update_http(yarhs::config::HttpConfig {
        default_content_type: "text/plain".to_string(),
        server_name: "t".to_string(),
        enable_cors: true,
        max_body_size: 5,
    });
    let merged = base.to_dynamic_with_state(state.clone());
    // The overlaid section wins; absent sections come from the base.
    assert_eq!(merged.http.max_body_size, 5);
    assert!(merged.http.enable_cors);
    assert_eq!(merged.performance.keep_alive_timeout, 75);
    assert_eq!(merged.server.port, 8080);
    state.clear();
    assert!(state.http.is_none());
}

#[test]
fn test_state_path_beside_config() {
    assert_eq!(state_path_for("/etc/yarhs/config"), "/etc/yarhs/state.toml");
    assert_eq!(state_path_for("config"), "state.toml");
}

#[test]
fn test_base_defaults() {
    let c = Config::default();
    assert_eq!(c.server.host, "127.0.0.1");
    assert_eq!(c.server.port, 8080);
    assert_eq!(c.server.api_port, 8000);
    assert_eq!(c.logging.level, "info");
    assert!(c.logging.access_log);
    assert_eq!(c.performance.keep_alive_timeout, 75);
    assert_eq!(c.http.max_body_size, 10485760);
    assert_eq!(c.http.server_name, "Tokio-Hyper/1.0");
    assert_eq!(c.routes.health.liveness_path, "/healthz");
}
