//! Discovery API decisions: endpoint dispatch, optimistic concurrency,
//! listener reload effects, and the exact ACK/NACK bodies.

use yarhs::api::{
    api_route, bad_request, conflict_response, handle_discovery_post, not_found, overall_version,
    update_listener, ApiRoute, ListenerEffects, ResourceUpdate, UpdateRequest,
};
use yarhs::config::{Config, DynamicConfig, HttpConfig};
use yarhs::version::{ResourceType, VersionedResource, XdsVersionManager};

fn base_dynamic() -> DynamicConfig {
    Config::default().to_dynamic()
}

fn http_update() -> ResourceUpdate {
    ResourceUpdate::Http(HttpConfig {
        default_content_type: "x".to_string(),
        server_name: "y".to_string(),
        enable_cors: false,
        max_body_size: 1,
    })
}

#[test]
fn test_api_route_dispatch() {
    assert_eq!(api_route("GET", "/v1/discovery"), ApiRoute::Snapshot);
    assert_eq!(api_route("GET", "/"), ApiRoute::Dashboard);
    assert_eq!(api_route("GET", "/dashboard"), ApiRoute::Dashboard);
    assert_eq!(
        api_route("GET", "/v1/discovery:listeners"),
        ApiRoute::DiscoveryGet(ResourceType::Listener)
    );
    assert_eq!(
        api_route("POST", "/v1/discovery:http"),
        ApiRoute::DiscoveryPost(ResourceType::Http)
    );
    assert_eq!(
        api_route("POST", "/v1/discovery:vhosts"),
        ApiRoute::DiscoveryPost(ResourceType::VirtualHost)
    );
    assert_eq!(api_route("GET", "/v1/state"), ApiRoute::StateGet);
    assert_eq!(api_route("DELETE", "/v1/state"), ApiRoute::StateClear);
    assert_eq!(api_route("PUT", "/v1/discovery:http"), ApiRoute::NotFound);
    assert_eq!(api_route("GET", "/nope"), ApiRoute::NotFound);
}

#[test]
fn test_cas_conflict_nack_body() {
    // Applying with version_info "0" while the current version is 5 must
    // answer 409 with the exact NACK body.
    let mut versions = XdsVersionManager::new_at(5);
    let mut config = base_dynamic();
    let parsed = Ok(UpdateRequest {
        version_info: "0".to_string(),
        resource: Some(http_update()),
        force_restart: false,
    });
    let (resp, effects) =
        handle_discovery_post(&mut versions, &mut config, ResourceType::Http, parsed, 99);
    assert_eq!(resp.status, 409);
    let body = String::from_utf8(resp.body).unwrap();
    assert_eq!(
        body,
        "{\"status\":\"NACK\",\"error_detail\":{\"code\":409,\"message\":\"Version conflict: expected 5, got 0\"}}"
    );
    // Nothing changed, nothing staged.
    assert_eq!(versions.get_version(ResourceType::Http), (5, 1));
    assert!(effects.staged.is_none());
    assert!(!effects.notify_main && !effects.notify_api);
}

#[test]
fn test_cas_matching_version_acks() {
    let mut versions = XdsVersionManager::new_at(5);
    let mut config = base_dynamic();
    let parsed = Ok(UpdateRequest {
        version_info: "5".to_string(),
        resource: Some(http_update()),
        force_restart: false,
    });
    let (resp, _) =
        handle_discovery_post(&mut versions, &mut config, ResourceType::Http, parsed, 42);
    assert_eq!(resp.status, 200);
    let body = String::from_utf8(resp.body).unwrap();
    assert_eq!(
        body,
        "{\"status\":\"ACK\",\"version_info\":\"42\",\"nonce\":\"2\",\"message\":\"HTTP config updated\"}"
    );
    assert_eq!(versions.get_version(ResourceType::Http), (42, 2));
    assert_eq!(config.http.max_body_size, 1);
    // Other kinds are untouched.
    assert_eq!(versions.get_version(ResourceType::Route), (5, 1));
}

#[test]
fn test_empty_version_info_skips_check() {
    let mut versions = XdsVersionManager::new_at(5);
    let mut config = base_dynamic();
    let parsed = Ok(UpdateRequest {
        version_info: "".to_string(),
        resource: Some(http_update()),
        force_restart: false,
    });
    let (resp, _) =
        handle_discovery_post(&mut versions, &mut config, ResourceType::Http, parsed, 7);
    assert_eq!(resp.status, 200);
}

#[test]
fn test_empty_resources_rejected() {
    let mut versions = XdsVersionManager::new_at(5);
    let mut config = base_dynamic();
    let parsed = Ok(UpdateRequest {
        version_info: "".to_string(),
        resource: None,
        force_restart: false,
    });
    let (resp, _) =
        handle_discovery_post(&mut versions, &mut config, ResourceType::Http, parsed, 7);
    assert_eq!(resp.status, 400);
    let body = String::from_utf8(resp.body).unwrap();
    assert_eq!(
        body,
        "{\"status\":\"NACK\",\"error_detail\":{\"code\":400,\"message\":\"No resources provided\"}}"
    );
    assert_eq!(versions.get_version(ResourceType::Http), (5, 1));
}

#[test]
fn test_parse_failure_rejected() {
    let mut versions = XdsVersionManager::new_at(5);
    let mut config = base_dynamic();
    let parsed: Result<UpdateRequest, String> = Err("Invalid JSON: oops".to_string());
    let (resp, _) =
        handle_discovery_post(&mut versions, &mut config, ResourceType::Http, parsed, 7);
    assert_eq!(resp.status, 400);
    let body = String::from_utf8(resp.body).unwrap();
    assert!(body.contains("Invalid JSON: oops"));
    assert!(body.contains("\"NACK\""));
}

#[test]
fn test_listener_reload_address_changed() {
    // Changing the data-plane port stages the new endpoints and wakes only
    // the data-plane accept loop.
    let mut versions = XdsVersionManager::new_at(5);
    let mut config = base_dynamic();
    let parsed = Ok(UpdateRequest {
        version_info: "".to_string(),
        resource: Some(ResourceUpdate::Listener {
            main: Some(("127.0.0.1".to_string(), 8081)),
            api: None,
        }),
        force_restart: false,
    });
    let (resp, effects) =
        handle_discovery_post(&mut versions, &mut config, ResourceType::Listener, parsed, 9);
    assert_eq!(resp.status, 200);
    let body = String::from_utf8(resp.body).unwrap();
    assert!(body.contains("Listener updated, restarting: main_server"));
    assert_eq!(config.server.port, 8081);
    assert!(effects.notify_main);
    assert!(!effects.notify_api);
    let staged = effects.staged.unwrap();
    assert_eq!(staged.port, 8081);
    assert_eq!(staged.host, "127.0.0.1");
}

#[test]
fn test_listener_force_restart_same_address() {
    // Same endpoints with force_restart stage a reload of both listeners.
    let mut versions = XdsVersionManager::new_at(5);
    let mut config = base_dynamic();
    let parsed = Ok(UpdateRequest {
        version_info: "".to_string(),
        resource: Some(ResourceUpdate::Listener {
            main: Some(("127.0.0.1".to_string(), 8080)),
            api: None,
        }),
        force_restart: true,
    });
    let (resp, effects) =
        handle_discovery_post(&mut versions, &mut config, ResourceType::Listener, parsed, 9);
    assert_eq!(resp.status, 200);
    let body = String::from_utf8(resp.body).unwrap();
    assert!(body.contains("Listener updated, restarting: forced"));
    assert!(effects.notify_main);
    assert!(effects.notify_api);
    assert!(effects.staged.is_some());
}

#[test]
fn test_listener_unchanged_without_force() {
    let mut versions = XdsVersionManager::new_at(5);
    let mut config = base_dynamic();
    let parsed = Ok(UpdateRequest {
        version_info: "".to_string(),
        resource: Some(ResourceUpdate::Listener {
            main: Some(("127.0.0.1".to_string(), 8080)),
            api: None,
        }),
        force_restart: false,
    });
    let (resp, effects) =
        handle_discovery_post(&mut versions, &mut config, ResourceType::Listener, parsed, 9);
    assert_eq!(resp.status, 200);
    let body = String::from_utf8(resp.body).unwrap();
    assert!(body.contains("Listener config unchanged"));
    assert!(effects.staged.is_none());
    assert!(!effects.notify_main && !effects.notify_api);
}

#[test]
fn test_update_listener_both_changed_message() {
    let mut server = base_dynamic().server;
    let (mc, ac, msg) = update_listener(
        &mut server,
        Some(("0.0.0.0".to_string(), 80)),
        Some(("0.0.0.0".to_string(), 81)),
        false,
    );
    assert!(mc && ac);
    assert_eq!(msg, "Listener updated, restarting: main_server, api_server");
    assert_eq!(server.host, "0.0.0.0");
    assert_eq!(server.api_port, 81);
}

#[test]
fn test_error_response_builders() {
    let r = bad_request("nope");
    assert_eq!(r.status, 400);
    assert_eq!(r.headers[0].0, "Content-Type");
    assert_eq!(r.headers[0].1, "application/json");
    let r = conflict_response("later");
    assert_eq!(r.status, 409);
    let r = not_found();
    assert_eq!(r.status, 404);
    let body = String::from_utf8(r.body).unwrap();
    assert!(body.contains("/v1/discovery"));
}

#[test]
fn test_overall_version_is_max() {
    let mut versions = XdsVersionManager::new_at(3);
    versions.increment_at(ResourceType::Logging, 11);
    versions.increment_at(ResourceType::Route, 7);
    assert_eq!(overall_version(&versions), 11);
}

#[test]
fn test_effects_default_shape() {
    let e = ListenerEffects {
        staged: None,
        notify_main: false,
        notify_api: false,
    };
    assert!(e.staged.is_none());
    let _ = VersionedResource::new_at(1);
}
