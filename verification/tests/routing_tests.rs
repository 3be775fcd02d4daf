//! Route matching and virtual-host resolution.

use yarhs::config::{HeaderMatcher, Route, RouteAction, RouteMatch, VirtualHost};
use yarhs::routing::{match_domain, match_headers, match_path, match_route, resolve_virtual_host};

fn make_route(prefix: Option<&str>, path: Option<&str>) -> Route {
    Route {
        name: None,
        match_rule: RouteMatch {
            prefix: prefix.map(String::from),
            path: path.map(String::from),
            headers: None,
        },
        action: RouteAction::Direct {
            status: 200,
            body: None,
            content_type: None,
        },
    }
}

#[test]
fn test_match_path_exact() {
    let rule = RouteMatch {
        path: Some("/about".to_string()),
        prefix: None,
        headers: None,
    };
    assert!(match_path(&rule, "/about"));
    assert!(!match_path(&rule, "/about/"));
    assert!(!match_path(&rule, "/about/team"));
}

#[test]
fn test_match_path_prefix() {
    let rule = RouteMatch {
        path: None,
        prefix: Some("/api".to_string()),
        headers: None,
    };
    assert!(match_path(&rule, "/api"));
    assert!(match_path(&rule, "/api/users"));
    assert!(match_path(&rule, "/api/v1/users"));
    assert!(!match_path(&rule, "/about"));
}

#[test]
fn test_match_path_no_rule() {
    let rule = RouteMatch {
        path: None,
        prefix: None,
        headers: None,
    };
    assert!(match_path(&rule, "/anything"));
}

#[test]
fn test_match_route_order() {
    let routes = vec![
        make_route(Some("/api/v1"), None),
        make_route(Some("/api"), None),
        make_route(None, None), // catch-all
    ];

    // Should match the first applicable route in order.
    let result = match_route("/api/v1/users", None, &routes);
    assert!(result.is_some());
    assert_eq!(
        routes[result.unwrap()].match_rule.prefix,
        Some("/api/v1".to_string())
    );

    let result = match_route("/api/v2/users", None, &routes);
    assert!(result.is_some());
    assert_eq!(
        routes[result.unwrap()].match_rule.prefix,
        Some("/api".to_string())
    );
}

#[test]
fn test_match_headers() {
    let matchers = vec![HeaderMatcher {
        name: "X-Api-Key".to_string(),
        exact: Some("secret".to_string()),
        prefix: None,
        present: None,
    }];

    let headers = vec![("X-Api-Key", "secret")];
    assert!(match_headers(&matchers, Some(&headers)));

    let headers = vec![("X-Api-Key", "wrong")];
    assert!(!match_headers(&matchers, Some(&headers)));

    assert!(!match_headers(&matchers, None));
}

#[test]
fn test_match_header_present() {
    let matchers = vec![HeaderMatcher {
        name: "Authorization".to_string(),
        exact: None,
        prefix: None,
        present: Some(true),
    }];

    let headers = vec![("Authorization", "Bearer token")];
    assert!(match_headers(&matchers, Some(&headers)));

    let headers: Vec<(&str, &str)> = vec![];
    assert!(!match_headers(&matchers, Some(&headers)));
}

#[test]
fn test_match_domain_exact() {
    assert!(match_domain("api.example.com", "api.example.com"));
    assert!(!match_domain("api.example.com", "www.example.com"));
}

#[test]
fn test_match_domain_wildcard() {
    assert!(match_domain("*.example.com", "api.example.com"));
    assert!(match_domain("*.example.com", "www.example.com"));
    assert!(match_domain("*.example.com", "example.com"));
    assert!(!match_domain("*.example.com", "api.other.com"));
}

#[test]
fn test_match_domain_catch_all() {
    assert!(match_domain("*", "anything.com"));
    assert!(match_domain("*", "api.example.com"));
}

#[test]
fn test_match_domain_with_port() {
    assert!(match_domain("example.com", "example.com:8080"));
    assert!(match_domain("*.example.com", "api.example.com:8080"));
}

fn priority_vhosts() -> Vec<VirtualHost> {
    vec![
        VirtualHost {
            name: "catch-all".to_string(),
            domains: vec!["*".to_string()],
            routes: vec![],
            index_files: None,
        },
        VirtualHost {
            name: "wildcard".to_string(),
            domains: vec!["*.example.com".to_string()],
            routes: vec![],
            index_files: None,
        },
        VirtualHost {
            name: "exact".to_string(),
            domains: vec!["api.example.com".to_string()],
            routes: vec![],
            index_files: None,
        },
    ]
}

#[test]
fn test_resolve_virtual_host_priority() {
    let vhosts = priority_vhosts();

    // Exact match takes priority.
    let result = resolve_virtual_host("api.example.com", &vhosts);
    assert_eq!(vhosts[result.unwrap()].name, "exact");

    // Wildcard matches when no exact.
    let result = resolve_virtual_host("www.example.com", &vhosts);
    assert_eq!(vhosts[result.unwrap()].name, "wildcard");

    // Catch-all for unknown hosts.
    let result = resolve_virtual_host("other.com", &vhosts);
    assert_eq!(vhosts[result.unwrap()].name, "catch-all");
}

#[test]
fn test_vhost_precedence_independent_of_order() {
    // The same three hosts in the reverse order resolve identically.
    let mut vhosts = priority_vhosts();
    vhosts.reverse();

    let result = resolve_virtual_host("api.example.com", &vhosts);
    assert_eq!(vhosts[result.unwrap()].name, "exact");
    let result = resolve_virtual_host("www.example.com", &vhosts);
    assert_eq!(vhosts[result.unwrap()].name, "wildcard");
    let result = resolve_virtual_host("other.com", &vhosts);
    assert_eq!(vhosts[result.unwrap()].name, "catch-all");
    assert!(resolve_virtual_host("other.com", &Vec::new()).is_none());
}
