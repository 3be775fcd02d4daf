//! The data-plane request router: method and body-size filters, health
//! short-circuit, and the routing decision — which action serves a request.
//!
//! The router decides; performing the decision (reading files, writing the
//! wire) happens outside this crate. A decision either carries a finished
//! response or names the file-serving work left to do.

use vstd::prelude::*;
use crate::config::{RouteAction, RouteHandler, RoutesConfig, VirtualHost};
use crate::numfmt::{spec_parsed_u64, spec_parses_as_u64, parse_u64_dec};
use crate::response::{
    build_405_response, build_404_response, build_health_response, build_options_response,
    build_redirect_response, build_redirect_response_with_code, build_direct_response,
    build_413_response, HttpResponse,
};
use crate::routing::{lemma_chosen_vhost_unique, spec_vhost_catch_all, lemma_first_route_unique, match_route, resolve_virtual_host, spec_chosen_vhost, spec_first_route_match, spec_some_catch_all, spec_some_exact, spec_some_wildcard, spec_strip_port};
use crate::text::{spec_starts_with, str_eq, str_starts_with};

verus! {

/// The request headers the caching and range pipeline needs, extracted from
/// the wire request.
#[derive(Debug, Clone)]
pub struct RequestContext {
    pub path: String,
    pub is_head: bool,
    pub if_none_match: Option<String>,
    pub if_modified_since: Option<String>,
    pub range_header: Option<String>,
}

/// Clamp a microsecond reading to `u64`.
pub fn elapsed_micros(us: u128) -> (r: u64)
    ensures
        us <= u64::MAX ==> r == us,
        us > u64::MAX ==> r == u64::MAX,
{
    if us > u64::MAX as u128 {
        u64::MAX
    } else {
        us as u64
    }
}

/// Filter by method: GET and HEAD pass, OPTIONS gets its 204 (with CORS
/// headers when enabled), anything else a 405.
pub fn check_http_method(method: &str, enable_cors: bool) -> (r: Option<HttpResponse>)
    ensures
        method@ == "GET"@ || method@ == "HEAD"@ ==> r is None,
        method@ == "OPTIONS"@ ==> (r matches Some(resp) && resp.status == 204),
        method@ != "GET"@ && method@ != "HEAD"@ && method@ != "OPTIONS"@ ==> (r matches Some(resp)
            && resp.status == 405),
{
    proof {
        reveal_strlit("GET");
        reveal_strlit("HEAD");
        reveal_strlit("OPTIONS");
    }
    if str_eq(method, "GET") || str_eq(method, "HEAD") {
        proof {
            assert("GET"@.len() == 3);
            assert("OPTIONS"@.len() == 7);
            assert(method@ != "OPTIONS"@);
        }
        None
    } else if str_eq(method, "OPTIONS") {
        Some(build_options_response(enable_cors))
    } else {
        Some(build_405_response())
    }
}

/// Filter by declared body size: a numeric `Content-Length` above the limit
/// gets a 413; a missing or non-numeric one passes (the check is skipped).
pub fn check_body_size(content_length: Option<&str>, max_body_size: u64) -> (r: Option<
    HttpResponse,
>)
    ensures
        r is Some <==> (content_length matches Some(h) && spec_parses_as_u64(h@) && spec_parsed_u64(
            h@,
        ) > max_body_size),
        r matches Some(resp) ==> resp.status == 413,
{
    let h = match content_length {
        Some(h) => h,
        None => {
            return None;
        },
    };
    match parse_u64_dec(h) {
        Some(size) => if size > max_body_size {
            Some(build_413_response())
        } else {
            None
        },
        None => None,
    }
}

/// What the router decided for a request: a finished response, or the file
/// work that remains.
#[derive(Debug)]
pub enum RouteDecision {
    /// Reply with this response as it stands.
    Respond(HttpResponse),
    /// Serve from a directory under the route prefix, trying the given
    /// index files.
    ServeDir { dir: String, route_prefix: String, index_files: Vec<String> },
    /// Serve one literal file.
    ServeFile { path: String },
    /// Serve the configured favicon.
    ServeFavicon,
    /// Serve the default homepage.
    ServeHomepage,
}

/// Whether the path hits an enabled health probe.
pub open spec fn spec_health_hit(routes: RoutesConfig, path: Seq<char>) -> bool {
    routes.health.enabled && (path == routes.health.liveness_path@ || path
        == routes.health.readiness_path@)
}

/// Whether the path is one of the configured favicon paths.
pub open spec fn spec_favicon_hit(routes: RoutesConfig, path: Seq<char>) -> bool {
    exists|i: int| 0 <= i < routes.favicon_paths@.len() && #[trigger] routes.favicon_paths@[i]@
        == path
}

/// Whether some custom route key equals the path exactly.
pub open spec fn spec_some_exact_custom(entries: Seq<(String, RouteHandler)>, path: Seq<char>) -> bool {
    exists|i: int| 0 <= i < entries.len() && #[trigger] entries[i].0@ == path
}

/// Whether some custom route key is a prefix of the path.
pub open spec fn spec_some_prefix_custom(entries: Seq<(String, RouteHandler)>, path: Seq<char>) -> bool {
    exists|i: int| 0 <= i < entries.len() && spec_starts_with(path, #[trigger] entries[i].0@)
}

/// Whether `i` is the first custom route whose key equals the path.
pub open spec fn spec_first_exact_custom(entries: Seq<(String, RouteHandler)>, path: Seq<char>, i: int) -> bool {
    0 <= i < entries.len() && entries[i].0@ == path && forall|j: int|
        0 <= j < i ==> #[trigger] entries[j].0@ != path
}

/// Whether `i` is the first custom route whose key is a prefix of the path.
pub open spec fn spec_first_prefix_custom(entries: Seq<(String, RouteHandler)>, path: Seq<char>, i: int) -> bool {
    0 <= i < entries.len() && spec_starts_with(path, entries[i].0@) && forall|j: int|
        0 <= j < i ==> !spec_starts_with(path, #[trigger] entries[j].0@)
}

/// The decision a legacy handler stands for: a directory under the route
/// prefix, a literal file, or an already-built redirect.
pub open spec fn spec_dispatch_matches(
    r: RouteDecision,
    handler: RouteHandler,
    route_prefix: Seq<char>,
    index_files: Seq<String>,
) -> bool {
    match handler {
        RouteHandler::Dir { path } => {
            &&& r matches RouteDecision::ServeDir { dir, route_prefix: rp, index_files: ixf }
            &&& dir@ == path@
            &&& rp@ == route_prefix
            &&& ixf@ == index_files
        },
        RouteHandler::File { path } => {
            &&& r matches RouteDecision::ServeFile { path: p }
            &&& p@ == path@
        },
        RouteHandler::Redirect { target } => {
            &&& r matches RouteDecision::Respond(resp)
            &&& resp.status == 302
            &&& resp.headers@.len() >= 1
            &&& resp.headers@[0].0@ == "Location"@
            &&& resp.headers@[0].1@ == target@
        },
    }
}

/// The decision a matched legacy handler stands for.
pub fn dispatch_route_handler(handler: &RouteHandler, route_prefix: &str, index_files: &Vec<String>) -> (r:
    RouteDecision)
    ensures
        spec_dispatch_matches(r, *handler, route_prefix@, index_files@),
{
    match handler {
        RouteHandler::Dir { path } => RouteDecision::ServeDir {
            dir: path.clone(),
            route_prefix: route_prefix.to_owned(),
            index_files: index_files.clone(),
        },
        RouteHandler::File { path } => RouteDecision::ServeFile { path: path.clone() },
        RouteHandler::Redirect { target } => RouteDecision::Respond(
            build_redirect_response(target.as_str()),
        ),
    }
}

/// The decision an xDS action stands for.
pub open spec fn spec_action_matches(
    r: RouteDecision,
    action: RouteAction,
    route_prefix: Seq<char>,
    index_files: Seq<String>,
) -> bool {
    match action {
        RouteAction::Dir { path } => {
            &&& r matches RouteDecision::ServeDir { dir, route_prefix: rp, index_files: ixf }
            &&& dir@ == path@
            &&& rp@ == route_prefix
            &&& ixf@ == index_files
        },
        RouteAction::File { path } => {
            &&& r matches RouteDecision::ServeFile { path: p }
            &&& p@ == path@
        },
        RouteAction::Redirect { target, code } => {
            &&& r matches RouteDecision::Respond(resp)
            &&& resp.status == code
            &&& resp.headers@.len() >= 1
            &&& resp.headers@[0].0@ == "Location"@
            &&& resp.headers@[0].1@ == target@
        },
        RouteAction::Direct { status, body, content_type } => {
            &&& r matches RouteDecision::Respond(resp)
            &&& resp.status == status
        },
    }
}

/// The index files a resolved virtual host serves with: its own override,
/// or the legacy table's.
pub open spec fn spec_vhost_index_files(v: VirtualHost, legacy: RoutesConfig) -> Seq<String> {
    match v.index_files {
        Some(f) => f@,
        None => legacy.index_files@,
    }
}

/// Whether no route in the list matches the request.
pub open spec fn spec_no_route_matches(
    routes: Seq<crate::config::Route>,
    path: Seq<char>,
    headers: Option<&[(&str, &str)]>,
) -> bool {
    forall|k: int|
        0 <= k < routes.len() ==> !crate::routing::spec_matches_route_rule(
            #[trigger] routes[k].match_rule,
            path,
            headers,
        )
}

/// The decision a matched xDS action stands for.
pub fn dispatch_route_action(action: &RouteAction, route_prefix: &str, index_files: &Vec<String>) -> (r:
    RouteDecision)
    ensures
        spec_action_matches(r, *action, route_prefix@, index_files@),
{
    match action {
        RouteAction::Dir { path } => RouteDecision::ServeDir {
            dir: path.clone(),
            route_prefix: route_prefix.to_owned(),
            index_files: index_files.clone(),
        },
        RouteAction::File { path } => RouteDecision::ServeFile { path: path.clone() },
        RouteAction::Redirect { target, code } => RouteDecision::Respond(
            build_redirect_response_with_code(target.as_str(), *code),
        ),
        RouteAction::Direct { status, body, content_type } => {
            let b = match body {
                Some(b) => Some(b.as_str()),
                None => None,
            };
            let ct = match content_type {
                Some(ct) => Some(ct.as_str()),
                None => None,
            };
            RouteDecision::Respond(build_direct_response(*status, b, ct))
        },
    }
}

/// Route a request through the legacy table: health probes first, then
/// favicon paths, then custom routes — an exact key match anywhere in the
/// table beats a prefix match — and finally the homepage.
pub fn route_request(path: &str, routes: &RoutesConfig) -> (r: RouteDecision)
    ensures
        spec_health_hit(*routes, path@) ==> (r matches RouteDecision::Respond(resp) && resp.status
            == 200 && resp.body@ == vstd::utf8::encode_utf8("ok"@)),
        !spec_health_hit(*routes, path@) && spec_favicon_hit(*routes, path@) ==> r
            is ServeFavicon,
        !spec_health_hit(*routes, path@) && !spec_favicon_hit(*routes, path@)
            && !spec_some_exact_custom(routes.custom_routes@, path@) && !spec_some_prefix_custom(
            routes.custom_routes@,
            path@,
        ) ==> r is ServeHomepage,
        forall|i: int|
            !spec_health_hit(*routes, path@) && !spec_favicon_hit(*routes, path@)
                && #[trigger] spec_first_exact_custom(routes.custom_routes@, path@, i)
                ==> spec_dispatch_matches(
                r,
                routes.custom_routes@[i].1,
                routes.custom_routes@[i].0@,
                routes.index_files@,
            ),
        forall|i: int|
            !spec_health_hit(*routes, path@) && !spec_favicon_hit(*routes, path@)
                && !spec_some_exact_custom(routes.custom_routes@, path@)
                && #[trigger] spec_first_prefix_custom(routes.custom_routes@, path@, i)
                ==> spec_dispatch_matches(
                r,
                routes.custom_routes@[i].1,
                routes.custom_routes@[i].0@,
                routes.index_files@,
            ),
{
    if routes.health.enabled {
        if str_eq(path, routes.health.liveness_path.as_str()) || str_eq(
            path,
            routes.health.readiness_path.as_str(),
        ) {
            return RouteDecision::Respond(build_health_response("ok"));
        }
    }
    route_request_no_health(path, routes)
}

/// Route a request through the virtual-host table: health probes first,
/// then the resolved virtual host's routes in declared order; a host with
/// no matching virtual host falls back to the legacy table, a resolved
/// host with no matching route gets a 404.
pub fn route_with_vhosts(
    path: &str,
    host: &str,
    virtual_hosts: &Vec<VirtualHost>,
    legacy_routes: &RoutesConfig,
) -> (r: RouteDecision)
    ensures
        spec_health_hit(*legacy_routes, path@) ==> (r matches RouteDecision::Respond(resp)
            && resp.status == 200 && resp.body@ == vstd::utf8::encode_utf8("ok"@)),
        !spec_health_hit(*legacy_routes, path@) && !spec_some_exact(
            virtual_hosts@,
            spec_strip_port(host@),
        ) && !spec_some_wildcard(virtual_hosts@, spec_strip_port(host@)) && !spec_some_catch_all(
            virtual_hosts@,
        ) && !spec_favicon_hit(*legacy_routes, path@) && !spec_some_exact_custom(
            legacy_routes.custom_routes@,
            path@,
        ) && !spec_some_prefix_custom(legacy_routes.custom_routes@, path@) ==> r
            is ServeHomepage,
        forall|i: int|
            !spec_health_hit(*legacy_routes, path@) && #[trigger] spec_chosen_vhost(
                virtual_hosts@,
                spec_strip_port(host@),
                i,
            ) && spec_no_route_matches(virtual_hosts@[i].routes@, path@, None) ==> (r
                matches RouteDecision::Respond(resp) && resp.status == 404),
        forall|i: int, j: int|
            !spec_health_hit(*legacy_routes, path@) && #[trigger] spec_chosen_vhost(
                virtual_hosts@,
                spec_strip_port(host@),
                i,
            ) && #[trigger] spec_first_route_match(virtual_hosts@[i].routes@, path@, None, j)
                ==> spec_action_matches(
                r,
                virtual_hosts@[i].routes@[j].action,
                path@,
                spec_vhost_index_files(virtual_hosts@[i], *legacy_routes),
            ),
{
    if legacy_routes.health.enabled {
        if str_eq(path, legacy_routes.health.liveness_path.as_str()) || str_eq(
            path,
            legacy_routes.health.readiness_path.as_str(),
        ) {
            return RouteDecision::Respond(build_health_response("ok"));
        }
    }
    let vhost_index = match resolve_virtual_host(host, virtual_hosts.as_slice()) {
        Some(i) => i,
        None => {
            proof {
                assert(forall|i: int|
                    0 <= i < virtual_hosts@.len() ==> !spec_vhost_catch_all(
                        #[trigger] virtual_hosts@[i],
                    ));
            }
            return route_request_no_health(path, legacy_routes);
        },
    };
    let ghost i0 = vhost_index as int;
    let ghost h = spec_strip_port(host@);
    proof {
        assert forall|i: int| spec_chosen_vhost(virtual_hosts@, h, i) implies i == i0 by {
            lemma_chosen_vhost_unique(virtual_hosts@, h, i, i0);
        }
    }
    let vhost = &virtual_hosts[vhost_index];
    let index_files = match &vhost.index_files {
        Some(f) => f,
        None => &legacy_routes.index_files,
    };
    match match_route(path, None, vhost.routes.as_slice()) {
        Some(route_index) => {
            let ghost j0 = route_index as int;
            proof {
                assert(spec_first_route_match(virtual_hosts@[i0].routes@, path@, None, j0));
                assert forall|j: int|
                    spec_first_route_match(virtual_hosts@[i0].routes@, path@, None, j) implies j
                    == j0 by {
                    lemma_first_route_unique(virtual_hosts@[i0].routes@, path@, None, j, j0);
                }
            }
            dispatch_route_action(&vhost.routes[route_index].action, path, index_files)
        },
        None => RouteDecision::Respond(build_404_response()),
    }
}

/// The legacy table without the health short-circuit, for the virtual-host
/// fallback (health was already checked).
fn route_request_no_health(path: &str, routes: &RoutesConfig) -> (r: RouteDecision)
    ensures
        spec_favicon_hit(*routes, path@) ==> r is ServeFavicon,
        !spec_favicon_hit(*routes, path@) && !spec_some_exact_custom(routes.custom_routes@, path@)
            && !spec_some_prefix_custom(routes.custom_routes@, path@) ==> r is ServeHomepage,
        forall|i: int|
            !spec_favicon_hit(*routes, path@) && #[trigger] spec_first_exact_custom(
                routes.custom_routes@,
                path@,
                i,
            ) ==> spec_dispatch_matches(
                r,
                routes.custom_routes@[i].1,
                routes.custom_routes@[i].0@,
                routes.index_files@,
            ),
        forall|i: int|
            !spec_favicon_hit(*routes, path@) && !spec_some_exact_custom(
                routes.custom_routes@,
                path@,
            ) && #[trigger] spec_first_prefix_custom(routes.custom_routes@, path@, i)
                ==> spec_dispatch_matches(
                r,
                routes.custom_routes@[i].1,
                routes.custom_routes@[i].0@,
                routes.index_files@,
            ),
{
    let nfav = routes.favicon_paths.len();
    let mut i: usize = 0;
    while i < nfav
        invariant
            0 <= i <= nfav,
            nfav == routes.favicon_paths@.len(),
            forall|j: int| 0 <= j < i ==> #[trigger] routes.favicon_paths@[j]@ != path@,
        decreases nfav - i,
    {
        if str_eq(path, routes.favicon_paths[i].as_str()) {
            return RouteDecision::ServeFavicon;
        }
        i += 1;
    }
    let ghost no_favicon = !spec_favicon_hit(*routes, path@);
    let n = routes.custom_routes.len();
    let mut i: usize = 0;
    while i < n
        invariant
            0 <= i <= n,
            n == routes.custom_routes@.len(),
            no_favicon,
            no_favicon == !spec_favicon_hit(*routes, path@),
            forall|j: int| 0 <= j < i ==> #[trigger] routes.custom_routes@[j].0@ != path@,
        decreases n - i,
    {
        if str_eq(path, routes.custom_routes[i].0.as_str()) {
            let ghost k = i as int;
            let ghost ents = routes.custom_routes@;
            proof {
                assert forall|m: int| spec_first_exact_custom(ents, path@, m) implies m == k by {
                    if m < k {
                        assert(ents[m].0@ != path@);
                    } else if m > k {
                        assert(ents[k].0@ == path@);
                    }
                }
            }
            return dispatch_route_handler(
                &routes.custom_routes[i].1,
                routes.custom_routes[i].0.as_str(),
                &routes.index_files,
            );
        }
        i += 1;
    }
    let ghost no_exact = !spec_some_exact_custom(routes.custom_routes@, path@);
    let mut i: usize = 0;
    while i < n
        invariant
            0 <= i <= n,
            n == routes.custom_routes@.len(),
            no_favicon,
            no_exact,
            no_favicon == !spec_favicon_hit(*routes, path@),
            no_exact == !spec_some_exact_custom(routes.custom_routes@, path@),
            forall|j: int|
                0 <= j < i ==> !spec_starts_with(path@, #[trigger] routes.custom_routes@[j].0@),
        decreases n - i,
    {
        if str_starts_with(path, routes.custom_routes[i].0.as_str()) {
            let ghost k = i as int;
            let ghost ents = routes.custom_routes@;
            proof {
                assert forall|m: int| spec_first_prefix_custom(ents, path@, m) implies m == k by {
                    if m < k {
                        assert(!spec_starts_with(path@, ents[m].0@));
                    } else if m > k {
                        assert(spec_starts_with(path@, ents[k].0@));
                    }
                }
            }
            return dispatch_route_handler(
                &routes.custom_routes[i].1,
                routes.custom_routes[i].0.as_str(),
                &routes.index_files,
            );
        }
        i += 1;
    }
    RouteDecision::ServeHomepage
}

} // verus!
