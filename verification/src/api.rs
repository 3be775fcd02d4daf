//! The discovery API's decision logic: endpoint dispatch, the
//! optimistic-concurrency update of each resource kind, and the exact ACK /
//! NACK bodies.
//!
//! Reading the request body and serializing the GET snapshots is wire work
//! outside this crate; what arrives here are plain parsed values, and what
//! leaves is a response description plus the listener reload effects the
//! caller must carry out.

use vstd::prelude::*;
use crate::config::{
    DynamicConfig, DynamicPerformanceConfig, DynamicServerConfig, HttpConfig, LoggingConfig,
    RoutesConfig, VirtualHost,
};
use crate::logfmt::{escape_json, spec_escape_json};
use crate::numfmt::{spec_dec, u64_to_dec};
use crate::response::{spec_header_is, HttpResponse};
use crate::text::str_eq;
use crate::version::{ResourceType, XdsVersionManager};

verus! {

/// Where an API request is routed.
#[derive(Debug, Clone, Copy, PartialEq, Eq, Structural)]
pub enum ApiRoute {
    /// `GET /` or `GET /dashboard`.
    Dashboard,
    /// `GET /v1/discovery`.
    Snapshot,
    /// `GET /v1/discovery:<kind>`.
    DiscoveryGet(ResourceType),
    /// `POST /v1/discovery:<kind>`.
    DiscoveryPost(ResourceType),
    /// `GET /v1/state`.
    StateGet,
    /// `DELETE /v1/state`.
    StateClear,
    /// Anything else.
    NotFound,
}

/// The endpoint an API method and path name.
pub open spec fn spec_api_route(method: Seq<char>, path: Seq<char>) -> ApiRoute {
    if method == "GET"@ && (path == "/"@ || path == "/dashboard"@) {
        ApiRoute::Dashboard
    } else if method == "GET"@ && path == "/v1/discovery"@ {
        ApiRoute::Snapshot
    } else if path == "/v1/discovery:listeners"@ && method == "GET"@ {
        ApiRoute::DiscoveryGet(ResourceType::Listener)
    } else if path == "/v1/discovery:listeners"@ && method == "POST"@ {
        ApiRoute::DiscoveryPost(ResourceType::Listener)
    } else if path == "/v1/discovery:routes"@ && method == "GET"@ {
        ApiRoute::DiscoveryGet(ResourceType::Route)
    } else if path == "/v1/discovery:routes"@ && method == "POST"@ {
        ApiRoute::DiscoveryPost(ResourceType::Route)
    } else if path == "/v1/discovery:http"@ && method == "GET"@ {
        ApiRoute::DiscoveryGet(ResourceType::Http)
    } else if path == "/v1/discovery:http"@ && method == "POST"@ {
        ApiRoute::DiscoveryPost(ResourceType::Http)
    } else if path == "/v1/discovery:logging"@ && method == "GET"@ {
        ApiRoute::DiscoveryGet(ResourceType::Logging)
    } else if path == "/v1/discovery:logging"@ && method == "POST"@ {
        ApiRoute::DiscoveryPost(ResourceType::Logging)
    } else if path == "/v1/discovery:performance"@ && method == "GET"@ {
        ApiRoute::DiscoveryGet(ResourceType::Performance)
    } else if path == "/v1/discovery:performance"@ && method == "POST"@ {
        ApiRoute::DiscoveryPost(ResourceType::Performance)
    } else if path == "/v1/discovery:vhosts"@ && method == "GET"@ {
        ApiRoute::DiscoveryGet(ResourceType::VirtualHost)
    } else if path == "/v1/discovery:vhosts"@ && method == "POST"@ {
        ApiRoute::DiscoveryPost(ResourceType::VirtualHost)
    } else if path == "/v1/state"@ && method == "GET"@ {
        ApiRoute::StateGet
    } else if path == "/v1/state"@ && method == "DELETE"@ {
        ApiRoute::StateClear
    } else {
        ApiRoute::NotFound
    }
}

/// Dispatch an API request by method and path.
pub fn api_route(method: &str, path: &str) -> (r: ApiRoute)
    ensures
        r == spec_api_route(method@, path@),
{
    if str_eq(method, "GET") && (str_eq(path, "/") || str_eq(path, "/dashboard")) {
        ApiRoute::Dashboard
    } else if str_eq(method, "GET") && str_eq(path, "/v1/discovery") {
        ApiRoute::Snapshot
    } else if str_eq(path, "/v1/discovery:listeners") && str_eq(method, "GET") {
        ApiRoute::DiscoveryGet(ResourceType::Listener)
    } else if str_eq(path, "/v1/discovery:listeners") && str_eq(method, "POST") {
        ApiRoute::DiscoveryPost(ResourceType::Listener)
    } else if str_eq(path, "/v1/discovery:routes") && str_eq(method, "GET") {
        ApiRoute::DiscoveryGet(ResourceType::Route)
    } else if str_eq(path, "/v1/discovery:routes") && str_eq(method, "POST") {
        ApiRoute::DiscoveryPost(ResourceType::Route)
    } else if str_eq(path, "/v1/discovery:http") && str_eq(method, "GET") {
        ApiRoute::DiscoveryGet(ResourceType::Http)
    } else if str_eq(path, "/v1/discovery:http") && str_eq(method, "POST") {
        ApiRoute::DiscoveryPost(ResourceType::Http)
    } else if str_eq(path, "/v1/discovery:logging") && str_eq(method, "GET") {
        ApiRoute::DiscoveryGet(ResourceType::Logging)
    } else if str_eq(path, "/v1/discovery:logging") && str_eq(method, "POST") {
        ApiRoute::DiscoveryPost(ResourceType::Logging)
    } else if str_eq(path, "/v1/discovery:performance") && str_eq(method, "GET") {
        ApiRoute::DiscoveryGet(ResourceType::Performance)
    } else if str_eq(path, "/v1/discovery:performance") && str_eq(method, "POST") {
        ApiRoute::DiscoveryPost(ResourceType::Performance)
    } else if str_eq(path, "/v1/discovery:vhosts") && str_eq(method, "GET") {
        ApiRoute::DiscoveryGet(ResourceType::VirtualHost)
    } else if str_eq(path, "/v1/discovery:vhosts") && str_eq(method, "POST") {
        ApiRoute::DiscoveryPost(ResourceType::VirtualHost)
    } else if str_eq(path, "/v1/state") && str_eq(method, "GET") {
        ApiRoute::StateGet
    } else if str_eq(path, "/v1/state") && str_eq(method, "DELETE") {
        ApiRoute::StateClear
    } else {
        ApiRoute::NotFound
    }
}

/// The NACK body: `{"status":"NACK","error_detail":{"code":C,"message":"M"}}`.
pub open spec fn spec_nack_body(code: u16, message: Seq<char>) -> Seq<char> {
    "{\"status\":\"NACK\",\"error_detail\":{\"code\":"@ + spec_dec(code as nat)
        + ",\"message\":\""@ + spec_escape_json(message) + "\"}}"@
}

/// The ACK body:
/// `{"status":"ACK","version_info":"V","nonce":"N","message":"M"}`.
pub open spec fn spec_ack_body(version: u64, nonce: u64, message: Seq<char>) -> Seq<char> {
    "{\"status\":\"ACK\",\"version_info\":\""@ + spec_dec(version as nat) + "\",\"nonce\":\""@
        + spec_dec(nonce as nat) + "\",\"message\":\""@ + spec_escape_json(message) + "\"}"@
}

fn nack_body(code: u16, message: &str) -> (r: String)
    ensures
        r@ == spec_nack_body(code, message@),
{
    let mut s = "{\"status\":\"NACK\",\"error_detail\":{\"code\":".to_owned();
    s.append(u64_to_dec(code as u64).as_str());
    s.append(",\"message\":\"");
    s.append(escape_json(message).as_str());
    s.append("\"}}");
    proof {
        assert(s@ =~= spec_nack_body(code, message@));
    }
    s
}

fn ack_body(version: u64, nonce: u64, message: &str) -> (r: String)
    ensures
        r@ == spec_ack_body(version, nonce, message@),
{
    let mut s = "{\"status\":\"ACK\",\"version_info\":\"".to_owned();
    s.append(u64_to_dec(version).as_str());
    s.append("\",\"nonce\":\"");
    s.append(u64_to_dec(nonce).as_str());
    s.append("\",\"message\":\"");
    s.append(escape_json(message).as_str());
    s.append("\"}");
    proof {
        assert(s@ =~= spec_ack_body(version, nonce, message@));
    }
    s
}

fn json_error_response(status: u16, body: String) -> (r: HttpResponse)
    ensures
        r.status == status,
        r.headers@.len() == 1,
        spec_header_is(r.headers@[0], "Content-Type"@, "application/json"@),
        r.body@ == vstd::utf8::encode_utf8(body@),
{
    let mut headers: Vec<(String, String)> = Vec::new();
    headers.push(("Content-Type".to_owned(), "application/json".to_owned()));
    let bytes = body.as_str().as_bytes();
    HttpResponse { status, headers, body: vstd::slice::slice_to_vec(bytes) }
}

/// 400 Bad Request with a NACK body carrying the message.
pub fn bad_request(message: &str) -> (r: HttpResponse)
    ensures
        r.status == 400,
        spec_header_is(r.headers@[0], "Content-Type"@, "application/json"@),
        r.body@ == vstd::utf8::encode_utf8(spec_nack_body(400, message@)),
{
    json_error_response(400, nack_body(400, message))
}

/// 409 Conflict with a NACK body carrying the message.
pub fn conflict_response(message: &str) -> (r: HttpResponse)
    ensures
        r.status == 409,
        spec_header_is(r.headers@[0], "Content-Type"@, "application/json"@),
        r.body@ == vstd::utf8::encode_utf8(spec_nack_body(409, message@)),
{
    json_error_response(409, nack_body(409, message))
}

/// 404 for unknown API paths, listing the available endpoints.
pub fn not_found() -> (r: HttpResponse)
    ensures
        r.status == 404,
        spec_header_is(r.headers@[0], "Content-Type"@, "application/json"@),
        r.body@ == vstd::utf8::encode_utf8(
            "{\"error\":\"Not Found\",\"available_endpoints\":[\"/v1/discovery\",\"/v1/discovery:listeners\",\"/v1/discovery:routes\",\"/v1/discovery:http\",\"/v1/discovery:logging\",\"/v1/discovery:performance\",\"/v1/discovery:vhosts\",\"/v1/state\"]}"@,
        ),
{
    json_error_response(
        404,
        "{\"error\":\"Not Found\",\"available_endpoints\":[\"/v1/discovery\",\"/v1/discovery:listeners\",\"/v1/discovery:routes\",\"/v1/discovery:http\",\"/v1/discovery:logging\",\"/v1/discovery:performance\",\"/v1/discovery:vhosts\",\"/v1/state\"]}".to_owned(),
    )
}

/// The conflict message: `Version conflict: expected <current>, got <sent>`.
pub open spec fn spec_conflict_message(current: u64, got: Seq<char>) -> Seq<char> {
    "Version conflict: expected "@ + spec_dec(current as nat) + ", got "@ + got
}

fn conflict_message(current: u64, got: &str) -> (r: String)
    ensures
        r@ == spec_conflict_message(current, got@),
{
    let mut s = "Version conflict: expected ".to_owned();
    s.append(u64_to_dec(current).as_str());
    s.append(", got ");
    s.append(got);
    proof {
        assert(s@ =~= spec_conflict_message(current, got@));
    }
    s
}

/// The overall snapshot version: the largest per-kind version.
pub fn overall_version(versions: &XdsVersionManager) -> (r: u64)
    ensures
        forall|rt: ResourceType| #[trigger] versions.spec_resource(rt).version <= r,
        exists|rt: ResourceType| #[trigger] versions.spec_resource(rt).version == r,
{
    let mut m = versions.listener.version;
    if versions.route.version > m {
        m = versions.route.version;
    }
    if versions.http.version > m {
        m = versions.http.version;
    }
    if versions.logging.version > m {
        m = versions.logging.version;
    }
    if versions.performance.version > m {
        m = versions.performance.version;
    }
    if versions.virtual_hosts.version > m {
        m = versions.virtual_hosts.version;
    }
    proof {
        assert forall|rt: ResourceType| #[trigger] versions.spec_resource(rt).version <= m by {
            match rt {
                ResourceType::Listener => {},
                ResourceType::Route => {},
                ResourceType::Http => {},
                ResourceType::Logging => {},
                ResourceType::Performance => {},
                ResourceType::VirtualHost => {},
            }
        }
        assert(versions.spec_resource(ResourceType::Listener).version == versions.listener.version);
        assert(versions.spec_resource(ResourceType::Route).version == versions.route.version);
        assert(versions.spec_resource(ResourceType::Http).version == versions.http.version);
        assert(versions.spec_resource(ResourceType::Logging).version == versions.logging.version);
        assert(versions.spec_resource(ResourceType::Performance).version
            == versions.performance.version);
        assert(versions.spec_resource(ResourceType::VirtualHost).version
            == versions.virtual_hosts.version);
    }
    m
}

/// One parsed resource value of a discovery POST.
#[derive(Debug, Clone)]
pub enum ResourceUpdate {
    /// New endpoints for the two listeners; absent parts are unchanged.
    Listener { main: Option<(String, u16)>, api: Option<(String, u16)> },
    Route(RoutesConfig),
    Http(HttpConfig),
    Logging(LoggingConfig),
    Performance(DynamicPerformanceConfig),
    VirtualHosts(Vec<VirtualHost>),
}

impl ResourceUpdate {
    /// The resource kind this update addresses.
    pub open spec fn spec_kind(self) -> ResourceType {
        match self {
            ResourceUpdate::Listener { .. } => ResourceType::Listener,
            ResourceUpdate::Route(..) => ResourceType::Route,
            ResourceUpdate::Http(..) => ResourceType::Http,
            ResourceUpdate::Logging(..) => ResourceType::Logging,
            ResourceUpdate::Performance(..) => ResourceType::Performance,
            ResourceUpdate::VirtualHosts(..) => ResourceType::VirtualHost,
        }
    }
}

/// A parsed discovery POST request: the echoed version, at most one
/// resource (only the first is applied), and the force-restart flag.
#[derive(Debug, Clone)]
pub struct UpdateRequest {
    pub version_info: String,
    pub resource: Option<ResourceUpdate>,
    pub force_restart: bool,
}

/// The reload side effects of a listener update, for the accept loops to
/// carry out.
#[derive(Debug, Clone)]
pub struct ListenerEffects {
    /// The endpoint set to stage, when a reload is due.
    pub staged: Option<DynamicServerConfig>,
    /// Wake the data-plane accept loop.
    pub notify_main: bool,
    /// Wake the management accept loop.
    pub notify_api: bool,
}

impl ListenerEffects {
    pub open spec fn spec_none() -> ListenerEffects {
        ListenerEffects { staged: None, notify_main: false, notify_api: false }
    }

    fn none() -> (r: ListenerEffects)
        ensures
            r == ListenerEffects::spec_none(),
    {
        ListenerEffects { staged: None, notify_main: false, notify_api: false }
    }
}

/// Whether a supplied main endpoint differs from the current one.
pub open spec fn spec_main_changed(server: DynamicServerConfig, main: Option<(String, u16)>) -> bool {
    match main {
        Some(m) => !(server.host@ == m.0@ && server.port == m.1),
        None => false,
    }
}

/// Whether a supplied management endpoint differs from the current one.
pub open spec fn spec_api_changed(server: DynamicServerConfig, api: Option<(String, u16)>) -> bool {
    match api {
        Some(a) => !(server.api_host@ == a.0@ && server.api_port == a.1),
        None => false,
    }
}

/// The ACK message of a listener update.
pub open spec fn spec_listener_message(main_changed: bool, api_changed: bool, force: bool) -> Seq<
    char,
> {
    if main_changed && api_changed {
        "Listener updated, restarting: main_server, api_server"@
    } else if main_changed {
        "Listener updated, restarting: main_server"@
    } else if api_changed {
        "Listener updated, restarting: api_server"@
    } else if force {
        "Listener updated, restarting: forced"@
    } else {
        "Listener config unchanged"@
    }
}

/// Apply a listener update to the runtime endpoints: each supplied endpoint
/// replaces the current one, a flag reports whether it actually changed,
/// and the message says what restarts.
pub fn update_listener(
    server: &mut DynamicServerConfig,
    main: Option<(String, u16)>,
    api: Option<(String, u16)>,
    force_restart: bool,
) -> (r: (bool, bool, String))
    ensures
        ({
            let main_changed = r.0;
            let api_changed = r.1;
            &&& (main matches Some(m) ==> (final(server).host@ == m.0@ && final(server).port == m.1
                && (main_changed == !(old(server).host@ == m.0@ && old(server).port == m.1))))
            &&& (main is None ==> final(server).host@ == old(server).host@ && final(server).port
                == old(server).port && main_changed == false)
            &&& (api matches Some(a) ==> (final(server).api_host@ == a.0@ && final(server).api_port
                == a.1 && (api_changed == !(old(server).api_host@ == a.0@ && old(server).api_port
                == a.1))))
            &&& (api is None ==> final(server).api_host@ == old(server).api_host@ && final(server).api_port == old(server).api_port && api_changed == false)
            &&& r.2@ == spec_listener_message(main_changed, api_changed, force_restart)
        }),
{
    let mut main_changed = false;
    let mut api_changed = false;
    match main {
        Some((host, port)) => {
            if !str_eq(server.host.as_str(), host.as_str()) || server.port != port {
                main_changed = true;
            }
            server.host = host;
            server.port = port;
        },
        None => {},
    }
    match api {
        Some((host, port)) => {
            if !str_eq(server.api_host.as_str(), host.as_str()) || server.api_port != port {
                api_changed = true;
            }
            server.api_host = host;
            server.api_port = port;
        },
        None => {},
    }
    let message: String = if main_changed && api_changed {
        "Listener updated, restarting: main_server, api_server".to_owned()
    } else if main_changed {
        "Listener updated, restarting: main_server".to_owned()
    } else if api_changed {
        "Listener updated, restarting: api_server".to_owned()
    } else if force_restart {
        "Listener updated, restarting: forced".to_owned()
    } else {
        "Listener config unchanged".to_owned()
    };
    (main_changed, api_changed, message)
}

/// Handle a discovery POST for one resource kind, over the already-parsed
/// body. Exactly one of four things happens: a parse failure answers 400; a
/// non-empty `version_info` that does not spell the kind's current version
/// answers 409 and changes nothing; an empty resource list answers 400 and
/// changes nothing; otherwise the value is applied, the kind's version is
/// bumped to `now`, and the ACK echoes the new pair. Only a listener update
/// ever stages endpoints or asks for a reload.
pub fn handle_discovery_post(
    versions: &mut XdsVersionManager,
    config: &mut DynamicConfig,
    resource_type: ResourceType,
    parsed: Result<UpdateRequest, String>,
    now: u64,
) -> (r: (HttpResponse, ListenerEffects))
    requires
        old(versions).spec_resource(resource_type).nonce < u64::MAX,
        parsed matches Ok(u) && u.resource matches Some(res) ==> res.spec_kind() == resource_type,
    ensures
        parsed matches Err(e) ==> (r.0.status == 400 && r.0.body@ == vstd::utf8::encode_utf8(
            spec_nack_body(400, e@),
        ) && *final(versions) == *old(versions) && *final(config) == *old(config) && r.1
            == ListenerEffects::spec_none()),
        parsed matches Ok(u) ==> ((u.version_info@.len() > 0 && u.version_info@ != spec_dec(
            old(versions).spec_resource(resource_type).version as nat,
        )) ==> (r.0.status == 409 && r.0.body@ == vstd::utf8::encode_utf8(
            spec_nack_body(
                409,
                spec_conflict_message(
                    old(versions).spec_resource(resource_type).version,
                    u.version_info@,
                ),
            ),
        ) && *final(versions) == *old(versions) && *final(config) == *old(config) && r.1
            == ListenerEffects::spec_none())),
        parsed matches Ok(u) ==> (((u.version_info@.len() == 0 || u.version_info@ == spec_dec(
            old(versions).spec_resource(resource_type).version as nat,
        )) && u.resource is None) ==> (r.0.status == 400 && r.0.body@ == vstd::utf8::encode_utf8(
            spec_nack_body(400, "No resources provided"@),
        ) && *final(versions) == *old(versions) && *final(config) == *old(config) && r.1
            == ListenerEffects::spec_none())),
        parsed matches Ok(u) ==> (((u.version_info@.len() == 0 || u.version_info@ == spec_dec(
            old(versions).spec_resource(resource_type).version as nat,
        )) && u.resource is Some) ==> (r.0.status == 200 && *final(versions) == old(versions).spec_with_resource(
            resource_type,
            old(versions).spec_resource(resource_type).spec_bumped(now),
        ))),
        parsed matches Ok(u) ==> ((u.version_info@.len() == 0 || u.version_info@ == spec_dec(
            old(versions).spec_resource(resource_type).version as nat,
        )) ==> (u.resource matches Some(res) ==> match res {
            ResourceUpdate::Route(v) => *final(config) == DynamicConfig {
                routes: v,
                ..*old(config)
            } && r.1 == ListenerEffects::spec_none() && r.0.body@ == vstd::utf8::encode_utf8(
                spec_ack_body(
                    now,
                    (old(versions).spec_resource(resource_type).nonce + 1) as u64,
                    "Routes updated"@,
                ),
            ),
            ResourceUpdate::Http(v) => *final(config) == DynamicConfig {
                http: v,
                ..*old(config)
            } && r.1 == ListenerEffects::spec_none() && r.0.body@ == vstd::utf8::encode_utf8(
                spec_ack_body(
                    now,
                    (old(versions).spec_resource(resource_type).nonce + 1) as u64,
                    "HTTP config updated"@,
                ),
            ),
            ResourceUpdate::Logging(v) => *final(config) == DynamicConfig {
                logging: v,
                ..*old(config)
            } && r.1 == ListenerEffects::spec_none() && r.0.body@ == vstd::utf8::encode_utf8(
                spec_ack_body(
                    now,
                    (old(versions).spec_resource(resource_type).nonce + 1) as u64,
                    "Logging config updated"@,
                ),
            ),
            ResourceUpdate::Performance(v) => *final(config) == DynamicConfig {
                performance: v,
                ..*old(config)
            } && r.1 == ListenerEffects::spec_none() && r.0.body@ == vstd::utf8::encode_utf8(
                spec_ack_body(
                    now,
                    (old(versions).spec_resource(resource_type).nonce + 1) as u64,
                    "Performance config updated"@,
                ),
            ),
            ResourceUpdate::VirtualHosts(v) => *final(config) == DynamicConfig {
                virtual_hosts: v,
                ..*old(config)
            } && r.1 == ListenerEffects::spec_none() && r.0.body@ == vstd::utf8::encode_utf8(
                spec_ack_body(
                    now,
                    (old(versions).spec_resource(resource_type).nonce + 1) as u64,
                    "Virtual hosts updated"@,
                ),
            ),
            ResourceUpdate::Listener { main, api } => {
                let mc = spec_main_changed(old(config).server, main);
                let ac = spec_api_changed(old(config).server, api);
                &&& final(config).logging == old(config).logging
                &&& final(config).http == old(config).http
                &&& final(config).routes == old(config).routes
                &&& final(config).performance == old(config).performance
                &&& final(config).virtual_hosts == old(config).virtual_hosts
                &&& r.1.notify_main == (mc || u.force_restart)
                &&& r.1.notify_api == (ac || u.force_restart)
                &&& (r.1.staged is Some <==> (mc || ac || u.force_restart))
                &&& (r.1.staged matches Some(st) ==> st.host@ == final(config).server.host@
                    && st.port == final(config).server.port && st.api_host@ == final(config).server.api_host@ && st.api_port == final(config).server.api_port)
                &&& (main matches Some(m) ==> final(config).server.host@ == m.0@ && final(config).server.port == m.1)
                &&& (api matches Some(a) ==> final(config).server.api_host@ == a.0@ && final(config).server.api_port == a.1)
                &&& (main is None ==> final(config).server.host@ == old(config).server.host@
                    && final(config).server.port == old(config).server.port)
                &&& (api is None ==> final(config).server.api_host@ == old(config).server.api_host@ && final(config).server.api_port == old(config).server.api_port)
                &&& r.0.body@ == vstd::utf8::encode_utf8(
                    spec_ack_body(
                        now,
                        (old(versions).spec_resource(resource_type).nonce + 1) as u64,
                        spec_listener_message(mc, ac, u.force_restart),
                    ),
                )
            },
        })),
{
    let request = match parsed {
        Ok(u) => u,
        Err(e) => {
            return (bad_request(e.as_str()), ListenerEffects::none());
        },
    };
    if request.version_info.as_str().unicode_len() != 0 {
        let (current_version, _) = versions.get_version(resource_type);
        let current_str = u64_to_dec(current_version);
        if !str_eq(request.version_info.as_str(), current_str.as_str()) {
            let msg = conflict_message(current_version, request.version_info.as_str());
            return (conflict_response(msg.as_str()), ListenerEffects::none());
        }
    }
    let resource = match request.resource {
        Some(res) => res,
        None => {
            return (bad_request("No resources provided"), ListenerEffects::none());
        },
    };
    let message: String;
    let mut effects = ListenerEffects::none();
    match resource {
        ResourceUpdate::Listener { main, api } => {
            let (main_changed, api_changed, msg) = update_listener(
                &mut config.server,
                main,
                api,
                request.force_restart,
            );
            if main_changed || api_changed || request.force_restart {
                effects = ListenerEffects {
                    staged: Some(
                        DynamicServerConfig {
                            host: config.server.host.clone(),
                            port: config.server.port,
                            api_host: config.server.api_host.clone(),
                            api_port: config.server.api_port,
                        },
                    ),
                    notify_main: main_changed || request.force_restart,
                    notify_api: api_changed || request.force_restart,
                };
            }
            message = msg;
        },
        ResourceUpdate::Route(v) => {
            config.routes = v;
            message = "Routes updated".to_owned();
        },
        ResourceUpdate::Http(v) => {
            config.http = v;
            message = "HTTP config updated".to_owned();
        },
        ResourceUpdate::Logging(v) => {
            config.logging = v;
            message = "Logging config updated".to_owned();
        },
        ResourceUpdate::Performance(v) => {
            config.performance = v;
            message = "Performance config updated".to_owned();
        },
        ResourceUpdate::VirtualHosts(v) => {
            config.virtual_hosts = v;
            message = "Virtual hosts updated".to_owned();
        },
    }
    let (new_version, new_nonce) = versions.increment_at(resource_type, now);
    let body = ack_body(new_version, new_nonce, message.as_str());
    let mut headers: Vec<(String, String)> = Vec::new();
    headers.push(("Content-Type".to_owned(), "application/json".to_owned()));
    let bytes = body.as_str().as_bytes();
    let resp = HttpResponse { status: 200, headers, body: vstd::slice::slice_to_vec(bytes) };
    (resp, effects)
}

} // verus!
