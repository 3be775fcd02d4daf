//! Configuration data model: the static base configuration, the dynamic
//! (runtime-mutable) view of it, and the routing tables — both the legacy
//! route map and the xDS-style virtual hosts.

use vstd::prelude::*;
use crate::numfmt::spec_dec;
use crate::numfmt::u64_to_dec;

verus! {

/// Copy an optional string, keeping its characters.
pub fn clone_opt_string(o: &Option<String>) -> (r: Option<String>)
    ensures
        r is Some <==> o is Some,
        r matches Some(v) ==> (o matches Some(x) && v@ == x@),
{
    match o {
        Some(s) => Some(s.clone()),
        None => None,
    }
}

/// Base server endpoints, fixed at startup.
#[derive(Debug, Clone)]
pub struct ServerConfig {
    pub host: String,
    pub port: u16,
    pub api_host: String,
    pub api_port: u16,
    /// Worker thread count; `None` means one per CPU.
    pub workers: Option<u64>,
}

/// Logging configuration.
#[derive(Debug, Clone)]
pub struct LoggingConfig {
    pub level: String,
    pub access_log: bool,
    pub show_headers: bool,
    /// `combined`, `common`, `json`, or a custom pattern.
    pub access_log_format: String,
    /// Access log file path; stdout when absent.
    pub access_log_file: Option<String>,
    /// Error log file path; stderr when absent.
    pub error_log_file: Option<String>,
}

/// Performance configuration.
#[derive(Debug, Clone)]
pub struct PerformanceConfig {
    pub keep_alive_timeout: u64,
    pub read_timeout: u64,
    pub write_timeout: u64,
    pub max_connections: Option<u64>,
}

/// HTTP behaviour configuration.
#[derive(Debug, Clone)]
pub struct HttpConfig {
    pub default_content_type: String,
    pub server_name: String,
    pub enable_cors: bool,
    pub max_body_size: u64,
}

/// Health probe endpoints.
#[derive(Debug, Clone)]
pub struct HealthConfig {
    pub enabled: bool,
    pub liveness_path: String,
    pub readiness_path: String,
}

/// Health probes are on by default.
pub fn default_health_enabled() -> (r: bool)
    ensures
        r == true,
{
    true
}

/// The default liveness probe path.
pub fn default_healthz_path() -> (r: String)
    ensures
        r@ == "/healthz"@,
{
    "/healthz".to_owned()
}

/// The default readiness probe path.
pub fn default_readyz_path() -> (r: String)
    ensures
        r@ == "/readyz"@,
{
    "/readyz".to_owned()
}

/// The default access log format.
pub fn default_access_log_format() -> (r: String)
    ensures
        r@ == "combined"@,
{
    "combined".to_owned()
}

/// The status code a redirect route uses when none is given.
pub fn default_redirect_code() -> (r: u16)
    ensures
        r == 302,
{
    302
}

impl Default for HealthConfig {
    fn default() -> (r: Self)
        ensures
            r.enabled == true,
            r.liveness_path@ == "/healthz"@,
            r.readiness_path@ == "/readyz"@,
    {
        HealthConfig {
            enabled: default_health_enabled(),
            liveness_path: default_healthz_path(),
            readiness_path: default_readyz_path(),
        }
    }
}

/// A legacy route target.
#[derive(Debug, Clone)]
pub enum RouteHandler {
    Dir { path: String },
    File { path: String },
    Redirect { target: String },
}

/// The legacy routing table: favicon paths, index files, and a list of
/// `(prefix-or-path, handler)` entries evaluated in order.
#[derive(Debug, Clone)]
pub struct RoutesConfig {
    pub favicon_paths: Vec<String>,
    pub index_files: Vec<String>,
    pub custom_routes: Vec<(String, RouteHandler)>,
    pub health: HealthConfig,
}

impl Default for RoutesConfig {
    fn default() -> (r: Self)
        ensures
            r.favicon_paths@.len() == 2,
            r.favicon_paths@[0]@ == "/favicon.ico"@,
            r.favicon_paths@[1]@ == "/favicon.svg"@,
            r.index_files@.len() == 2,
            r.index_files@[0]@ == "index.html"@,
            r.index_files@[1]@ == "index.htm"@,
            r.custom_routes@.len() == 0,
            r.health.enabled == true,
            r.health.liveness_path@ == "/healthz"@,
            r.health.readiness_path@ == "/readyz"@,
    {
        let mut favicon_paths: Vec<String> = Vec::new();
        favicon_paths.push("/favicon.ico".to_owned());
        favicon_paths.push("/favicon.svg".to_owned());
        let mut index_files: Vec<String> = Vec::new();
        index_files.push("index.html".to_owned());
        index_files.push("index.htm".to_owned());
        RoutesConfig {
            favicon_paths,
            index_files,
            custom_routes: Vec::new(),
            health: HealthConfig::default(),
        }
    }
}

/// A header condition of an xDS route match.
#[derive(Debug, Clone)]
pub struct HeaderMatcher {
    pub name: String,
    pub exact: Option<String>,
    pub prefix: Option<String>,
    pub present: Option<bool>,
}

/// The match conditions of an xDS route.
#[derive(Debug, Clone)]
pub struct RouteMatch {
    pub prefix: Option<String>,
    pub path: Option<String>,
    pub headers: Option<Vec<HeaderMatcher>>,
}

impl Default for RouteMatch {
    /// A rule with no conditions, which matches every request.
    fn default() -> (r: Self)
        ensures
            r.prefix is None,
            r.path is None,
            r.headers is None,
    {
        RouteMatch { prefix: None, path: None, headers: None }
    }
}

/// What to do when a route matches.
#[derive(Debug, Clone)]
pub enum RouteAction {
    /// Serve files from a directory.
    Dir { path: String },
    /// Serve one specific file.
    File { path: String },
    /// Redirect with the given status code.
    Redirect { target: String, code: u16 },
    /// Reply directly with the given status, body and content type.
    Direct { status: u16, body: Option<String>, content_type: Option<String> },
}

impl RouteAction {
    /// The xDS action a legacy handler corresponds to; a legacy redirect
    /// becomes a 302.
    pub fn from_handler(handler: &RouteHandler) -> (r: Self)
        ensures
            handler matches RouteHandler::Dir { path } ==> r matches RouteAction::Dir {
                path: p,
            } && p@ == path@,
            handler matches RouteHandler::File { path } ==> r matches RouteAction::File {
                path: p,
            } && p@ == path@,
            handler matches RouteHandler::Redirect { target } ==> r matches RouteAction::Redirect {
                target: t,
                code,
            } && t@ == target@ && code == 302,
    {
        match handler {
            RouteHandler::Dir { path } => RouteAction::Dir { path: path.clone() },
            RouteHandler::File { path } => RouteAction::File { path: path.clone() },
            RouteHandler::Redirect { target } => RouteAction::Redirect {
                target: target.clone(),
                code: 302,
            },
        }
    }
}

/// An xDS route: match conditions plus an action, evaluated in list order.
#[derive(Debug, Clone)]
pub struct Route {
    pub name: Option<String>,
    pub match_rule: RouteMatch,
    pub action: RouteAction,
}

/// A virtual host: domains it serves, its routes, and an optional override
/// of the index files.
#[derive(Debug, Clone)]
pub struct VirtualHost {
    pub name: String,
    pub domains: Vec<String>,
    pub routes: Vec<Route>,
    pub index_files: Option<Vec<String>>,
}

/// The full static configuration loaded at startup.
#[derive(Debug, Clone)]
pub struct Config {
    pub server: ServerConfig,
    pub logging: LoggingConfig,
    pub performance: PerformanceConfig,
    pub http: HttpConfig,
    pub routes: RoutesConfig,
}

/// The runtime-mutable server endpoints.
#[derive(Debug, Clone)]
pub struct DynamicServerConfig {
    pub host: String,
    pub port: u16,
    pub api_host: String,
    pub api_port: u16,
}

impl DynamicServerConfig {
    /// The data-plane bind address, `host:port`.
    pub fn main_addr_string(&self) -> (r: String)
        ensures
            r@ == self.host@ + seq![':'] + spec_dec(self.port as nat),
    {
        let mut s = self.host.clone();
        s.append(":");
        s.append(u64_to_dec(self.port as u64).as_str());
        proof {
            reveal_strlit(":");
            assert(s@ =~= self.host@ + seq![':'] + spec_dec(self.port as nat));
        }
        s
    }

    /// The management bind address, `api_host:api_port`.
    pub fn api_addr_string(&self) -> (r: String)
        ensures
            r@ == self.api_host@ + seq![':'] + spec_dec(self.api_port as nat),
    {
        let mut s = self.api_host.clone();
        s.append(":");
        s.append(u64_to_dec(self.api_port as u64).as_str());
        proof {
            reveal_strlit(":");
            assert(s@ =~= self.api_host@ + seq![':'] + spec_dec(self.api_port as nat));
        }
        s
    }
}

/// The runtime-mutable performance settings.
#[derive(Debug, Clone)]
pub struct DynamicPerformanceConfig {
    pub keep_alive_timeout: u64,
    pub read_timeout: u64,
    pub write_timeout: u64,
    pub max_connections: Option<u64>,
}

/// The runtime-mutable view of the whole configuration, read by the router
/// and the connection server and written by the discovery API.
#[derive(Debug, Clone)]
pub struct DynamicConfig {
    pub server: DynamicServerConfig,
    pub logging: LoggingConfig,
    pub http: HttpConfig,
    pub routes: RoutesConfig,
    pub performance: DynamicPerformanceConfig,
    pub virtual_hosts: Vec<VirtualHost>,
}

impl Config {
    /// The dynamic view of this base configuration: the same values, with
    /// an empty virtual-host list.
    pub fn to_dynamic(&self) -> (r: DynamicConfig)
        ensures
            r.server.host@ == self.server.host@,
            r.server.port == self.server.port,
            r.server.api_host@ == self.server.api_host@,
            r.server.api_port == self.server.api_port,
            r.logging.access_log == self.logging.access_log,
            r.logging.show_headers == self.logging.show_headers,
            r.logging.level@ == self.logging.level@,
            r.logging.access_log_format@ == self.logging.access_log_format@,
            r.http.enable_cors == self.http.enable_cors,
            r.http.max_body_size == self.http.max_body_size,
            r.http.default_content_type@ == self.http.default_content_type@,
            r.http.server_name@ == self.http.server_name@,
            r.performance.keep_alive_timeout == self.performance.keep_alive_timeout,
            r.performance.read_timeout == self.performance.read_timeout,
            r.performance.write_timeout == self.performance.write_timeout,
            r.performance.max_connections == self.performance.max_connections,
            r.virtual_hosts@.len() == 0,
    {
        DynamicConfig {
            server: DynamicServerConfig {
                host: self.server.host.clone(),
                port: self.server.port,
                api_host: self.server.api_host.clone(),
                api_port: self.server.api_port,
            },
            logging: LoggingConfig {
                level: self.logging.level.clone(),
                access_log: self.logging.access_log,
                show_headers: self.logging.show_headers,
                access_log_format: self.logging.access_log_format.clone(),
                access_log_file: clone_opt_string(&self.logging.access_log_file),
                error_log_file: clone_opt_string(&self.logging.error_log_file),
            },
            http: HttpConfig {
                default_content_type: self.http.default_content_type.clone(),
                server_name: self.http.server_name.clone(),
                enable_cors: self.http.enable_cors,
                max_body_size: self.http.max_body_size,
            },
            routes: self.routes.clone(),
            performance: DynamicPerformanceConfig {
                keep_alive_timeout: self.performance.keep_alive_timeout,
                read_timeout: self.performance.read_timeout,
                write_timeout: self.performance.write_timeout,
                max_connections: self.performance.max_connections,
            },
            virtual_hosts: Vec::new(),
        }
    }
}

impl Default for Config {
    /// The built-in base defaults used when a setting is absent from the
    /// configuration sources.
    fn default() -> (r: Self)
        ensures
            r.server.host@ == "127.0.0.1"@,
            r.server.port == 8080,
            r.server.api_host@ == "127.0.0.1"@,
            r.server.api_port == 8000,
            r.server.workers is None,
            r.logging.level@ == "info"@,
            r.logging.access_log == true,
            r.logging.show_headers == false,
            r.logging.access_log_format@ == "combined"@,
            r.logging.access_log_file is None,
            r.logging.error_log_file is None,
            r.performance.keep_alive_timeout == 75,
            r.performance.read_timeout == 30,
            r.performance.write_timeout == 30,
            r.performance.max_connections is None,
            r.http.default_content_type@ == "text/html; charset=utf-8"@,
            r.http.server_name@ == "Tokio-Hyper/1.0"@,
            r.http.enable_cors == false,
            r.http.max_body_size == 10485760,
    {
        Config {
            server: ServerConfig {
                host: "127.0.0.1".to_owned(),
                port: 8080,
                api_host: "127.0.0.1".to_owned(),
                api_port: 8000,
                workers: None,
            },
            logging: LoggingConfig {
                level: "info".to_owned(),
                access_log: true,
                show_headers: false,
                access_log_format: default_access_log_format(),
                access_log_file: None,
                error_log_file: None,
            },
            performance: PerformanceConfig {
                keep_alive_timeout: 75,
                read_timeout: 30,
                write_timeout: 30,
                max_connections: None,
            },
            http: HttpConfig {
                default_content_type: "text/html; charset=utf-8".to_owned(),
                server_name: "Tokio-Hyper/1.0".to_owned(),
                enable_cors: false,
                max_body_size: 10485760,
            },
            routes: RoutesConfig::default(),
        }
    }
}

} // verus!
