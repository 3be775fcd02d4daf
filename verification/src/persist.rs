//! The durable overlay: user-applied configuration layered over the static
//! base.
//!
//! The overlay lives in `state.toml` beside the base configuration file.
//! Serializing and writing it are the caller's work; this module holds the
//! overlay value itself, the per-section updates the discovery API makes,
//! and the merge that produces the effective runtime configuration.

use vstd::prelude::*;
use crate::config::{
    Config, DynamicConfig, DynamicPerformanceConfig, DynamicServerConfig, HealthConfig, HttpConfig,
    LoggingConfig, RouteHandler, RoutesConfig, VirtualHost,
};

verus! {

/// The persisted form of the legacy route table; favicon paths are not
/// persisted and always come from the base configuration.
#[derive(Debug, Clone)]
pub struct PersistentRoutesConfig {
    pub index_files: Vec<String>,
    pub custom_routes: Vec<(String, RouteHandler)>,
    pub health: HealthConfig,
}

impl PersistentRoutesConfig {
    /// The persisted form of a route table.
    pub fn from_routes(routes: RoutesConfig) -> (r: PersistentRoutesConfig)
        ensures
            r.index_files == routes.index_files,
            r.custom_routes == routes.custom_routes,
            r.health == routes.health,
    {
        PersistentRoutesConfig {
            index_files: routes.index_files,
            custom_routes: routes.custom_routes,
            health: routes.health,
        }
    }

    /// The route table this overlay section describes, with the favicon
    /// paths of the base configuration.
    pub fn into_routes(self, favicon_paths: Vec<String>) -> (r: RoutesConfig)
        ensures
            r.favicon_paths == favicon_paths,
            r.index_files == self.index_files,
            r.custom_routes == self.custom_routes,
            r.health == self.health,
    {
        RoutesConfig {
            favicon_paths,
            index_files: self.index_files,
            custom_routes: self.custom_routes,
            health: self.health,
        }
    }
}

/// The overlay: every section optional, each independently layered over
/// the base configuration.
#[derive(Debug, Clone)]
pub struct PersistentState {
    pub server: Option<DynamicServerConfig>,
    pub logging: Option<LoggingConfig>,
    pub http: Option<HttpConfig>,
    pub performance: Option<DynamicPerformanceConfig>,
    pub routes: Option<PersistentRoutesConfig>,
    pub virtual_hosts: Vec<VirtualHost>,
}

impl PersistentState {
    /// Record the server endpoints; the other sections are untouched.
    pub fn update_server(&mut self, server: DynamicServerConfig)
        ensures
            (*final(self) == PersistentState { server: Some(server), ..*old(self) }),
    {
        self.server = Some(server);
    }

    /// Record the logging section; the other sections are untouched.
    pub fn update_logging(&mut self, logging: LoggingConfig)
        ensures
            (*final(self) == PersistentState { logging: Some(logging), ..*old(self) }),
    {
        self.logging = Some(logging);
    }

    /// Record the HTTP section; the other sections are untouched.
    pub fn update_http(&mut self, http: HttpConfig)
        ensures
            (*final(self) == PersistentState { http: Some(http), ..*old(self) }),
    {
        self.http = Some(http);
    }

    /// Record the performance section; the other sections are untouched.
    pub fn update_performance(&mut self, perf: DynamicPerformanceConfig)
        ensures
            (*final(self) == PersistentState { performance: Some(perf), ..*old(self) }),
    {
        self.performance = Some(perf);
    }

    /// Record the route table; the other sections are untouched.
    pub fn update_routes(&mut self, routes: RoutesConfig)
        ensures
            final(self).routes matches Some(pr) && pr.index_files == routes.index_files
                && pr.custom_routes == routes.custom_routes && pr.health == routes.health,
            final(self).server == old(self).server,
            final(self).logging == old(self).logging,
            final(self).http == old(self).http,
            final(self).performance == old(self).performance,
            final(self).virtual_hosts == old(self).virtual_hosts,
    {
        self.routes = Some(PersistentRoutesConfig::from_routes(routes));
    }

    /// Record the virtual hosts; the other sections are untouched.
    pub fn update_virtual_hosts(&mut self, vhosts: Vec<VirtualHost>)
        ensures
            (*final(self) == PersistentState { virtual_hosts: vhosts, ..*old(self) }),
    {
        self.virtual_hosts = vhosts;
    }

    /// Reset the overlay to empty. The in-memory runtime configuration is
    /// deliberately not touched by a clear.
    pub fn clear(&mut self)
        ensures
            final(self).server is None,
            final(self).logging is None,
            final(self).http is None,
            final(self).performance is None,
            final(self).routes is None,
            final(self).virtual_hosts@.len() == 0,
    {
        self.server = None;
        self.logging = None;
        self.http = None;
        self.performance = None;
        self.routes = None;
        self.virtual_hosts = Vec::new();
    }
}

impl Default for PersistentState {
    /// The empty overlay: no section present.
    fn default() -> (r: Self)
        ensures
            r.server is None,
            r.logging is None,
            r.http is None,
            r.performance is None,
            r.routes is None,
            r.virtual_hosts@.len() == 0,
    {
        PersistentState {
            server: None,
            logging: None,
            http: None,
            performance: None,
            routes: None,
            virtual_hosts: Vec::new(),
        }
    }
}

/// Index just past the last `'/'` of `s`, or zero when there is none.
pub open spec fn spec_dir_prefix_len(s: Seq<char>) -> int
    decreases s.len(),
{
    if s.len() == 0 {
        0
    } else if s.last() == '/' {
        s.len() as int
    } else {
        spec_dir_prefix_len(s.drop_last())
    }
}

proof fn lemma_dir_prefix_len_bounds(s: Seq<char>)
    ensures
        0 <= spec_dir_prefix_len(s) <= s.len(),
    decreases s.len(),
{
    if s.len() > 0 && s.last() != '/' {
        lemma_dir_prefix_len_bounds(s.drop_last());
    }
}

/// The overlay file path: `state.toml` in the directory of the base
/// configuration file (the current directory when the base path has no
/// directory part).
pub fn state_path_for(config_path: &str) -> (r: String)
    ensures
        r@ == config_path@.take(spec_dir_prefix_len(config_path@)) + "state.toml"@,
{
    let dir = dir_prefix(config_path);
    let mut out = dir.to_owned();
    out.append("state.toml");
    proof {
        assert(out@ =~= config_path@.take(spec_dir_prefix_len(config_path@)) + "state.toml"@);
    }
    out
}

fn dir_prefix<'a>(s: &'a str) -> (r: &'a str)
    ensures
        r@ == s@.take(spec_dir_prefix_len(s@)),
    decreases s@.len(),
{
    let len = s.unicode_len();
    if len == 0 {
        proof {
            assert(s@.take(0) =~= s@);
        }
        s
    } else if s.get_char(len - 1) == '/' {
        proof {
            assert(s@.take(s@.len() as int) =~= s@);
        }
        s
    } else {
        let shorter = s.substring_char(0, len - 1);
        proof {
            assert(shorter@ =~= s@.drop_last());
        }
        let r = dir_prefix(shorter);
        proof {
            lemma_dir_prefix_len_bounds(s@.drop_last());
            assert(s@.drop_last().take(spec_dir_prefix_len(s@.drop_last())) =~= s@.take(
                spec_dir_prefix_len(s@),
            ));
        }
        r
    }
}

impl Config {
    /// The effective runtime configuration: the base with each present
    /// overlay section layered over it, section-wise. Favicon paths always
    /// come from the base; the virtual hosts come from the overlay alone.
    pub fn to_dynamic_with_state(self, state: PersistentState) -> (r: DynamicConfig)
        ensures
            state.server matches Some(s) ==> r.server == s,
            state.server is None ==> (r.server.host == self.server.host && r.server.port
                == self.server.port && r.server.api_host == self.server.api_host
                && r.server.api_port == self.server.api_port),
            state.logging matches Some(l) ==> r.logging == l,
            state.logging is None ==> r.logging == self.logging,
            state.http matches Some(h) ==> r.http == h,
            state.http is None ==> r.http == self.http,
            state.performance matches Some(p) ==> r.performance == p,
            state.performance is None ==> (r.performance.keep_alive_timeout
                == self.performance.keep_alive_timeout && r.performance.read_timeout
                == self.performance.read_timeout && r.performance.write_timeout
                == self.performance.write_timeout && r.performance.max_connections
                == self.performance.max_connections),
            state.routes matches Some(pr) ==> (r.routes.favicon_paths
                == self.routes.favicon_paths && r.routes.index_files == pr.index_files
                && r.routes.custom_routes == pr.custom_routes && r.routes.health == pr.health),
            state.routes is None ==> r.routes == self.routes,
            r.virtual_hosts == state.virtual_hosts,
    {
        let server = match state.server {
            Some(s) => s,
            None => DynamicServerConfig {
                host: self.server.host,
                port: self.server.port,
                api_host: self.server.api_host,
                api_port: self.server.api_port,
            },
        };
        let logging = match state.logging {
            Some(l) => l,
            None => self.logging,
        };
        let http = match state.http {
            Some(h) => h,
            None => self.http,
        };
        let performance = match state.performance {
            Some(p) => p,
            None => DynamicPerformanceConfig {
                keep_alive_timeout: self.performance.keep_alive_timeout,
                read_timeout: self.performance.read_timeout,
                write_timeout: self.performance.write_timeout,
                max_connections: self.performance.max_connections,
            },
        };
        let routes = match state.routes {
            Some(pr) => pr.into_routes(self.routes.favicon_paths),
            None => self.routes,
        };
        DynamicConfig {
            server,
            logging,
            http,
            routes,
            performance,
            virtual_hosts: state.virtual_hosts,
        }
    }
}

} // verus!
