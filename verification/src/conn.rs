//! Connection-level and listener-lifecycle decisions.
//!
//! The accept loops, timers and sockets live outside this crate; the
//! decisions — whether to admit a connection under the concurrency cap,
//! which deadline a connection gets, and what a reload notification means
//! for a listener — are verified here.

use vstd::prelude::*;
use crate::config::DynamicServerConfig;
use crate::text::str_eq;

verus! {

/// How long a replaced listener keeps draining its kernel backlog, in
/// milliseconds.
pub const DRAIN_WINDOW_MILLIS: u64 = 100;

/// How often graceful shutdown polls the active-connection counter, in
/// milliseconds.
pub const SHUTDOWN_POLL_MILLIS: u64 = 500;

/// Whether to serve a freshly accepted connection: under a cap, a
/// connection is admitted only while the pre-increment count is below the
/// cap; without a cap, or on a listener that does not enforce one, always.
pub fn admit_connection(prev_count: u64, max_connections: Option<u64>, check_limits: bool) -> (r:
    bool)
    ensures
        r == !(check_limits && (max_connections matches Some(m) && prev_count >= m)),
{
    if !check_limits {
        return true;
    }
    match max_connections {
        Some(m) => prev_count < m,
        None => true,
    }
}

/// The hard per-connection deadline: the larger of the read and write
/// timeouts, in seconds.
pub fn connection_deadline_secs(read_timeout: u64, write_timeout: u64) -> (r: u64)
    ensures
        r == if read_timeout >= write_timeout {
            read_timeout
        } else {
            write_timeout
        },
{
    if read_timeout >= write_timeout {
        read_timeout
    } else {
        write_timeout
    }
}

/// Whether HTTP/1.1 keep-alive is allowed on new connections.
pub fn keep_alive_enabled(keep_alive_timeout: u64) -> (r: bool)
    ensures
        r == (keep_alive_timeout > 0),
{
    keep_alive_timeout > 0
}

/// What a reload notification asks of one accept loop.
#[derive(Debug)]
pub enum ReloadDecision {
    /// No endpoint is staged: log and keep accepting on the old listener.
    NoStagedConfig,
    /// Bind the new address; `same_addr` says whether old and new listener
    /// will overlap on one endpoint for the drain window.
    Rebind { new_addr: String, same_addr: bool },
}

/// Decide what a reload notification means for a listener: with no staged
/// endpoint nothing happens; otherwise the listener rebinds to its own
/// address out of the staged pair — the data plane to `host:port`, the
/// management listener to `api_host:api_port`.
pub fn plan_reload(staged: &Option<DynamicServerConfig>, is_api_server: bool, old_addr: &str) -> (r:
    ReloadDecision)
    ensures
        staged is None <==> r is NoStagedConfig,
        staged matches Some(c) ==> (r matches ReloadDecision::Rebind { new_addr, same_addr } && (
        is_api_server ==> new_addr@ == c.api_host@ + seq![':'] + crate::numfmt::spec_dec(
            c.api_port as nat,
        )) && (!is_api_server ==> new_addr@ == c.host@ + seq![':'] + crate::numfmt::spec_dec(
            c.port as nat,
        )) && same_addr == (new_addr@ == old_addr@)),
{
    match staged {
        Some(c) => {
            let new_addr = if is_api_server {
                c.api_addr_string()
            } else {
                c.main_addr_string()
            };
            let same_addr = str_eq(new_addr.as_str(), old_addr);
            ReloadDecision::Rebind { new_addr, same_addr }
        },
        None => ReloadDecision::NoStagedConfig,
    }
}

/// Whether graceful shutdown may finish: every connection has drained, or
/// the deadline has passed.
pub fn shutdown_complete(active_connections: u64, elapsed_millis: u64, deadline_secs: u64) -> (r:
    bool)
    ensures
        r == (active_connections == 0 || (deadline_secs * 1000 <= u64::MAX && elapsed_millis
            >= deadline_secs * 1000)),
{
    if active_connections == 0 {
        return true;
    }
    match deadline_secs.checked_mul(1000) {
        Some(deadline_millis) => elapsed_millis >= deadline_millis,
        None => false,
    }
}

} // verus!
