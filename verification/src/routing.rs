//! Request routing: xDS route matching and virtual-host resolution.
//!
//! Routes are evaluated in declared order; the first whose conditions all
//! hold wins. Virtual hosts resolve by the request's Host header with a
//! fixed precedence — an exact domain beats a wildcard, a wildcard beats the
//! catch-all — independent of the order of the list.

use vstd::prelude::*;
use crate::config::{HeaderMatcher, Route, RouteMatch, VirtualHost};
use crate::text::{
    lower_chars, prefix_until_char, spec_ends_with, spec_prefix_until, spec_starts_with, str_eq,
    str_starts_with, str_ends_with, eq_ignore_case,
};

verus! {

/// Whether a path satisfies a rule: an exact `path` condition wins over a
/// `prefix` condition; a rule with neither matches everything.
pub open spec fn spec_match_path(rule: RouteMatch, path: Seq<char>) -> bool {
    match rule.path {
        Some(exact) => path == exact@,
        None => match rule.prefix {
            Some(prefix) => spec_starts_with(path, prefix@),
            None => true,
        },
    }
}

/// Check if a path matches a route rule.
pub fn match_path(rule: &RouteMatch, path: &str) -> (r: bool)
    ensures
        r == spec_match_path(*rule, path@),
{
    match &rule.path {
        Some(exact) => str_eq(path, exact.as_str()),
        None => match &rule.prefix {
            Some(prefix) => str_starts_with(path, prefix.as_str()),
            None => true,
        },
    }
}

/// The value of the first header whose name matches case-insensitively.
pub open spec fn spec_find_header<'a>(headers: Seq<(&'a str, &'a str)>, name: Seq<char>) -> Option<
    &'a str,
>
    decreases headers.len(),
{
    if headers.len() == 0 {
        None
    } else if lower_chars(headers[0].0@) == lower_chars(name) {
        Some(headers[0].1)
    } else {
        spec_find_header(headers.drop_first(), name)
    }
}

fn find_header<'a>(headers: &[(&str, &'a str)], name: &str) -> (r: Option<&'a str>)
    ensures
        r == spec_find_header(headers@, name@),
{
    let n = headers.len();
    proof {
        assert(headers@.skip(0) =~= headers@);
    }
    let mut i: usize = 0;
    while i < n
        invariant
            0 <= i <= n,
            n == headers@.len(),
            spec_find_header(headers@, name@) == spec_find_header(headers@.skip(i as int), name@),
        decreases n - i,
    {
        let pair = vstd::slice::slice_index_get(headers, i);
        proof {
            assert(headers@.skip(i as int)[0] == headers@[i as int]);
            assert(headers@.skip(i as int).drop_first() =~= headers@.skip(i as int + 1));
        }
        if eq_ignore_case(pair.0, name) {
            return Some(pair.1);
        }
        i += 1;
    }
    proof {
        assert(headers@.skip(n as int).len() == 0);
    }
    None
}

/// Whether one header condition holds against the request headers.
pub open spec fn spec_match_single_header(matcher: HeaderMatcher, headers: Seq<(&str, &str)>) -> bool {
    let value = spec_find_header(headers, matcher.name@);
    if matcher.present matches Some(should) && (value is Some) != should {
        false
    } else if matcher.present is Some && matcher.exact is None && matcher.prefix is None {
        true
    } else {
        match value {
            None => false,
            Some(v) => match matcher.exact {
                Some(e) => v@ == e@,
                None => match matcher.prefix {
                    Some(p) => spec_starts_with(v@, p@),
                    None => true,
                },
            },
        }
    }
}

/// Check one header condition.
pub fn match_single_header(matcher: &HeaderMatcher, headers: &[(&str, &str)]) -> (r: bool)
    ensures
        r == spec_match_single_header(*matcher, headers@),
{
    let value = find_header(headers, matcher.name.as_str());
    if let Some(should) = matcher.present {
        if value.is_some() != should {
            return false;
        }
        if matcher.exact.is_none() && matcher.prefix.is_none() {
            return true;
        }
    }
    let v = match value {
        Some(v) => v,
        None => {
            return false;
        },
    };
    match &matcher.exact {
        Some(e) => str_eq(v, e.as_str()),
        None => match &matcher.prefix {
            Some(p) => str_starts_with(v, p.as_str()),
            None => true,
        },
    }
}

/// Whether every header condition holds; with no headers supplied, only an
/// empty condition list holds.
pub open spec fn spec_match_headers(matchers: Seq<HeaderMatcher>, headers: Option<&[(&str, &str)]>) -> bool {
    match headers {
        None => matchers.len() == 0,
        Some(hs) => forall|i: int|
            0 <= i < matchers.len() ==> spec_match_single_header(#[trigger] matchers[i], hs@),
    }
}

/// Check every header condition.
pub fn match_headers(matchers: &[HeaderMatcher], headers: Option<&[(&str, &str)]>) -> (r: bool)
    ensures
        r == spec_match_headers(matchers@, headers),
{
    let hs = match headers {
        Some(hs) => hs,
        None => {
            return matchers.is_empty();
        },
    };
    let n = matchers.len();
    let mut i: usize = 0;
    while i < n
        invariant
            0 <= i <= n,
            n == matchers@.len(),
            headers == Some(hs),
            forall|j: int| 0 <= j < i ==> spec_match_single_header(#[trigger] matchers@[j], hs@),
        decreases n - i,
    {
        if !match_single_header(vstd::slice::slice_index_get(matchers, i), hs) {
            proof {
                assert(!spec_match_single_header(matchers@[i as int], hs@));
            }
            return false;
        }
        i += 1;
    }
    true
}

/// Whether a request with this path and these headers satisfies a rule.
pub open spec fn spec_matches_route_rule(
    rule: RouteMatch,
    path: Seq<char>,
    headers: Option<&[(&str, &str)]>,
) -> bool {
    spec_match_path(rule, path) && match rule.headers {
        Some(ms) => spec_match_headers(ms@, headers),
        None => true,
    }
}

/// Check if a request matches a route rule (path and headers).
pub fn matches_route_rule(rule: &RouteMatch, path: &str, headers: Option<&[(&str, &str)]>) -> (r:
    bool)
    ensures
        r == spec_matches_route_rule(*rule, path@, headers),
{
    if !match_path(rule, path) {
        return false;
    }
    match &rule.headers {
        Some(ms) => match_headers(ms.as_slice(), headers),
        None => true,
    }
}

/// Find the first route the request matches: the index of the earliest
/// route whose rule holds, if any.
pub fn match_route(path: &str, headers: Option<&[(&str, &str)]>, routes: &[Route]) -> (r: Option<
    usize,
>)
    ensures
        r matches Some(i) ==> i < routes@.len() && spec_matches_route_rule(
            routes@[i as int].match_rule,
            path@,
            headers,
        ) && forall|j: int|
            0 <= j < i ==> !spec_matches_route_rule(#[trigger] routes@[j].match_rule, path@, headers),
        r is None ==> forall|j: int|
            0 <= j < routes@.len() ==> !spec_matches_route_rule(
                #[trigger] routes@[j].match_rule,
                path@,
                headers,
            ),
{
    let n = routes.len();
    let mut i: usize = 0;
    while i < n
        invariant
            0 <= i <= n,
            n == routes@.len(),
            forall|j: int|
                0 <= j < i ==> !spec_matches_route_rule(
                    #[trigger] routes@[j].match_rule,
                    path@,
                    headers,
                ),
        decreases n - i,
    {
        if matches_route_rule(&vstd::slice::slice_index_get(routes, i).match_rule, path, headers) {
            return Some(i);
        }
        i += 1;
    }
    None
}

/// The Host header with any `:port` suffix removed.
pub open spec fn spec_strip_port(host: Seq<char>) -> Seq<char> {
    host.take(spec_prefix_until(host, ':'))
}

/// Whether a domain pattern is a wildcard pattern `*.suffix`.
pub open spec fn spec_is_wildcard_pattern(pattern: Seq<char>) -> bool {
    spec_starts_with(pattern, seq!['*', '.'])
}

/// Whether a wildcard pattern `*.example.com` covers a (portless) host:
/// the host ends with `.example.com`, or is the bare `example.com`.
pub open spec fn spec_wildcard_matches(pattern: Seq<char>, host: Seq<char>) -> bool {
    spec_ends_with(host, pattern.skip(1)) || host == pattern.skip(2)
}

fn match_wildcard_domain(pattern: &str, host: &str) -> (r: bool)
    requires
        spec_is_wildcard_pattern(pattern@),
    ensures
        r == spec_wildcard_matches(pattern@, host@),
{
    let plen = pattern.unicode_len();
    let suffix = pattern.substring_char(1, plen);
    let bare = pattern.substring_char(2, plen);
    proof {
        assert(suffix@ =~= pattern@.skip(1));
        assert(bare@ =~= pattern@.skip(2));
    }
    str_ends_with(host, suffix) || str_eq(host, bare)
}

/// Whether a domain pattern covers a host: `*` covers everything, an exact
/// domain covers itself, a wildcard covers its suffixes. The host's `:port`
/// is ignored.
pub open spec fn spec_match_domain(pattern: Seq<char>, host: Seq<char>) -> bool {
    let h = spec_strip_port(host);
    pattern =~= seq!['*'] || pattern == h || (spec_is_wildcard_pattern(pattern)
        && spec_wildcard_matches(pattern, h))
}

/// Match a domain pattern against a Host header value.
pub fn match_domain(pattern: &str, host: &str) -> (r: bool)
    ensures
        r == spec_match_domain(pattern@, host@),
{
    let h = prefix_until_char(host, ':');
    if str_eq(pattern, "*") {
        proof {
            reveal_strlit("*");
            assert("*"@ =~= seq!['*']);
        }
        return true;
    }
    if str_eq(pattern, h) {
        return true;
    }
    proof {
        reveal_strlit("*");
        assert("*"@ =~= seq!['*']);
    }
    if str_starts_with(pattern, "*.") {
        proof {
            reveal_strlit("*.");
            assert("*."@ =~= seq!['*', '.']);
        }
        return match_wildcard_domain(pattern, h);
    }
    proof {
        reveal_strlit("*.");
        assert("*."@ =~= seq!['*', '.']);
    }
    false
}

/// Whether some domain of the virtual host equals the (portless) host.
pub open spec fn spec_vhost_exact(v: VirtualHost, h: Seq<char>) -> bool {
    exists|k: int| 0 <= k < v.domains@.len() && #[trigger] v.domains@[k]@ == h
}

/// Whether some wildcard domain of the virtual host covers the host.
pub open spec fn spec_vhost_wildcard(v: VirtualHost, h: Seq<char>) -> bool {
    exists|k: int|
        0 <= k < v.domains@.len() && spec_is_wildcard_pattern(#[trigger] v.domains@[k]@)
            && spec_wildcard_matches(v.domains@[k]@, h)
}

/// Whether the virtual host lists the catch-all domain `*`.
pub open spec fn spec_vhost_catch_all(v: VirtualHost) -> bool {
    exists|k: int| 0 <= k < v.domains@.len() && #[trigger] v.domains@[k]@ =~= seq!['*']
}

fn vhost_exact(v: &VirtualHost, h: &str) -> (r: bool)
    ensures
        r == spec_vhost_exact(*v, h@),
{
    let n = v.domains.len();
    let mut k: usize = 0;
    while k < n
        invariant
            0 <= k <= n,
            n == v.domains@.len(),
            forall|j: int| 0 <= j < k ==> #[trigger] v.domains@[j]@ != h@,
        decreases n - k,
    {
        if str_eq(v.domains[k].as_str(), h) {
            return true;
        }
        k += 1;
    }
    false
}

fn vhost_wildcard(v: &VirtualHost, h: &str) -> (r: bool)
    ensures
        r == spec_vhost_wildcard(*v, h@),
{
    let n = v.domains.len();
    let mut k: usize = 0;
    while k < n
        invariant
            0 <= k <= n,
            n == v.domains@.len(),
            forall|j: int|
                0 <= j < k ==> !(spec_is_wildcard_pattern(#[trigger] v.domains@[j]@)
                    && spec_wildcard_matches(v.domains@[j]@, h@)),
        decreases n - k,
    {
        let d = v.domains[k].as_str();
        if str_starts_with(d, "*.") {
            proof {
                reveal_strlit("*.");
                assert("*."@ =~= seq!['*', '.']);
            }
            if match_wildcard_domain(d, h) {
                return true;
            }
        }
        proof {
            reveal_strlit("*.");
            assert("*."@ =~= seq!['*', '.']);
        }
        k += 1;
    }
    false
}

fn vhost_catch_all(v: &VirtualHost) -> (r: bool)
    ensures
        r == spec_vhost_catch_all(*v),
{
    let n = v.domains.len();
    let mut k: usize = 0;
    while k < n
        invariant
            0 <= k <= n,
            n == v.domains@.len(),
            forall|j: int| 0 <= j < k ==> !(#[trigger] v.domains@[j]@ =~= seq!['*']),
        decreases n - k,
    {
        if str_eq(v.domains[k].as_str(), "*") {
            proof {
                reveal_strlit("*");
                assert("*"@ =~= seq!['*']);
            }
            return true;
        }
        proof {
            reveal_strlit("*");
            assert("*"@ =~= seq!['*']);
        }
        k += 1;
    }
    false
}

/// Whether any virtual host in the list has an exact match for the host.
pub open spec fn spec_some_exact(vs: Seq<VirtualHost>, h: Seq<char>) -> bool {
    exists|i: int| 0 <= i < vs.len() && spec_vhost_exact(#[trigger] vs[i], h)
}

/// Whether any virtual host in the list has a wildcard match for the host.
pub open spec fn spec_some_wildcard(vs: Seq<VirtualHost>, h: Seq<char>) -> bool {
    exists|i: int| 0 <= i < vs.len() && spec_vhost_wildcard(#[trigger] vs[i], h)
}

/// Whether any virtual host in the list is a catch-all.
pub open spec fn spec_some_catch_all(vs: Seq<VirtualHost>) -> bool {
    exists|i: int| 0 <= i < vs.len() && spec_vhost_catch_all(#[trigger] vs[i])
}

/// Whether `i` is the entry precedence selects for host `h`: the first
/// exact match if any exists, else the first wildcard match, else the
/// first catch-all.
pub open spec fn spec_chosen_vhost(vs: Seq<VirtualHost>, h: Seq<char>, i: int) -> bool {
    &&& 0 <= i < vs.len()
    &&& if spec_some_exact(vs, h) {
        spec_vhost_exact(vs[i], h) && forall|j: int| 0 <= j < i ==> !spec_vhost_exact(
            #[trigger] vs[j],
            h,
        )
    } else if spec_some_wildcard(vs, h) {
        spec_vhost_wildcard(vs[i], h) && forall|j: int| 0 <= j < i ==> !spec_vhost_wildcard(
            #[trigger] vs[j],
            h,
        )
    } else {
        spec_vhost_catch_all(vs[i]) && forall|j: int| 0 <= j < i ==> !spec_vhost_catch_all(
            #[trigger] vs[j],
        )
    }
}

/// Precedence selects at most one entry.
pub proof fn lemma_chosen_vhost_unique(vs: Seq<VirtualHost>, h: Seq<char>, a: int, b: int)
    requires
        spec_chosen_vhost(vs, h, a),
        spec_chosen_vhost(vs, h, b),
    ensures
        a == b,
{
    if spec_some_exact(vs, h) {
        if a < b {
            assert(!spec_vhost_exact(vs[a], h));
        } else if b < a {
            assert(!spec_vhost_exact(vs[b], h));
        }
    } else if spec_some_wildcard(vs, h) {
        if a < b {
            assert(!spec_vhost_wildcard(vs[a], h));
        } else if b < a {
            assert(!spec_vhost_wildcard(vs[b], h));
        }
    } else {
        if a < b {
            assert(!spec_vhost_catch_all(vs[a]));
        } else if b < a {
            assert(!spec_vhost_catch_all(vs[b]));
        }
    }
}

/// Whether `j` is the first route in the list the request matches.
pub open spec fn spec_first_route_match(
    routes: Seq<Route>,
    path: Seq<char>,
    headers: Option<&[(&str, &str)]>,
    j: int,
) -> bool {
    &&& 0 <= j < routes.len()
    &&& spec_matches_route_rule(routes[j].match_rule, path, headers)
    &&& forall|k: int|
        0 <= k < j ==> !spec_matches_route_rule(#[trigger] routes[k].match_rule, path, headers)
}

/// At most one route is the first match.
pub proof fn lemma_first_route_unique(
    routes: Seq<Route>,
    path: Seq<char>,
    headers: Option<&[(&str, &str)]>,
    a: int,
    b: int,
)
    requires
        spec_first_route_match(routes, path, headers, a),
        spec_first_route_match(routes, path, headers, b),
    ensures
        a == b,
{
    if a < b {
        assert(!spec_matches_route_rule(routes[a].match_rule, path, headers));
    } else if b < a {
        assert(!spec_matches_route_rule(routes[b].match_rule, path, headers));
    }
}

/// Resolve the virtual host serving a Host header, as the index of the
/// chosen entry. Precedence is fixed regardless of list order: the first
/// exact match wins; failing that, the first wildcard match; failing that,
/// the first catch-all; otherwise none.
pub fn resolve_virtual_host(host: &str, virtual_hosts: &[VirtualHost]) -> (r: Option<usize>)
    ensures
        spec_some_exact(virtual_hosts@, spec_strip_port(host@)) ==> (r matches Some(i)
            && i < virtual_hosts@.len() && spec_vhost_exact(
            virtual_hosts@[i as int],
            spec_strip_port(host@),
        ) && forall|j: int|
            0 <= j < i ==> !spec_vhost_exact(#[trigger] virtual_hosts@[j], spec_strip_port(host@))),
        !spec_some_exact(virtual_hosts@, spec_strip_port(host@)) && spec_some_wildcard(
            virtual_hosts@,
            spec_strip_port(host@),
        ) ==> (r matches Some(i) && i < virtual_hosts@.len() && spec_vhost_wildcard(
            virtual_hosts@[i as int],
            spec_strip_port(host@),
        ) && forall|j: int|
            0 <= j < i ==> !spec_vhost_wildcard(#[trigger] virtual_hosts@[j], spec_strip_port(host@))),
        !spec_some_exact(virtual_hosts@, spec_strip_port(host@)) && !spec_some_wildcard(
            virtual_hosts@,
            spec_strip_port(host@),
        ) && spec_some_catch_all(virtual_hosts@) ==> (r matches Some(i) && i < virtual_hosts@.len()
            && spec_vhost_catch_all(virtual_hosts@[i as int]) && forall|j: int|
            0 <= j < i ==> !spec_vhost_catch_all(#[trigger] virtual_hosts@[j])),
        !spec_some_exact(virtual_hosts@, spec_strip_port(host@)) && !spec_some_wildcard(
            virtual_hosts@,
            spec_strip_port(host@),
        ) && !spec_some_catch_all(virtual_hosts@) ==> r is None,
        r matches Some(i) ==> spec_chosen_vhost(virtual_hosts@, spec_strip_port(host@), i as int),
{
    let h = prefix_until_char(host, ':');
    let n = virtual_hosts.len();
    let mut i: usize = 0;
    while i < n
        invariant
            0 <= i <= n,
            n == virtual_hosts@.len(),
            h@ == spec_strip_port(host@),
            forall|j: int|
                0 <= j < i ==> !spec_vhost_exact(#[trigger] virtual_hosts@[j], h@),
        decreases n - i,
    {
        if vhost_exact(vstd::slice::slice_index_get(virtual_hosts, i), h) {
            return Some(i);
        }
        i += 1;
    }
    let mut i: usize = 0;
    while i < n
        invariant
            0 <= i <= n,
            n == virtual_hosts@.len(),
            h@ == spec_strip_port(host@),
            !spec_some_exact(virtual_hosts@, h@),
            forall|j: int|
                0 <= j < i ==> !spec_vhost_wildcard(#[trigger] virtual_hosts@[j], h@),
        decreases n - i,
    {
        if vhost_wildcard(vstd::slice::slice_index_get(virtual_hosts, i), h) {
            return Some(i);
        }
        i += 1;
    }
    let mut i: usize = 0;
    while i < n
        invariant
            0 <= i <= n,
            n == virtual_hosts@.len(),
            h@ == spec_strip_port(host@),
            !spec_some_exact(virtual_hosts@, h@),
            !spec_some_wildcard(virtual_hosts@, h@),
            forall|j: int|
                0 <= j < i ==> !spec_vhost_catch_all(#[trigger] virtual_hosts@[j]),
        decreases n - i,
    {
        if vhost_catch_all(vstd::slice::slice_index_get(virtual_hosts, i)) {
            return Some(i);
        }
        i += 1;
    }
    None
}

} // verus!
