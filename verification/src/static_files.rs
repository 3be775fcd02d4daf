//! Static file serving: path resolution with traversal defence, and the
//! conditional-GET / Range response pipeline.
//!
//! Reading metadata and content is I/O and happens outside this crate; the
//! functions here resolve the request path to a location that provably stays
//! under the configured root, decide the mtime fast path, and build the
//! final response from the bytes once they are read.

use vstd::prelude::*;
use crate::cache::{check_etag_match, mtime_to_etag, spec_etag_list_match};
use crate::httpdate::{format_http_date, spec_http_date, spec_parse_http_date, check_not_modified_since};
use crate::numfmt::spec_hex;
use crate::range::{parse_range_header, spec_parse_range, RangeParseResult};
use crate::response::{
    build_304_response_with_mtime, build_416_response, build_cached_response,
    build_partial_response, spec_content_range, spec_header_is, HttpResponse,
};
use crate::text::{spec_starts_with, str_starts_with, str_eq};

verus! {

/// `s` without its leading `'/'` characters.
pub open spec fn spec_strip_leading_slashes(s: Seq<char>) -> Seq<char>
    decreases s.len(),
{
    if s.len() > 0 && s[0] == '/' {
        spec_strip_leading_slashes(s.drop_first())
    } else {
        s
    }
}

/// `s` with every occurrence of `".."` removed, scanning left to right —
/// the effect of `str::replace("..", "")`.
pub open spec fn spec_remove_dotdot(s: Seq<char>) -> Seq<char>
    decreases s.len(),
{
    if s.len() >= 2 && s[0] == '.' && s[1] == '.' {
        spec_remove_dotdot(s.skip(2))
    } else if s.len() == 0 {
        s
    } else {
        seq![s[0]] + spec_remove_dotdot(s.drop_first())
    }
}

/// No two consecutive dots anywhere in `s`.
pub open spec fn spec_dotdot_free(s: Seq<char>) -> bool {
    forall|i: int| 0 <= i < s.len() - 1 ==> !(#[trigger] s[i] == '.' && s[i + 1] == '.')
}

/// Removing `".."` leaves no `".."` behind: the result is dot-dot free, and
/// it starts with a dot only where the input did.
pub proof fn lemma_remove_dotdot_free(s: Seq<char>)
    ensures
        spec_dotdot_free(spec_remove_dotdot(s)),
        spec_remove_dotdot(s).len() > 0 && spec_remove_dotdot(s)[0] == '.' ==> s.len() > 0 && s[0]
            == '.',
    decreases s.len(),
{
    if s.len() >= 2 && s[0] == '.' && s[1] == '.' {
        lemma_remove_dotdot_free(s.skip(2));
    } else if s.len() > 0 {
        lemma_remove_dotdot_free(s.drop_first());
        let tail = spec_remove_dotdot(s.drop_first());
        let r = seq![s[0]] + tail;
        assert forall|i: int| 0 <= i < r.len() - 1 implies !(#[trigger] r[i] == '.' && r[i + 1]
            == '.') by {
            if i == 0 {
                if r[0] == '.' && r[1] == '.' {
                    assert(tail[0] == '.');
                    assert(s.drop_first()[0] == '.');
                    assert(s.len() >= 2 && s[0] == '.' && s[1] == '.');
                }
            } else {
                assert(r[i] == tail[i - 1]);
                assert(r[i + 1] == tail[i]);
            }
        }
    }
}

fn strip_leading_slashes<'a>(s: &'a str) -> (r: &'a str)
    ensures
        r@ == spec_strip_leading_slashes(s@),
    decreases s@.len(),
{
    let len = s.unicode_len();
    if len > 0 && s.get_char(0) == '/' {
        let rest = s.substring_char(1, len);
        proof {
            assert(rest@ =~= s@.drop_first());
        }
        strip_leading_slashes(rest)
    } else {
        s
    }
}

fn remove_dotdot(s: &str) -> (r: String)
    ensures
        r@ == spec_remove_dotdot(s@),
    decreases s@.len(),
{
    let len = s.unicode_len();
    if len >= 2 && s.get_char(0) == '.' && s.get_char(1) == '.' {
        let rest = s.substring_char(2, len);
        proof {
            assert(rest@ =~= s@.skip(2));
        }
        remove_dotdot(rest)
    } else if len == 0 {
        String::new()
    } else {
        let head = s.substring_char(0, 1);
        let rest = s.substring_char(1, len);
        proof {
            assert(head@ =~= seq![s@[0]]);
            assert(rest@ =~= s@.drop_first());
        }
        let mut out = head.to_owned();
        out.append(remove_dotdot(rest).as_str());
        out
    }
}

/// `s` without `'/'` characters at either end — `str::trim_matches('/')`.
pub open spec fn spec_trim_slashes(s: Seq<char>) -> Seq<char> {
    spec_trim_slashes_end(spec_trim_slashes_start(s))
}

pub open spec fn spec_trim_slashes_start(s: Seq<char>) -> Seq<char>
    decreases s.len(),
{
    if s.len() > 0 && s[0] == '/' {
        spec_trim_slashes_start(s.drop_first())
    } else {
        s
    }
}

pub open spec fn spec_trim_slashes_end(s: Seq<char>) -> Seq<char>
    decreases s.len(),
{
    if s.len() > 0 && s.last() == '/' {
        spec_trim_slashes_end(s.drop_last())
    } else {
        s
    }
}

fn trim_slashes<'a>(s: &'a str) -> (r: &'a str)
    ensures
        r@ == spec_trim_slashes(s@),
{
    trim_slashes_end(strip_leading_slashes_named(s))
}

fn strip_leading_slashes_named<'a>(s: &'a str) -> (r: &'a str)
    ensures
        r@ == spec_trim_slashes_start(s@),
    decreases s@.len(),
{
    let len = s.unicode_len();
    if len > 0 && s.get_char(0) == '/' {
        let rest = s.substring_char(1, len);
        proof {
            assert(rest@ =~= s@.drop_first());
        }
        strip_leading_slashes_named(rest)
    } else {
        s
    }
}

fn trim_slashes_end<'a>(s: &'a str) -> (r: &'a str)
    ensures
        r@ == spec_trim_slashes_end(s@),
    decreases s@.len(),
{
    let len = s.unicode_len();
    if len > 0 && s.get_char(len - 1) == '/' {
        let rest = s.substring_char(0, len - 1);
        proof {
            assert(rest@ =~= s@.drop_last());
        }
        trim_slashes_end(rest)
    } else {
        s
    }
}

/// The defensively cleaned request path: leading slashes stripped, every
/// `".."` removed.
pub open spec fn spec_clean_path(path: Seq<char>) -> Seq<char> {
    spec_remove_dotdot(spec_strip_leading_slashes(path))
}

/// The path relative to the static root: the cleaned path, with the route
/// prefix (trimmed of slashes) and its following `'/'` stripped when
/// present.
pub open spec fn spec_relative_path(path: Seq<char>, route_prefix: Seq<char>) -> Seq<char> {
    let clean = spec_clean_path(path);
    let p = spec_trim_slashes(route_prefix);
    if p.len() == 0 {
        clean
    } else if spec_starts_with(clean, p + seq!['/']) {
        clean.skip(p.len() as int + 1)
    } else {
        clean
    }
}

/// Resolve the request path against a static root: the served location is
/// the root, a `'/'`, and the relative path.
pub fn resolve_file_path(static_dir: &str, path: &str, route_prefix: &str) -> (r: String)
    ensures
        r@ == static_dir@ + seq!['/'] + spec_relative_path(path@, route_prefix@),
{
    let clean = remove_dotdot(strip_leading_slashes(path));
    let p = trim_slashes(route_prefix);
    let relative: String = if p.unicode_len() == 0 {
        clean
    } else {
        let mut with_slash = p.to_owned();
        with_slash.append("/");
        proof {
            reveal_strlit("/");
            assert(with_slash@ =~= spec_trim_slashes(route_prefix@) + seq!['/']);
        }
        if str_starts_with(clean.as_str(), with_slash.as_str()) {
            let cl = clean.unicode_len();
            let pl = with_slash.unicode_len();
            let rest = clean.as_str().substring_char(pl, cl);
            proof {
                assert(rest@ =~= spec_clean_path(path@).skip(
                    spec_trim_slashes(route_prefix@).len() as int + 1,
                ));
            }
            rest.to_owned()
        } else {
            clean
        }
    };
    let mut out = static_dir.to_owned();
    out.append("/");
    out.append(relative.as_str());
    proof {
        reveal_strlit("/");
        assert(out@ =~= static_dir@ + seq!['/'] + spec_relative_path(path@, route_prefix@));
    }
    out
}

proof fn lemma_dotdot_free_subrange(s: Seq<char>, k: int)
    requires
        spec_dotdot_free(s),
        0 <= k <= s.len(),
    ensures
        spec_dotdot_free(s.skip(k)),
{
    assert forall|i: int| 0 <= i < s.skip(k).len() - 1 implies !(#[trigger] s.skip(k)[i] == '.'
        && s.skip(k)[i + 1] == '.') by {
        assert(s.skip(k)[i] == s[k + i]);
        assert(s.skip(k)[i + 1] == s[k + i + 1]);
    }
}

/// Path canonicalization safety: whatever the request path and route prefix,
/// the served location starts with the static root followed by `'/'`, and
/// the part after the root never contains `".."` — so the resolved path
/// cannot name anything outside the root.
pub proof fn lemma_no_path_traversal(static_dir: Seq<char>, path: Seq<char>, route_prefix: Seq<char>)
    ensures
        spec_starts_with(
            static_dir + seq!['/'] + spec_relative_path(path, route_prefix),
            static_dir + seq!['/'],
        ),
        spec_dotdot_free(spec_relative_path(path, route_prefix)),
{
    let joined = static_dir + seq!['/'] + spec_relative_path(path, route_prefix);
    let root = static_dir + seq!['/'];
    assert(joined.take(root.len() as int) =~= root);
    lemma_remove_dotdot_free(spec_strip_leading_slashes(path));
    let clean = spec_clean_path(path);
    let p = spec_trim_slashes(route_prefix);
    if p.len() != 0 && spec_starts_with(clean, p + seq!['/']) {
        lemma_dotdot_free_subrange(clean, p.len() as int + 1);
    }
}

/// Whether index-file resolution applies: the relative path is empty or
/// names a directory by its trailing slash. (A path that resolves to an
/// existing directory also qualifies; the caller checks that on disk.)
pub fn needs_index_lookup(relative: &str) -> (r: bool)
    ensures
        r == (relative@.len() == 0 || relative@.last() == '/'),
{
    let len = relative.unicode_len();
    len == 0 || relative.get_char(len - 1) == '/'
}

/// Whether a canonicalized candidate lies within a canonicalized root:
/// it is the root itself, or sits below it past a `'/'`.
pub fn is_path_within_root(root: &str, candidate: &str) -> (r: bool)
    ensures
        r == (candidate@ == root@ || (spec_starts_with(candidate@, root@) && candidate@.len()
            > root@.len() && candidate@[root@.len() as int] == '/')),
{
    if str_eq(candidate, root) {
        return true;
    }
    if !str_starts_with(candidate, root) {
        return false;
    }
    let rl = root.unicode_len();
    let cl = candidate.unicode_len();
    if cl > rl {
        candidate.get_char(rl) == '/'
    } else {
        false
    }
}

/// The quoted mtime validator used by the 304 fast path.
pub open spec fn spec_quoted_mtime_etag(mtime_secs: u64) -> Seq<char> {
    seq!['"'] + spec_hex(mtime_secs as nat) + seq!['"']
}

/// The mtime-first fast path: if the client's `If-Modified-Since` is no
/// older than the file's modification time, answer 304 — with a validator
/// derived from the mtime alone — before any content is read.
pub fn conditional_fast_path(if_modified_since: Option<&str>, mtime_secs: u64) -> (r: Option<
    HttpResponse,
>)
    ensures
        r is Some <==> (if_modified_since matches Some(h) && spec_parse_http_date(h@) matches Some(
            t,
        ) && mtime_secs <= t),
        r matches Some(resp) ==> resp.status == 304 && resp.body@.len() == 0 && spec_header_is(
            resp.headers@[0],
            "ETag"@,
            spec_quoted_mtime_etag(mtime_secs),
        ) && spec_header_is(resp.headers@[1], "Last-Modified"@, spec_http_date(mtime_secs as nat)),
{
    if check_not_modified_since(if_modified_since, mtime_secs) {
        let mut etag = "\"".to_owned();
        etag.append(mtime_to_etag(mtime_secs).as_str());
        etag.append("\"");
        proof {
            reveal_strlit("\"");
            assert(etag@ =~= spec_quoted_mtime_etag(mtime_secs));
        }
        let last_modified = format_http_date(mtime_secs);
        Some(build_304_response_with_mtime(etag.as_str(), last_modified.as_str()))
    } else {
        None
    }
}

/// A `Valid` parse names a range that lies within the file.
pub proof fn lemma_valid_range_bounds(h: Option<&str>, size: u64)
    ensures
        spec_parse_range(h, size) matches RangeParseResult::Valid(rr) ==> (rr.start < size
            && rr.start <= rr.spec_end_position(size) < size),
{
}

/// Build the response for a file's bytes: a satisfiable single `Range`
/// yields a 206 whose body is exactly the requested slice, an unsatisfiable
/// one a 416, anything else the full 200 — all with the caching headers.
pub fn build_static_file_response_with_mtime(
    data: &[u8],
    content_type: &str,
    etag: &str,
    last_modified: &str,
    is_head: bool,
    range_header: Option<&str>,
) -> (r: HttpResponse)
    ensures
        spec_parse_range(range_header, data@.len() as u64) matches RangeParseResult::Valid(rr)
            ==> r.status == 206 && (!is_head ==> r.body@ == data@.subrange(
            rr.start as int,
            rr.spec_end_position(data@.len() as u64) as int + 1,
        )) && (is_head ==> r.body@.len() == 0) && spec_header_is(
            r.headers@[2],
            "Content-Range"@,
            spec_content_range(
                rr.start,
                rr.spec_end_position(data@.len() as u64),
                data@.len() as u64,
            ),
        ),
        spec_parse_range(range_header, data@.len() as u64) is NotSatisfiable ==> r.status == 416,
        spec_parse_range(range_header, data@.len() as u64) is NoRange ==> r.status == 200 && (
        !is_head ==> r.body@ == data@) && (is_head ==> r.body@.len() == 0) && spec_header_is(
            r.headers@[3],
            "ETag"@,
            etag@,
        ),
{
    let total_size = data.len() as u64;
    proof {
        lemma_valid_range_bounds(range_header, total_size);
    }
    match parse_range_header(range_header, total_size) {
        RangeParseResult::Valid(range) => {
            let start = range.start;
            let end = range.end_position(total_size);
            proof {
                assert(start <= end < total_size);
            }
            let body = vstd::slice::slice_subrange(data, start as usize, end as usize + 1);
            build_partial_response(
                body,
                content_type,
                etag,
                Some(last_modified),
                start,
                end,
                total_size,
                is_head,
            )
        },
        RangeParseResult::NotSatisfiable => build_416_response(total_size),
        RangeParseResult::NoRange => build_cached_response(
            data,
            content_type,
            etag,
            Some(last_modified),
            is_head,
        ),
    }
}

/// Whether the client's `If-None-Match` matches the content validator; true
/// means the content path should answer 304.
pub fn content_etag_matches(if_none_match: Option<&str>, etag: &str) -> (r: bool)
    ensures
        r <==> (if_none_match matches Some(h) && spec_etag_list_match(h@, etag@)),
{
    check_etag_match(if_none_match, etag)
}

/// The built-in homepage served when no route matches.
pub fn get_default_homepage() -> (r: String)
    ensures
        r@ == "<!DOCTYPE html><html><head><meta charset=\"utf-8\"><title>YARHS</title></head><body><h1>YARHS</h1><p>Yet Another Rust HTTP Server</p></body></html>"@,
{
    "<!DOCTYPE html><html><head><meta charset=\"utf-8\"><title>YARHS</title></head><body><h1>YARHS</h1><p>Yet Another Rust HTTP Server</p></body></html>".to_owned()
}

} // verus!
