//! HTTP response descriptions.
//!
//! The verified pipeline produces an [`HttpResponse`] — status, header list
//! and body bytes — and the wire layer outside this crate turns it into the
//! HTTP library's response type. Each builder pins its status line, every
//! header it sets, and the exact body.

use vstd::prelude::*;
use vstd::slice::slice_to_vec;
use crate::numfmt::{spec_dec, u64_to_dec};

verus! {

/// A complete response: status code, headers in order, body bytes.
#[derive(Debug, Clone)]
pub struct HttpResponse {
    pub status: u16,
    pub headers: Vec<(String, String)>,
    pub body: Vec<u8>,
}

/// Whether a header pair has the given name and value.
pub open spec fn spec_header_is(h: (String, String), name: Seq<char>, value: Seq<char>) -> bool {
    h.0@ == name && h.1@ == value
}

impl HttpResponse {
    /// Whether some header has the given name and value.
    pub open spec fn spec_has_header(self, name: Seq<char>, value: Seq<char>) -> bool {
        exists|i: int|
            0 <= i < self.headers@.len() && spec_header_is(#[trigger] self.headers@[i], name, value)
    }

    /// Look up the first header with the given name.
    pub fn header_value(&self, name: &str) -> (r: Option<&String>)
        ensures
            r matches Some(v) ==> exists|i: int|
                0 <= i < self.headers@.len() && #[trigger] self.headers@[i].0@ == name@
                    && self.headers@[i].1 == v,
            r is None ==> forall|i: int|
                0 <= i < self.headers@.len() ==> #[trigger] self.headers@[i].0@ != name@,
    {
        let n = self.headers.len();
        let mut i: usize = 0;
        while i < n
            invariant
                0 <= i <= n,
                n == self.headers@.len(),
                forall|j: int| 0 <= j < i ==> #[trigger] self.headers@[j].0@ != name@,
            decreases n - i,
        {
            if crate::text::str_eq(self.headers[i].0.as_str(), name) {
                return Some(&self.headers[i].1);
            }
            i += 1;
        }
        None
    }
}

fn push_header(headers: &mut Vec<(String, String)>, name: &str, value: String)
    ensures
        final(headers)@.len() == old(headers)@.len() + 1,
        final(headers)@.drop_last() == old(headers)@,
        spec_header_is(final(headers)@.last(), name@, value@),
{
    headers.push((name.to_owned(), value));
}

/// 304 Not Modified, carrying the validator that matched.
pub fn build_304_response(etag: &str) -> (r: HttpResponse)
    ensures
        r.status == 304,
        r.body@.len() == 0,
        r.headers@.len() == 2,
        spec_header_is(r.headers@[0], "ETag"@, etag@),
        spec_header_is(r.headers@[1], "Cache-Control"@, "public, max-age=3600"@),
{
    let mut headers: Vec<(String, String)> = Vec::new();
    push_header(&mut headers, "ETag", etag.to_owned());
    push_header(&mut headers, "Cache-Control", "public, max-age=3600".to_owned());
    HttpResponse { status: 304, headers, body: Vec::new() }
}

/// 304 Not Modified with a `Last-Modified` date beside the validator.
pub fn build_304_response_with_mtime(etag: &str, last_modified: &str) -> (r: HttpResponse)
    ensures
        r.status == 304,
        r.body@.len() == 0,
        r.headers@.len() == 3,
        spec_header_is(r.headers@[0], "ETag"@, etag@),
        spec_header_is(r.headers@[1], "Last-Modified"@, last_modified@),
        spec_header_is(r.headers@[2], "Cache-Control"@, "public, max-age=3600"@),
{
    let mut headers: Vec<(String, String)> = Vec::new();
    push_header(&mut headers, "ETag", etag.to_owned());
    push_header(&mut headers, "Last-Modified", last_modified.to_owned());
    push_header(&mut headers, "Cache-Control", "public, max-age=3600".to_owned());
    HttpResponse { status: 304, headers, body: Vec::new() }
}

/// 404 Not Found with a plain-text reason body.
pub fn build_404_response() -> (r: HttpResponse)
    ensures
        r.status == 404,
        r.headers@.len() == 1,
        spec_header_is(r.headers@[0], "Content-Type"@, "text/plain"@),
        r.body@ == vstd::utf8::encode_utf8("404 Not Found"@),
{
    let mut headers: Vec<(String, String)> = Vec::new();
    push_header(&mut headers, "Content-Type", "text/plain".to_owned());
    HttpResponse { status: 404, headers, body: "404 Not Found".as_bytes_vec() }
}

/// 405 Method Not Allowed, naming the allowed methods.
pub fn build_405_response() -> (r: HttpResponse)
    ensures
        r.status == 405,
        r.headers@.len() == 2,
        spec_header_is(r.headers@[0], "Content-Type"@, "text/plain"@),
        spec_header_is(r.headers@[1], "Allow"@, "GET, HEAD, OPTIONS"@),
        r.body@ == vstd::utf8::encode_utf8("405 Method Not Allowed"@),
{
    let mut headers: Vec<(String, String)> = Vec::new();
    push_header(&mut headers, "Content-Type", "text/plain".to_owned());
    push_header(&mut headers, "Allow", "GET, HEAD, OPTIONS".to_owned());
    HttpResponse { status: 405, headers, body: "405 Method Not Allowed".as_bytes_vec() }
}

/// 204 for OPTIONS: `Allow` always, the CORS preflight headers only when
/// CORS is enabled.
pub fn build_options_response(enable_cors: bool) -> (r: HttpResponse)
    ensures
        r.status == 204,
        r.body@.len() == 0,
        spec_header_is(r.headers@[0], "Allow"@, "GET, HEAD, OPTIONS"@),
        enable_cors ==> r.headers@.len() == 5 && spec_header_is(
            r.headers@[1],
            "Access-Control-Allow-Origin"@,
            "*"@,
        ) && spec_header_is(r.headers@[2], "Access-Control-Allow-Methods"@, "GET, HEAD, OPTIONS"@)
            && spec_header_is(r.headers@[3], "Access-Control-Allow-Headers"@, "Content-Type, Range"@)
            && spec_header_is(r.headers@[4], "Access-Control-Max-Age"@, "86400"@),
        !enable_cors ==> r.headers@.len() == 1,
{
    let mut headers: Vec<(String, String)> = Vec::new();
    push_header(&mut headers, "Allow", "GET, HEAD, OPTIONS".to_owned());
    if enable_cors {
        push_header(&mut headers, "Access-Control-Allow-Origin", "*".to_owned());
        push_header(&mut headers, "Access-Control-Allow-Methods", "GET, HEAD, OPTIONS".to_owned());
        push_header(&mut headers, "Access-Control-Allow-Headers", "Content-Type, Range".to_owned());
        push_header(&mut headers, "Access-Control-Max-Age", "86400".to_owned());
    }
    HttpResponse { status: 204, headers, body: Vec::new() }
}

/// 413 Payload Too Large.
pub fn build_413_response() -> (r: HttpResponse)
    ensures
        r.status == 413,
        r.headers@.len() == 1,
        spec_header_is(r.headers@[0], "Content-Type"@, "text/plain"@),
        r.body@ == vstd::utf8::encode_utf8("413 Payload Too Large"@),
{
    let mut headers: Vec<(String, String)> = Vec::new();
    push_header(&mut headers, "Content-Type", "text/plain".to_owned());
    HttpResponse { status: 413, headers, body: "413 Payload Too Large".as_bytes_vec() }
}

/// 416 Range Not Satisfiable, with `Content-Range: bytes */<size>`.
pub fn build_416_response(file_size: u64) -> (r: HttpResponse)
    ensures
        r.status == 416,
        r.headers@.len() == 2,
        spec_header_is(r.headers@[0], "Content-Type"@, "text/plain"@),
        spec_header_is(r.headers@[1], "Content-Range"@, "bytes */"@ + spec_dec(file_size as nat)),
        r.body@ == vstd::utf8::encode_utf8("Range Not Satisfiable"@),
{
    let mut headers: Vec<(String, String)> = Vec::new();
    push_header(&mut headers, "Content-Type", "text/plain".to_owned());
    let mut range_val = "bytes */".to_owned();
    range_val.append(u64_to_dec(file_size).as_str());
    proof {
        assert(range_val@ =~= "bytes */"@ + spec_dec(file_size as nat));
    }
    push_header(&mut headers, "Content-Range", range_val);
    HttpResponse { status: 416, headers, body: "Range Not Satisfiable".as_bytes_vec() }
}

/// Redirect with an explicit status code and `Location`.
pub fn build_redirect_response_with_code(target: &str, code: u16) -> (r: HttpResponse)
    ensures
        r.status == code,
        r.headers@.len() == 2,
        spec_header_is(r.headers@[0], "Location"@, target@),
        spec_header_is(r.headers@[1], "Content-Type"@, "text/plain"@),
        r.body@ == vstd::utf8::encode_utf8("Redirecting..."@),
{
    let mut headers: Vec<(String, String)> = Vec::new();
    push_header(&mut headers, "Location", target.to_owned());
    push_header(&mut headers, "Content-Type", "text/plain".to_owned());
    HttpResponse { status: code, headers, body: "Redirecting...".as_bytes_vec() }
}

/// The 302 redirect of the legacy route table.
pub fn build_redirect_response(target: &str) -> (r: HttpResponse)
    ensures
        r.status == 302,
        r.headers@.len() == 2,
        spec_header_is(r.headers@[0], "Location"@, target@),
        spec_header_is(r.headers@[1], "Content-Type"@, "text/plain"@),
        r.body@ == vstd::utf8::encode_utf8("Redirecting..."@),
{
    build_redirect_response_with_code(target, 302)
}

/// 200 with an HTML body; a HEAD request gets the headers and no body.
pub fn build_html_response(content: String, is_head: bool) -> (r: HttpResponse)
    ensures
        r.status == 200,
        r.headers@.len() == 2,
        spec_header_is(r.headers@[0], "Content-Type"@, "text/html; charset=utf-8"@),
        spec_header_is(
            r.headers@[1],
            "Content-Length"@,
            spec_dec(vstd::utf8::encode_utf8(content@).len() as nat),
        ),
        !is_head ==> r.body@ == vstd::utf8::encode_utf8(content@),
        is_head ==> r.body@.len() == 0,
{
    let bytes = content.as_str().as_bytes();
    let content_length = bytes.len();
    let mut headers: Vec<(String, String)> = Vec::new();
    push_header(&mut headers, "Content-Type", "text/html; charset=utf-8".to_owned());
    push_header(&mut headers, "Content-Length", u64_to_dec(content_length as u64));
    let body: Vec<u8> = if is_head {
        Vec::new()
    } else {
        slice_to_vec(bytes)
    };
    HttpResponse { status: 200, headers, body }
}

/// 200 for a full file, with the caching headers: ETag, optional
/// `Last-Modified`, `Accept-Ranges`, and a `Content-Length` for the whole
/// content even on HEAD.
pub fn build_cached_response(
    data: &[u8],
    content_type: &str,
    etag: &str,
    last_modified: Option<&str>,
    is_head: bool,
) -> (r: HttpResponse)
    ensures
        r.status == 200,
        spec_header_is(r.headers@[0], "Content-Type"@, content_type@),
        spec_header_is(r.headers@[1], "Content-Length"@, spec_dec(data@.len() as nat)),
        spec_header_is(r.headers@[2], "Accept-Ranges"@, "bytes"@),
        spec_header_is(r.headers@[3], "ETag"@, etag@),
        spec_header_is(r.headers@[4], "Cache-Control"@, "public, max-age=3600"@),
        last_modified matches Some(lm) ==> r.headers@.len() == 6 && spec_header_is(
            r.headers@[5],
            "Last-Modified"@,
            lm@,
        ),
        last_modified is None ==> r.headers@.len() == 5,
        !is_head ==> r.body@ == data@,
        is_head ==> r.body@.len() == 0,
{
    let mut headers: Vec<(String, String)> = Vec::new();
    push_header(&mut headers, "Content-Type", content_type.to_owned());
    push_header(&mut headers, "Content-Length", u64_to_dec(data.len() as u64));
    push_header(&mut headers, "Accept-Ranges", "bytes".to_owned());
    push_header(&mut headers, "ETag", etag.to_owned());
    push_header(&mut headers, "Cache-Control", "public, max-age=3600".to_owned());
    if let Some(lm) = last_modified {
        push_header(&mut headers, "Last-Modified", lm.to_owned());
    }
    let body: Vec<u8> = if is_head {
        Vec::new()
    } else {
        slice_to_vec(data)
    };
    HttpResponse { status: 200, headers, body }
}

/// The `Content-Range` value `bytes <start>-<end>/<total>`.
pub open spec fn spec_content_range(start: u64, end: u64, total: u64) -> Seq<char> {
    "bytes "@ + spec_dec(start as nat) + seq!['-'] + spec_dec(end as nat) + seq!['/'] + spec_dec(
        total as nat,
    )
}

/// 206 Partial Content for the byte range `start..=end` of a `total`-byte
/// file. `data` is the already-sliced range body.
pub fn build_partial_response(
    data: &[u8],
    content_type: &str,
    etag: &str,
    last_modified: Option<&str>,
    start: u64,
    end: u64,
    total: u64,
    is_head: bool,
) -> (r: HttpResponse)
    requires
        start <= end < total,
    ensures
        r.status == 206,
        spec_header_is(r.headers@[0], "Content-Type"@, content_type@),
        spec_header_is(r.headers@[1], "Content-Length"@, spec_dec((end - start + 1) as nat)),
        spec_header_is(r.headers@[2], "Content-Range"@, spec_content_range(start, end, total)),
        spec_header_is(r.headers@[3], "Accept-Ranges"@, "bytes"@),
        spec_header_is(r.headers@[4], "ETag"@, etag@),
        spec_header_is(r.headers@[5], "Cache-Control"@, "public, max-age=3600"@),
        last_modified matches Some(lm) ==> r.headers@.len() == 7 && spec_header_is(
            r.headers@[6],
            "Last-Modified"@,
            lm@,
        ),
        last_modified is None ==> r.headers@.len() == 6,
        !is_head ==> r.body@ == data@,
        is_head ==> r.body@.len() == 0,
{
    let mut headers: Vec<(String, String)> = Vec::new();
    push_header(&mut headers, "Content-Type", content_type.to_owned());
    push_header(&mut headers, "Content-Length", u64_to_dec(end - start + 1));
    let mut range_val = "bytes ".to_owned();
    range_val.append(u64_to_dec(start).as_str());
    range_val.append("-");
    range_val.append(u64_to_dec(end).as_str());
    range_val.append("/");
    range_val.append(u64_to_dec(total).as_str());
    proof {
        reveal_strlit("-");
        reveal_strlit("/");
        assert(range_val@ =~= spec_content_range(start, end, total));
    }
    push_header(&mut headers, "Content-Range", range_val);
    push_header(&mut headers, "Accept-Ranges", "bytes".to_owned());
    push_header(&mut headers, "ETag", etag.to_owned());
    push_header(&mut headers, "Cache-Control", "public, max-age=3600".to_owned());
    if let Some(lm) = last_modified {
        push_header(&mut headers, "Last-Modified", lm.to_owned());
    }
    let body: Vec<u8> = if is_head {
        Vec::new()
    } else {
        slice_to_vec(data)
    };
    HttpResponse { status: 206, headers, body }
}

/// The response a `Direct` route action describes: the given status, an
/// optional body, and an optional content type.
pub fn build_direct_response(status: u16, body: Option<&str>, content_type: Option<&str>) -> (r:
    HttpResponse)
    ensures
        r.status == status,
        content_type matches Some(ct) ==> r.headers@.len() == 1 && spec_header_is(
            r.headers@[0],
            "Content-Type"@,
            ct@,
        ),
        content_type is None ==> r.headers@.len() == 0,
        body matches Some(b) ==> r.body@ == vstd::utf8::encode_utf8(b@),
        body is None ==> r.body@.len() == 0,
{
    let mut headers: Vec<(String, String)> = Vec::new();
    if let Some(ct) = content_type {
        push_header(&mut headers, "Content-Type", ct.to_owned());
    }
    let body_bytes: Vec<u8> = match body {
        Some(b) => b.as_bytes_vec(),
        None => Vec::new(),
    };
    HttpResponse { status, headers, body: body_bytes }
}

/// 200 with a plain-text body, for the health probes.
pub fn build_health_response(body: &str) -> (r: HttpResponse)
    ensures
        r.status == 200,
        r.headers@.len() == 1,
        spec_header_is(r.headers@[0], "Content-Type"@, "text/plain"@),
        r.body@ == vstd::utf8::encode_utf8(body@),
{
    let mut headers: Vec<(String, String)> = Vec::new();
    push_header(&mut headers, "Content-Type", "text/plain".to_owned());
    HttpResponse { status: 200, headers, body: body.as_bytes_vec() }
}

} // verus!
