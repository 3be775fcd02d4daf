//! Content-Type selection from a file extension.

use vstd::prelude::*;
use crate::text::str_eq;

verus! {

/// The Content-Type served for a file extension; unknown or missing
/// extensions fall back to `application/octet-stream`.
pub open spec fn spec_content_type(extension: Option<&str>) -> Seq<char> {
    match extension {
        Some(e) => spec_content_type_of(e@),
        None => "application/octet-stream"@,
    }
}

pub open spec fn spec_content_type_of(e: Seq<char>) -> Seq<char> {
    if e == "html"@ || e == "htm"@ {
        "text/html; charset=utf-8"@
    } else if e == "css"@ {
        "text/css"@
    } else if e == "txt"@ || e == "md"@ {
        "text/plain; charset=utf-8"@
    } else if e == "xml"@ {
        "application/xml"@
    } else if e == "js"@ || e == "mjs"@ {
        "application/javascript"@
    } else if e == "json"@ {
        "application/json"@
    } else if e == "wasm"@ {
        "application/wasm"@
    } else if e == "png"@ {
        "image/png"@
    } else if e == "jpg"@ || e == "jpeg"@ {
        "image/jpeg"@
    } else if e == "gif"@ {
        "image/gif"@
    } else if e == "svg"@ {
        "image/svg+xml"@
    } else if e == "ico"@ {
        "image/x-icon"@
    } else if e == "webp"@ {
        "image/webp"@
    } else if e == "mp4"@ {
        "video/mp4"@
    } else if e == "webm"@ {
        "video/webm"@
    } else if e == "ogg"@ || e == "ogv"@ {
        "video/ogg"@
    } else if e == "mov"@ {
        "video/quicktime"@
    } else if e == "avi"@ {
        "video/x-msvideo"@
    } else if e == "mp3"@ {
        "audio/mpeg"@
    } else if e == "wav"@ {
        "audio/wav"@
    } else if e == "flac"@ {
        "audio/flac"@
    } else if e == "m4a"@ {
        "audio/mp4"@
    } else if e == "woff"@ {
        "font/woff"@
    } else if e == "woff2"@ {
        "font/woff2"@
    } else if e == "ttf"@ {
        "font/ttf"@
    } else if e == "otf"@ {
        "font/otf"@
    } else if e == "eot"@ {
        "application/vnd.ms-fontobject"@
    } else if e == "pdf"@ {
        "application/pdf"@
    } else if e == "zip"@ {
        "application/zip"@
    } else if e == "gz"@ || e == "gzip"@ {
        "application/gzip"@
    } else if e == "tar"@ {
        "application/x-tar"@
    } else {
        "application/octet-stream"@
    }
}

/// Map a file extension to the Content-Type to serve.
pub fn get_content_type(extension: Option<&str>) -> (r: &'static str)
    ensures
        r@ == spec_content_type(extension),
{
    let e = match extension {
        Some(e) => e,
        None => {
            return "application/octet-stream";
        },
    };
    if str_eq(e, "html") || str_eq(e, "htm") {
        "text/html; charset=utf-8"
    } else if str_eq(e, "css") {
        "text/css"
    } else if str_eq(e, "txt") || str_eq(e, "md") {
        "text/plain; charset=utf-8"
    } else if str_eq(e, "xml") {
        "application/xml"
    } else if str_eq(e, "js") || str_eq(e, "mjs") {
        "application/javascript"
    } else if str_eq(e, "json") {
        "application/json"
    } else if str_eq(e, "wasm") {
        "application/wasm"
    } else if str_eq(e, "png") {
        "image/png"
    } else if str_eq(e, "jpg") || str_eq(e, "jpeg") {
        "image/jpeg"
    } else if str_eq(e, "gif") {
        "image/gif"
    } else if str_eq(e, "svg") {
        "image/svg+xml"
    } else if str_eq(e, "ico") {
        "image/x-icon"
    } else if str_eq(e, "webp") {
        "image/webp"
    } else if str_eq(e, "mp4") {
        "video/mp4"
    } else if str_eq(e, "webm") {
        "video/webm"
    } else if str_eq(e, "ogg") || str_eq(e, "ogv") {
        "video/ogg"
    } else if str_eq(e, "mov") {
        "video/quicktime"
    } else if str_eq(e, "avi") {
        "video/x-msvideo"
    } else if str_eq(e, "mp3") {
        "audio/mpeg"
    } else if str_eq(e, "wav") {
        "audio/wav"
    } else if str_eq(e, "flac") {
        "audio/flac"
    } else if str_eq(e, "m4a") {
        "audio/mp4"
    } else if str_eq(e, "woff") {
        "font/woff"
    } else if str_eq(e, "woff2") {
        "font/woff2"
    } else if str_eq(e, "ttf") {
        "font/ttf"
    } else if str_eq(e, "otf") {
        "font/otf"
    } else if str_eq(e, "eot") {
        "application/vnd.ms-fontobject"
    } else if str_eq(e, "pdf") {
        "application/pdf"
    } else if str_eq(e, "zip") {
        "application/zip"
    } else if str_eq(e, "gz") || str_eq(e, "gzip") {
        "application/gzip"
    } else if str_eq(e, "tar") {
        "application/x-tar"
    } else {
        "application/octet-stream"
    }
}

} // verus!
