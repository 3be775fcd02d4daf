//! Access log formatting: Apache combined, Common Log Format, JSON lines,
//! and custom patterns with `$variable` substitution.
//!
//! The entry's timestamp strings come from the wall clock and the local
//! time zone, so nothing is promised of their content; every other part of
//! a formatted line is pinned exactly.

use vstd::prelude::*;
use crate::numfmt::{spec_dec, u64_to_dec};
use crate::text::{spec_starts_with, str_eq, str_starts_with};

verus! {

/// How one character is written inside a JSON string.
pub open spec fn spec_escape_char(c: char) -> Seq<char> {
    if c == '\\' {
        seq!['\\', '\\']
    } else if c == '"' {
        seq!['\\', '"']
    } else if c == '\n' {
        seq!['\\', 'n']
    } else if c == '\r' {
        seq!['\\', 'r']
    } else if c == '\t' {
        seq!['\\', 't']
    } else {
        seq![c]
    }
}

/// A string with JSON string escapes applied.
pub open spec fn spec_escape_json(s: Seq<char>) -> Seq<char>
    decreases s.len(),
{
    if s.len() == 0 {
        s
    } else {
        spec_escape_char(s[0]) + spec_escape_json(s.drop_first())
    }
}

/// Escape the characters of `s` for inclusion in a JSON string literal.
pub fn escape_json(s: &str) -> (r: String)
    ensures
        r@ == spec_escape_json(s@),
    decreases s@.len(),
{
    let len = s.unicode_len();
    if len == 0 {
        return String::new();
    }
    let c = s.get_char(0);
    let rest = s.substring_char(1, len);
    proof {
        assert(rest@ =~= s@.drop_first());
    }
    let mut out: String = if c == '\\' {
        proof {
            reveal_strlit("\\\\");
        }
        let r = "\\\\".to_owned();
        proof {
            assert(r@ =~= spec_escape_char(c));
        }
        r
    } else if c == '"' {
        proof {
            reveal_strlit("\\\"");
        }
        let r = "\\\"".to_owned();
        proof {
            assert(r@ =~= spec_escape_char(c));
        }
        r
    } else if c == '\n' {
        proof {
            reveal_strlit("\\n");
        }
        let r = "\\n".to_owned();
        proof {
            assert(r@ =~= spec_escape_char(c));
        }
        r
    } else if c == '\r' {
        proof {
            reveal_strlit("\\r");
        }
        let r = "\\r".to_owned();
        proof {
            assert(r@ =~= spec_escape_char(c));
        }
        r
    } else if c == '\t' {
        proof {
            reveal_strlit("\\t");
        }
        let r = "\\t".to_owned();
        proof {
            assert(r@ =~= spec_escape_char(c));
        }
        r
    } else {
        let h = s.substring_char(0, 1);
        proof {
            assert(h@ =~= spec_escape_char(c));
        }
        h.to_owned()
    };
    out.append(escape_json(rest).as_str());
    out
}

/// `s` with every occurrence of `pat` replaced by `sub`, scanning left to
/// right — the effect of `str::replace`.
pub open spec fn spec_replace(s: Seq<char>, pat: Seq<char>, sub: Seq<char>) -> Seq<char>
    decreases s.len(),
    when pat.len() > 0
{
    if s.len() == 0 {
        s
    } else if spec_starts_with(s, pat) {
        sub + spec_replace(s.skip(pat.len() as int), pat, sub)
    } else {
        seq![s[0]] + spec_replace(s.drop_first(), pat, sub)
    }
}

/// Replace every occurrence of `pat` in `s` by `sub`.
pub fn replace_all(s: &str, pat: &str, sub: &str) -> (r: String)
    requires
        pat@.len() > 0,
    ensures
        r@ == spec_replace(s@, pat@, sub@),
    decreases s@.len(),
{
    let len = s.unicode_len();
    if len == 0 {
        return String::new();
    }
    if str_starts_with(s, pat) {
        let pl = pat.unicode_len();
        let rest = s.substring_char(pl, len);
        proof {
            assert(rest@ =~= s@.skip(pat@.len() as int));
        }
        let mut out = sub.to_owned();
        out.append(replace_all(rest, pat, sub).as_str());
        out
    } else {
        let head = s.substring_char(0, 1);
        let rest = s.substring_char(1, len);
        proof {
            assert(head@ =~= seq![s@[0]]);
            assert(rest@ =~= s@.drop_first());
        }
        let mut out = head.to_owned();
        out.append(replace_all(rest, pat, sub).as_str());
        out
    }
}

/// Everything one access-log line reports about a request.
#[derive(Debug, Clone)]
pub struct AccessLogEntry {
    /// Client IP address.
    pub remote_addr: String,
    /// Request timestamp in Common Log Format, from the local clock.
    pub time_local: String,
    /// Request timestamp in RFC 3339 form, from the local clock.
    pub time_iso8601: String,
    /// HTTP method.
    pub method: String,
    /// Request URI path.
    pub path: String,
    /// Query string without the leading `?`.
    pub query: Option<String>,
    /// HTTP version, e.g. `1.1`.
    pub http_version: String,
    /// Response status code.
    pub status: u16,
    /// Response body size in bytes.
    pub body_bytes: u64,
    /// Referer header.
    pub referer: Option<String>,
    /// User-Agent header.
    pub user_agent: Option<String>,
    /// Request processing time in microseconds.
    pub request_time_us: u64,
}

/// Relies on `chrono::Local::now` for the current local time; the reading
/// depends on the clock and time zone, so nothing is promised of it.
#[verifier::external_body]
fn local_now_clf() -> String {
    chrono::Local::now().format("%d/%b/%Y:%H:%M:%S %z").to_string()
}

/// Relies on `chrono::DateTime::to_rfc3339` via `chrono::Local::now`; the
/// reading depends on the clock and time zone, so nothing is promised.
#[verifier::external_body]
fn local_now_iso8601() -> String {
    chrono::Local::now().to_rfc3339()
}

impl AccessLogEntry {
    /// A fresh entry stamped with the current local time; counters start at
    /// their defaults and the optional fields empty.
    pub fn new(remote_addr: String, method: String, path: String) -> (r: AccessLogEntry)
        ensures
            r.remote_addr@ == remote_addr@,
            r.method@ == method@,
            r.path@ == path@,
            r.query is None,
            r.http_version@ == "1.1"@,
            r.status == 200,
            r.body_bytes == 0,
            r.referer is None,
            r.user_agent is None,
            r.request_time_us == 0,
    {
        AccessLogEntry {
            remote_addr,
            time_local: local_now_clf(),
            time_iso8601: local_now_iso8601(),
            method,
            path,
            query: None,
            http_version: "1.1".to_owned(),
            status: 200,
            body_bytes: 0,
            referer: None,
            user_agent: None,
            request_time_us: 0,
        }
    }

    /// The request URI with its query string, `path?query` or bare path.
    pub open spec fn spec_request_uri(self) -> Seq<char> {
        match self.query {
            Some(q) => self.path@ + seq!['?'] + q@,
            None => self.path@,
        }
    }

    /// The request line, `METHOD uri HTTP/version`.
    pub open spec fn spec_request_line(self) -> Seq<char> {
        self.method@ + seq![' '] + self.spec_request_uri() + " HTTP/"@ + self.http_version@
    }

    /// The Apache combined log line for this entry.
    pub open spec fn spec_combined(self) -> Seq<char> {
        self.remote_addr@ + " - - ["@ + self.time_local@ + "] \""@ + self.spec_request_line()
            + "\" "@ + spec_dec(self.status as nat) + seq![' '] + spec_dec(self.body_bytes as nat)
            + " \""@ + spec_opt_or_dash(self.referer) + "\" \""@ + spec_opt_or_dash(self.user_agent)
            + seq!['"']
    }

    /// The Common Log Format line for this entry.
    pub open spec fn spec_common(self) -> Seq<char> {
        self.remote_addr@ + " - - ["@ + self.time_local@ + "] \""@ + self.spec_request_line()
            + "\" "@ + spec_dec(self.status as nat) + seq![' '] + spec_dec(self.body_bytes as nat)
    }

    fn request_uri(&self) -> (r: String)
        ensures
            r@ == self.spec_request_uri(),
    {
        match &self.query {
            Some(q) => {
                let mut s = self.path.clone();
                s.append("?");
                s.append(q.as_str());
                proof {
                    reveal_strlit("?");
                    assert(s@ =~= self.spec_request_uri());
                }
                s
            },
            None => self.path.clone(),
        }
    }

    fn request_line(&self) -> (r: String)
        ensures
            r@ == self.spec_request_line(),
    {
        let mut s = self.method.clone();
        s.append(" ");
        s.append(self.request_uri().as_str());
        s.append(" HTTP/");
        s.append(self.http_version.as_str());
        proof {
            reveal_strlit(" ");
            assert(s@ =~= self.spec_request_line());
        }
        s
    }

    fn format_combined(&self) -> (r: String)
        ensures
            r@ == self.spec_combined(),
    {
        let mut s = self.remote_addr.clone();
        s.append(" - - [");
        s.append(self.time_local.as_str());
        s.append("] \"");
        s.append(self.request_line().as_str());
        s.append("\" ");
        s.append(u64_to_dec(self.status as u64).as_str());
        s.append(" ");
        s.append(u64_to_dec(self.body_bytes).as_str());
        s.append(" \"");
        s.append(opt_or_dash(&self.referer).as_str());
        s.append("\" \"");
        s.append(opt_or_dash(&self.user_agent).as_str());
        s.append("\"");
        proof {
            reveal_strlit(" ");
            reveal_strlit("\"");
            assert(s@ =~= self.spec_combined());
        }
        s
    }

    fn format_common(&self) -> (r: String)
        ensures
            r@ == self.spec_common(),
    {
        let mut s = self.remote_addr.clone();
        s.append(" - - [");
        s.append(self.time_local.as_str());
        s.append("] \"");
        s.append(self.request_line().as_str());
        s.append("\" ");
        s.append(u64_to_dec(self.status as u64).as_str());
        s.append(" ");
        s.append(u64_to_dec(self.body_bytes).as_str());
        proof {
            reveal_strlit(" ");
            assert(s@ =~= self.spec_common());
        }
        s
    }

    /// The JSON object line for this entry.
    pub open spec fn spec_json(self) -> Seq<char> {
        "{\"remote_addr\":\""@ + spec_escape_json(self.remote_addr@) + "\",\"time\":\""@
            + spec_escape_json(self.time_iso8601@) + "\",\"method\":\""@ + spec_escape_json(
            self.method@,
        ) + "\",\"path\":\""@ + spec_escape_json(self.path@) + "\",\"query\":"@
            + spec_opt_json_string(self.query) + ",\"http_version\":\""@ + spec_escape_json(
            self.http_version@,
        ) + "\",\"status\":"@ + spec_dec(self.status as nat) + ",\"body_bytes\":"@ + spec_dec(
            self.body_bytes as nat,
        ) + ",\"referer\":"@ + spec_opt_json_string(self.referer) + ",\"user_agent\":"@
            + spec_opt_json_string(self.user_agent) + ",\"request_time_us\":"@ + spec_dec(
            self.request_time_us as nat,
        ) + seq!['}']
    }

    fn format_json(&self) -> (r: String)
        ensures
            r@ == self.spec_json(),
    {
        let mut s = "{\"remote_addr\":\"".to_owned();
        s.append(escape_json(self.remote_addr.as_str()).as_str());
        s.append("\",\"time\":\"");
        s.append(escape_json(self.time_iso8601.as_str()).as_str());
        s.append("\",\"method\":\"");
        s.append(escape_json(self.method.as_str()).as_str());
        s.append("\",\"path\":\"");
        s.append(escape_json(self.path.as_str()).as_str());
        s.append("\",\"query\":");
        s.append(opt_json_string(&self.query).as_str());
        s.append(",\"http_version\":\"");
        s.append(escape_json(self.http_version.as_str()).as_str());
        s.append("\",\"status\":");
        s.append(u64_to_dec(self.status as u64).as_str());
        s.append(",\"body_bytes\":");
        s.append(u64_to_dec(self.body_bytes).as_str());
        s.append(",\"referer\":");
        s.append(opt_json_string(&self.referer).as_str());
        s.append(",\"user_agent\":");
        s.append(opt_json_string(&self.user_agent).as_str());
        s.append(",\"request_time_us\":");
        s.append(u64_to_dec(self.request_time_us).as_str());
        s.append("}");
        proof {
            reveal_strlit("}");
            assert(s@ =~= self.spec_json());
        }
        s
    }

    /// A custom pattern with every `$variable` substituted, longer names
    /// first so that no variable captures another's prefix.
    pub open spec fn spec_custom(self, pattern: Seq<char>) -> Seq<char> {
        let s1 = spec_replace(pattern, "$remote_addr"@, self.remote_addr@);
        let s2 = spec_replace(s1, "$time_local"@, self.time_local@);
        let s3 = spec_replace(s2, "$time_iso8601"@, self.time_iso8601@);
        let s4 = spec_replace(s3, "$request_time"@, spec_request_time_str(self.request_time_us));
        let s5 = spec_replace(s4, "$request_method"@, self.method@);
        let s6 = spec_replace(s5, "$request_uri"@, self.spec_request_uri());
        let s7 = spec_replace(s6, "$request"@, self.spec_request_line());
        let s8 = spec_replace(s7, "$status"@, spec_dec(self.status as nat));
        let s9 = spec_replace(s8, "$body_bytes_sent"@, spec_dec(self.body_bytes as nat));
        let s10 = spec_replace(s9, "$http_referer"@, spec_opt_or_dash(self.referer));
        spec_replace(s10, "$http_user_agent"@, spec_opt_or_dash(self.user_agent))
    }

    fn format_custom(&self, pattern: &str) -> (r: String)
        ensures
            r@ == self.spec_custom(pattern@),
    {
        proof {
            reveal_strlit("$remote_addr");
            reveal_strlit("$time_local");
            reveal_strlit("$time_iso8601");
            reveal_strlit("$request_time");
            reveal_strlit("$request_method");
            reveal_strlit("$request_uri");
            reveal_strlit("$request");
            reveal_strlit("$status");
            reveal_strlit("$body_bytes_sent");
            reveal_strlit("$http_referer");
            reveal_strlit("$http_user_agent");
        }
        let s1 = replace_all(pattern, "$remote_addr", self.remote_addr.as_str());
        let s2 = replace_all(s1.as_str(), "$time_local", self.time_local.as_str());
        let s3 = replace_all(s2.as_str(), "$time_iso8601", self.time_iso8601.as_str());
        let s4 = replace_all(
            s3.as_str(),
            "$request_time",
            request_time_str(self.request_time_us).as_str(),
        );
        let s5 = replace_all(s4.as_str(), "$request_method", self.method.as_str());
        let s6 = replace_all(s5.as_str(), "$request_uri", self.request_uri().as_str());
        let s7 = replace_all(s6.as_str(), "$request", self.request_line().as_str());
        let s8 = replace_all(s7.as_str(), "$status", u64_to_dec(self.status as u64).as_str());
        let s9 = replace_all(
            s8.as_str(),
            "$body_bytes_sent",
            u64_to_dec(self.body_bytes).as_str(),
        );
        let s10 = replace_all(s9.as_str(), "$http_referer", opt_or_dash(&self.referer).as_str());
        replace_all(s10.as_str(), "$http_user_agent", opt_or_dash(&self.user_agent).as_str())
    }

    /// The line this entry formats to under the given template: `combined`,
    /// `common` and `json` select the fixed formats, anything else is a
    /// custom pattern.
    pub open spec fn spec_format(self, format: Seq<char>) -> Seq<char> {
        if format == "combined"@ {
            self.spec_combined()
        } else if format == "common"@ {
            self.spec_common()
        } else if format == "json"@ {
            self.spec_json()
        } else {
            self.spec_custom(format)
        }
    }

    /// Format this entry under the given template name or pattern.
    pub fn format(&self, format: &str) -> (r: String)
        ensures
            r@ == self.spec_format(format@),
    {
        if str_eq(format, "combined") {
            self.format_combined()
        } else if str_eq(format, "common") {
            self.format_common()
        } else if str_eq(format, "json") {
            self.format_json()
        } else {
            self.format_custom(format)
        }
    }
}

/// An optional header value, or `-` when absent.
pub open spec fn spec_opt_or_dash(o: Option<String>) -> Seq<char> {
    match o {
        Some(v) => v@,
        None => seq!['-'],
    }
}

fn opt_or_dash(o: &Option<String>) -> (r: String)
    ensures
        r@ == spec_opt_or_dash(*o),
{
    match o {
        Some(v) => v.clone(),
        None => {
            proof {
                reveal_strlit("-");
            }
            let r = "-".to_owned();
            proof {
                assert(r@ =~= seq!['-']);
            }
            r
        },
    }
}

/// An optional string as a JSON value: quoted and escaped, or `null`.
pub open spec fn spec_opt_json_string(o: Option<String>) -> Seq<char> {
    match o {
        Some(v) => seq!['"'] + spec_escape_json(v@) + seq!['"'],
        None => "null"@,
    }
}

fn opt_json_string(o: &Option<String>) -> (r: String)
    ensures
        r@ == spec_opt_json_string(*o),
{
    match o {
        Some(v) => {
            let mut s = "\"".to_owned();
            s.append(escape_json(v.as_str()).as_str());
            s.append("\"");
            proof {
                reveal_strlit("\"");
                assert(s@ =~= spec_opt_json_string(*o));
            }
            s
        },
        None => "null".to_owned(),
    }
}

/// The `$request_time` rendering: seconds with three decimals, rounded to
/// the nearest millisecond (half up), saturating at the `u64` limit.
pub open spec fn spec_request_time_str(us: u64) -> Seq<char> {
    let total_ms = (if us + 500 > u64::MAX {
        u64::MAX as nat
    } else {
        (us + 500) as nat
    }) / 1000;
    spec_dec(total_ms / 1000) + seq!['.'] + spec_three_dec(total_ms % 1000)
}

/// A number under 1000 rendered as exactly three digits.
pub open spec fn spec_three_dec(n: nat) -> Seq<char> {
    if n < 10 {
        seq!['0', '0'] + spec_dec(n)
    } else if n < 100 {
        seq!['0'] + spec_dec(n)
    } else {
        spec_dec(n)
    }
}

fn three_dec(n: u64) -> (r: String)
    requires
        n < 1000,
    ensures
        r@ == spec_three_dec(n as nat),
{
    proof {
        reveal_strlit("0");
        reveal_strlit("00");
    }
    if n < 10 {
        let mut s = "00".to_owned();
        s.append(u64_to_dec(n).as_str());
        proof {
            assert(s@ =~= spec_three_dec(n as nat));
        }
        s
    } else if n < 100 {
        let mut s = "0".to_owned();
        s.append(u64_to_dec(n).as_str());
        proof {
            assert(s@ =~= spec_three_dec(n as nat));
        }
        s
    } else {
        u64_to_dec(n)
    }
}

fn request_time_str(us: u64) -> (r: String)
    ensures
        r@ == spec_request_time_str(us),
{
    let total_ms = us.saturating_add(500) / 1000;
    let mut s = u64_to_dec(total_ms / 1000);
    s.append(".");
    s.append(three_dec(total_ms % 1000).as_str());
    proof {
        reveal_strlit(".");
        assert(s@ =~= spec_request_time_str(us));
    }
    s
}

} // verus!
