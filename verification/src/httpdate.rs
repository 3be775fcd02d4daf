//! RFC 7231 HTTP dates: rendering, parsing, and the `If-Modified-Since`
//! comparison.
//!
//! Time is carried as whole seconds since the Unix epoch; HTTP dates have
//! second granularity, so a file's modification time is truncated to seconds
//! before any comparison. The calendar arithmetic is pinned by
//! `spec_ymd_to_days`: the date components a day count resolves to are
//! exactly the ones that map back to that day count.

use vstd::prelude::*;
use crate::numfmt::{parse_u64_dec, spec_dec, spec_parsed_u64, spec_parses_as_u64, u64_to_dec};
use crate::text::{spec_split_char, spec_split_ws, split_char, split_ws, str_eq};

verus! {

pub open spec fn spec_is_leap_year(y: nat) -> bool {
    (y % 4 == 0 && y % 100 != 0) || y % 400 == 0
}

pub open spec fn spec_days_in_year(y: nat) -> nat {
    if spec_is_leap_year(y) {
        366
    } else {
        365
    }
}

pub open spec fn spec_days_in_month(y: nat, m: nat) -> nat {
    if m == 1 {
        31
    } else if m == 2 {
        if spec_is_leap_year(y) {
            29
        } else {
            28
        }
    } else if m == 3 {
        31
    } else if m == 4 {
        30
    } else if m == 5 {
        31
    } else if m == 6 {
        30
    } else if m == 7 {
        31
    } else if m == 8 {
        31
    } else if m == 9 {
        30
    } else if m == 10 {
        31
    } else if m == 11 {
        30
    } else {
        31
    }
}

/// Walk years forward from `y` until fewer than a year of days remains;
/// yields the year and the remaining days within it.
pub open spec fn spec_year_split(days: nat, y: nat) -> (nat, nat)
    decreases days,
{
    if days < spec_days_in_year(y) {
        (y, days)
    } else {
        spec_year_split((days - spec_days_in_year(y)) as nat, y + 1)
    }
}

/// Walk months forward from `m` (1-based) until fewer than a month of days
/// remains; yields the month and the zero-based day within it.
pub open spec fn spec_month_split(rem: nat, y: nat, m: nat) -> (nat, nat)
    decreases 12 - m,
{
    if m >= 12 || rem < spec_days_in_month(y, m) {
        (m, rem)
    } else {
        spec_month_split((rem - spec_days_in_month(y, m)) as nat, y, m + 1)
    }
}

/// Days from the epoch to the start of year `y` (zero at or before 1970).
pub open spec fn spec_days_before_year(y: nat) -> nat
    decreases y,
{
    if y <= 1970 {
        0
    } else {
        spec_days_before_year((y - 1) as nat) + spec_days_in_year((y - 1) as nat)
    }
}

/// Days from the start of year `y` to the start of month `m` (1-based).
pub open spec fn spec_days_before_month(y: nat, m: nat) -> nat
    decreases m,
{
    if m <= 1 {
        0
    } else {
        spec_days_before_month(y, (m - 1) as nat) + spec_days_in_month(y, (m - 1) as nat)
    }
}

/// The day count of a calendar date: years before, months before, days into
/// the month.
pub open spec fn spec_ymd_to_days(y: nat, m: nat, d: nat) -> nat {
    spec_days_before_year(y) + spec_days_before_month(y, m) + ((d - 1) as nat)
}

proof fn lemma_year_split_inverse(days: nat, y: nat)
    requires
        y >= 1970,
    ensures
        spec_year_split(days, y).0 >= y,
        spec_year_split(days, y).1 < spec_days_in_year(spec_year_split(days, y).0),
        spec_days_before_year(spec_year_split(days, y).0) + spec_year_split(days, y).1
            == spec_days_before_year(y) + days,
    decreases days,
{
    if days >= spec_days_in_year(y) {
        lemma_year_split_inverse((days - spec_days_in_year(y)) as nat, y + 1);
    }
}

proof fn lemma_month_split_inverse(rem: nat, y: nat, m: nat)
    requires
        1 <= m <= 12,
    ensures
        m <= spec_month_split(rem, y, m).0 <= 12,
        spec_days_before_month(y, spec_month_split(rem, y, m).0) + spec_month_split(rem, y, m).1
            == spec_days_before_month(y, m) + rem,
    decreases 12 - m,
{
    if !(m >= 12 || rem < spec_days_in_month(y, m)) {
        lemma_month_split_inverse((rem - spec_days_in_month(y, m)) as nat, y, m + 1);
    }
}

proof fn lemma_month_sum_is_year(y: nat)
    ensures
        spec_days_before_month(y, 13) == spec_days_in_year(y),
{
    reveal_with_fuel(spec_days_before_month, 14);
}

proof fn lemma_month_split_day_bound(rem: nat, y: nat, m: nat)
    requires
        1 <= m <= 12,
        spec_days_before_month(y, m) + rem < spec_days_in_year(y),
    ensures
        spec_month_split(rem, y, m).1 < spec_days_in_month(y, spec_month_split(rem, y, m).0),
    decreases 12 - m,
{
    if m >= 12 || rem < spec_days_in_month(y, m) {
        if rem >= spec_days_in_month(y, m) {
            lemma_month_sum_is_year(y);
            assert(spec_days_before_month(y, 13) == spec_days_before_month(y, 12)
                + spec_days_in_month(y, 12));
        }
    } else {
        lemma_month_split_day_bound((rem - spec_days_in_month(y, m)) as nat, y, m + 1);
    }
}

fn is_leap_year(year: u64) -> (r: bool)
    ensures
        r == spec_is_leap_year(year as nat),
{
    (year % 4 == 0 && year % 100 != 0) || year % 400 == 0
}

fn days_in_year(year: u64) -> (r: u64)
    ensures
        r == spec_days_in_year(year as nat),
{
    if is_leap_year(year) {
        366
    } else {
        365
    }
}

fn days_in_month(year: u64, month: u64) -> (r: u64)
    ensures
        r == spec_days_in_month(year as nat, month as nat),
{
    if month == 1 {
        31
    } else if month == 2 {
        if is_leap_year(year) {
            29
        } else {
            28
        }
    } else if month == 3 {
        31
    } else if month == 4 {
        30
    } else if month == 5 {
        31
    } else if month == 6 {
        30
    } else if month == 7 {
        31
    } else if month == 8 {
        31
    } else if month == 9 {
        30
    } else if month == 10 {
        31
    } else if month == 11 {
        30
    } else {
        31
    }
}

fn year_split(days: u64, y: u64) -> (r: (u64, u64))
    requires
        y as nat + days as nat <= u64::MAX,
    ensures
        (r.0 as nat, r.1 as nat) == spec_year_split(days as nat, y as nat),
    decreases days,
{
    let diy = days_in_year(y);
    if days < diy {
        (y, days)
    } else {
        year_split(days - diy, y + 1)
    }
}

fn month_split(rem: u64, y: u64, m: u64) -> (r: (u64, u64))
    requires
        1 <= m <= 12,
    ensures
        (r.0 as nat, r.1 as nat) == spec_month_split(rem as nat, y as nat, m as nat),
    decreases 12 - m,
{
    let dim = days_in_month(y, m);
    if m >= 12 || rem < dim {
        (m, rem)
    } else {
        month_split(rem - dim, y, m + 1)
    }
}

/// Resolve a day count since the epoch to `(year, month, day, weekday)`.
/// The triple is pinned by mapping back: `spec_ymd_to_days` of the result
/// is the input again, and the day lies within its month.
pub fn days_to_ymd_weekday(days: u64) -> (r: (u64, usize, u64, usize))
    requires
        days as nat + 1970 <= u64::MAX,
    ensures
        (r.0 as nat, r.1 as nat) == spec_year_month_of(days as nat),
        r.2 as nat == spec_day_of(days as nat),
        spec_ymd_to_days(r.0 as nat, r.1 as nat, r.2 as nat) == days,
        1970 <= r.0,
        1 <= r.1 <= 12,
        1 <= r.2 <= spec_days_in_month(r.0 as nat, r.1 as nat),
        r.3 == (days as nat + 4) % 7,
{
    let (year, rem) = year_split(days, 1970);
    proof {
        lemma_year_split_inverse(days as nat, 1970);
    }
    let (month, d0) = month_split(rem, year, 1);
    proof {
        lemma_month_split_inverse(rem as nat, year as nat, 1);
        lemma_month_split_day_bound(rem as nat, year as nat, 1);
    }
    let day = d0 + 1;
    let weekday = ((days % 7 + 4) % 7) as usize;
    proof {
        assert((days as nat % 7 + 4) % 7 == (days as nat + 4) % 7) by (nonlinear_arith);
    }
    (year, month as usize, day, weekday)
}

/// The year and month a day count falls in.
pub open spec fn spec_year_month_of(days: nat) -> (nat, nat) {
    let (y, rem) = spec_year_split(days, 1970);
    let (m, d0) = spec_month_split(rem, y, 1);
    (y, m)
}

/// The one-based day of the month a day count falls on.
pub open spec fn spec_day_of(days: nat) -> nat {
    let (y, rem) = spec_year_split(days, 1970);
    let (m, d0) = spec_month_split(rem, y, 1);
    d0 + 1
}

pub open spec fn spec_weekday_name(wd: nat) -> Seq<char> {
    if wd == 0 {
        "Sun"@
    } else if wd == 1 {
        "Mon"@
    } else if wd == 2 {
        "Tue"@
    } else if wd == 3 {
        "Wed"@
    } else if wd == 4 {
        "Thu"@
    } else if wd == 5 {
        "Fri"@
    } else {
        "Sat"@
    }
}

pub open spec fn spec_month_name(m: nat) -> Seq<char> {
    if m == 1 {
        "Jan"@
    } else if m == 2 {
        "Feb"@
    } else if m == 3 {
        "Mar"@
    } else if m == 4 {
        "Apr"@
    } else if m == 5 {
        "May"@
    } else if m == 6 {
        "Jun"@
    } else if m == 7 {
        "Jul"@
    } else if m == 8 {
        "Aug"@
    } else if m == 9 {
        "Sep"@
    } else if m == 10 {
        "Oct"@
    } else if m == 11 {
        "Nov"@
    } else {
        "Dec"@
    }
}

/// A number under 100 rendered as exactly two digits.
pub open spec fn spec_two_dec(n: nat) -> Seq<char> {
    if n < 10 {
        seq!['0'] + spec_dec(n)
    } else {
        spec_dec(n)
    }
}

fn weekday_name(wd: usize) -> (r: &'static str)
    requires
        wd < 7,
    ensures
        r@ == spec_weekday_name(wd as nat),
{
    if wd == 0 {
        "Sun"
    } else if wd == 1 {
        "Mon"
    } else if wd == 2 {
        "Tue"
    } else if wd == 3 {
        "Wed"
    } else if wd == 4 {
        "Thu"
    } else if wd == 5 {
        "Fri"
    } else {
        "Sat"
    }
}

fn month_name(m: usize) -> (r: &'static str)
    requires
        1 <= m <= 12,
    ensures
        r@ == spec_month_name(m as nat),
{
    if m == 1 {
        "Jan"
    } else if m == 2 {
        "Feb"
    } else if m == 3 {
        "Mar"
    } else if m == 4 {
        "Apr"
    } else if m == 5 {
        "May"
    } else if m == 6 {
        "Jun"
    } else if m == 7 {
        "Jul"
    } else if m == 8 {
        "Aug"
    } else if m == 9 {
        "Sep"
    } else if m == 10 {
        "Oct"
    } else if m == 11 {
        "Nov"
    } else {
        "Dec"
    }
}

fn two_dec(n: u64) -> (r: String)
    requires
        n < 100,
    ensures
        r@ == spec_two_dec(n as nat),
{
    if n < 10 {
        proof {
            reveal_strlit("0");
        }
        let mut s = "0".to_owned();
        s.append(u64_to_dec(n).as_str());
        proof {
            assert(s@ =~= spec_two_dec(n as nat));
        }
        s
    } else {
        u64_to_dec(n)
    }
}

/// The RFC 7231 rendering of a time in whole seconds since the epoch, e.g.
/// `Sun, 06 Nov 1994 08:49:37 GMT`.
pub open spec fn spec_http_date(secs: nat) -> Seq<char> {
    let days = secs / 86400;
    let tod = secs % 86400;
    let (y, m) = spec_year_month_of(days);
    let d = (spec_year_split(days, 1970).1 - spec_days_before_month(y, m) + 1) as nat;
    spec_weekday_name((days + 4) % 7) + ", "@ + spec_two_dec(spec_http_day(secs)) + " "@
        + spec_month_name(m) + " "@ + spec_dec(y) + " "@ + spec_two_dec(tod / 3600) + ":"@
        + spec_two_dec((tod % 3600) / 60) + ":"@ + spec_two_dec(tod % 60) + " GMT"@
}

/// The day-of-month of a time in seconds since the epoch.
pub open spec fn spec_http_day(secs: nat) -> nat {
    spec_day_of(secs / 86400)
}

/// Render a time as an RFC 7231 HTTP date.
pub fn format_http_date(secs: u64) -> (r: String)
    ensures
        r@ == spec_http_date(secs as nat),
{
    let days = secs / 86400;
    let tod = secs % 86400;
    let hours = tod / 3600;
    let minutes = (tod % 3600) / 60;
    let seconds = tod % 60;
    proof {
        assert(tod < 86400);
        assert(hours < 24) by (nonlinear_arith)
            requires
                tod < 86400,
                hours == tod / 3600,
        ;
        assert(minutes < 60) by (nonlinear_arith)
            requires
                minutes == (tod % 3600) / 60,
        ;
        assert(days as nat + 1970 <= u64::MAX) by (nonlinear_arith)
            requires
                days == secs / 86400,
        ;
    }
    let (year, month, day, weekday) = days_to_ymd_weekday(days);
    proof {
        assert(day == spec_http_day(secs as nat));
    }
    let mut out = weekday_name(weekday).to_owned();
    out.append(", ");
    out.append(two_dec(day).as_str());
    out.append(" ");
    out.append(month_name(month));
    out.append(" ");
    out.append(u64_to_dec(year).as_str());
    out.append(" ");
    out.append(two_dec(hours).as_str());
    out.append(":");
    out.append(two_dec(minutes).as_str());
    out.append(":");
    out.append(two_dec(seconds).as_str());
    out.append(" GMT");
    proof {
        assert(out@ =~= spec_http_date(secs as nat));
    }
    out
}

/// The month number a token names, if it is one of the twelve English
/// abbreviations.
pub open spec fn spec_month_num(tok: Seq<char>) -> Option<nat> {
    if tok == "Jan"@ {
        Some(1 as nat)
    } else if tok == "Feb"@ {
        Some(2 as nat)
    } else if tok == "Mar"@ {
        Some(3 as nat)
    } else if tok == "Apr"@ {
        Some(4 as nat)
    } else if tok == "May"@ {
        Some(5 as nat)
    } else if tok == "Jun"@ {
        Some(6 as nat)
    } else if tok == "Jul"@ {
        Some(7 as nat)
    } else if tok == "Aug"@ {
        Some(8 as nat)
    } else if tok == "Sep"@ {
        Some(9 as nat)
    } else if tok == "Oct"@ {
        Some(10 as nat)
    } else if tok == "Nov"@ {
        Some(11 as nat)
    } else if tok == "Dec"@ {
        Some(12 as nat)
    } else {
        None
    }
}

fn month_num(tok: &str) -> (r: Option<u64>)
    ensures
        r is Some <==> spec_month_num(tok@) is Some,
        r matches Some(m) ==> Some(m as nat) == spec_month_num(tok@),
{
    if str_eq(tok, "Jan") {
        Some(1)
    } else if str_eq(tok, "Feb") {
        Some(2)
    } else if str_eq(tok, "Mar") {
        Some(3)
    } else if str_eq(tok, "Apr") {
        Some(4)
    } else if str_eq(tok, "May") {
        Some(5)
    } else if str_eq(tok, "Jun") {
        Some(6)
    } else if str_eq(tok, "Jul") {
        Some(7)
    } else if str_eq(tok, "Aug") {
        Some(8)
    } else if str_eq(tok, "Sep") {
        Some(9)
    } else if str_eq(tok, "Oct") {
        Some(10)
    } else if str_eq(tok, "Nov") {
        Some(11)
    } else {
        if str_eq(tok, "Dec") {
            Some(12)
        } else {
            None
        }
    }
}

/// The seconds-since-epoch a well-formed HTTP date denotes: six
/// whitespace-separated tokens (weekday and `GMT` tokens unchecked), a
/// numeric day of at least 1, a month abbreviation, a numeric year, and an
/// `HH:MM:SS` time. `None` for anything else, and for a value past `u64`.
pub open spec fn spec_parse_http_date(s: Seq<char>) -> Option<u64> {
    let toks = spec_split_ws(s);
    if toks.len() != 6 {
        None
    } else if !spec_parses_as_u64(toks[1]) {
        None
    } else if spec_month_num(toks[2]) is None {
        None
    } else if !spec_parses_as_u64(toks[3]) {
        None
    } else {
        let tp = spec_split_char(toks[4], ':');
        if tp.len() != 3 {
            None
        } else if !(spec_parses_as_u64(tp[0]) && spec_parses_as_u64(tp[1]) && spec_parses_as_u64(
            tp[2],
        )) {
            None
        } else if spec_parsed_u64(toks[1]) == 0 {
            None
        } else {
            let day = spec_parsed_u64(toks[1]);
            let month = spec_month_num(toks[2])->0;
            let year = spec_parsed_u64(toks[3]);
            let total = spec_ymd_to_days(year, month, day) * 86400 + spec_parsed_u64(tp[0]) * 3600
                + spec_parsed_u64(tp[1]) * 60 + spec_parsed_u64(tp[2]);
            if total > u64::MAX {
                None
            } else {
                Some(total as u64)
            }
        }
    }
}

proof fn lemma_days_before_year_mono(a: nat, b: nat)
    requires
        a <= b,
    ensures
        spec_days_before_year(a) <= spec_days_before_year(b),
    decreases b,
{
    if a < b {
        lemma_days_before_year_mono(a, (b - 1) as nat);
    }
}

fn days_before_year_checked(y: u64) -> (r: Option<u64>)
    ensures
        r matches Some(v) ==> v == spec_days_before_year(y as nat),
        r is None ==> spec_days_before_year(y as nat) > u64::MAX,
{
    if y <= 1970 {
        return Some(0);
    }
    let mut acc: u64 = 0;
    let mut yy: u64 = 1970;
    while yy < y
        invariant
            1970 <= yy <= y,
            acc == spec_days_before_year(yy as nat),
        decreases y - yy,
    {
        let step = acc.checked_add(days_in_year(yy));
        if step.is_none() {
            proof {
                assert(spec_days_before_year((yy + 1) as nat) > u64::MAX);
                lemma_days_before_year_mono((yy + 1) as nat, y as nat);
            }
            return None;
        }
        acc = step.unwrap();
        yy += 1;
    }
    Some(acc)
}

proof fn lemma_days_before_month_bound(y: nat, m: nat)
    ensures
        spec_days_before_month(y, m) <= 31 * m,
    decreases m,
{
    if m > 1 {
        lemma_days_before_month_bound(y, (m - 1) as nat);
    }
}

fn days_before_month(y: u64, m: u64) -> (r: u64)
    requires
        1 <= m <= 12,
    ensures
        r == spec_days_before_month(y as nat, m as nat),
{
    let mut acc: u64 = 0;
    let mut mm: u64 = 1;
    while mm < m
        invariant
            1 <= mm <= m <= 12,
            acc == spec_days_before_month(y as nat, mm as nat),
        decreases m - mm,
    {
        proof {
            lemma_days_before_month_bound(y as nat, mm as nat);
        }
        acc = acc + days_in_month(y, mm);
        mm += 1;
    }
    acc
}

/// Parse an RFC 7231 HTTP date to seconds since the epoch. Exactly the
/// strings `spec_parse_http_date` accepts are accepted, with its value.
pub fn parse_http_date(date_str: &str) -> (r: Option<u64>)
    ensures
        r == spec_parse_http_date(date_str@),
{
    let parts = split_ws(date_str);
    if parts.len() != 6 {
        return None;
    }
    let day = match parse_u64_dec(parts[1].as_str()) {
        Some(v) => v,
        None => {
            return None;
        },
    };
    let month = match month_num(parts[2].as_str()) {
        Some(m) => m,
        None => {
            return None;
        },
    };
    let year = match parse_u64_dec(parts[3].as_str()) {
        Some(v) => v,
        None => {
            return None;
        },
    };
    let time_parts = split_char(parts[4].as_str(), ':');
    if time_parts.len() != 3 {
        return None;
    }
    let hours = match parse_u64_dec(time_parts[0].as_str()) {
        Some(v) => v,
        None => {
            return None;
        },
    };
    let minutes = match parse_u64_dec(time_parts[1].as_str()) {
        Some(v) => v,
        None => {
            return None;
        },
    };
    let seconds = match parse_u64_dec(time_parts[2].as_str()) {
        Some(v) => v,
        None => {
            return None;
        },
    };
    if day == 0 {
        return None;
    }
    let ghost toks = spec_split_ws(date_str@);
    let ghost total = spec_ymd_to_days(year as nat, month as nat, day as nat) * 86400 + (
    hours as nat) * 3600 + (minutes as nat) * 60 + (seconds as nat);
    let before_year = match days_before_year_checked(year) {
        Some(v) => v,
        None => {
            proof {
                assert(total > u64::MAX);
            }
            return None;
        },
    };
    let before_month = days_before_month(year, month);
    let total_days = match before_year.checked_add(before_month) {
        Some(v) => match v.checked_add(day - 1) {
            Some(w) => w,
            None => {
                proof {
                    assert(total > u64::MAX);
                }
                return None;
            },
        },
        None => {
            proof {
                assert(total > u64::MAX);
            }
            return None;
        },
    };
    let day_secs = match total_days.checked_mul(86400) {
        Some(v) => v,
        None => {
            proof {
                assert(total > u64::MAX);
            }
            return None;
        },
    };
    let hour_secs = match hours.checked_mul(3600) {
        Some(v) => v,
        None => {
            proof {
                assert(total > u64::MAX);
            }
            return None;
        },
    };
    let t1 = match day_secs.checked_add(hour_secs) {
        Some(v) => v,
        None => {
            proof {
                assert(total > u64::MAX);
            }
            return None;
        },
    };
    let minute_secs = match minutes.checked_mul(60) {
        Some(v) => v,
        None => {
            proof {
                assert(total > u64::MAX);
            }
            return None;
        },
    };
    let t2 = match t1.checked_add(minute_secs) {
        Some(v) => v,
        None => {
            proof {
                assert(total > u64::MAX);
            }
            return None;
        },
    };
    let t3 = match t2.checked_add(seconds) {
        Some(v) => v,
        None => {
            proof {
                assert(total > u64::MAX);
            }
            return None;
        },
    };
    proof {
        assert(t3 == total);
    }
    Some(t3)
}

/// Whether a cached copy is still fresh: the client's `If-Modified-Since`
/// date parses and is no earlier than the file's modification time,
/// truncated to whole seconds. True means a 304 is due.
pub fn check_not_modified_since(if_modified_since: Option<&str>, mtime_secs: u64) -> (r: bool)
    ensures
        r <==> (if_modified_since matches Some(h) && spec_parse_http_date(h@) matches Some(t)
            && mtime_secs <= t),
{
    let header = match if_modified_since {
        Some(h) => h,
        None => {
            return false;
        },
    };
    let client_time = match parse_http_date(header) {
        Some(t) => t,
        None => {
            return false;
        },
    };
    mtime_secs <= client_time
}

} // verus!
