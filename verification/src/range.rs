//! HTTP `Range` header parsing (RFC 7233, single `bytes` range).
//!
//! A malformed header, a non-`bytes` unit or a multi-range is ignored — the
//! full body is served. A range that starts past the end of the file, an
//! empty range after clamping, or a zero-length suffix is not satisfiable
//! and answers 416.

use vstd::prelude::*;
use crate::numfmt::{
    lemma_dec_roundtrip, parse_u64_dec, spec_all_digits, spec_dec, spec_digit_body,
    spec_digit_value, spec_is_digit, spec_parsed_u64, spec_parses_as_u64,
};
use crate::text::{
    spec_is_ws, spec_prefix_until, spec_split_char, spec_starts_with, spec_trim, spec_trim_end,
    spec_trim_start, split_char, str_contains_char, str_starts_with, trim_ws,
};

verus! {

/// A parsed byte range: a start offset and an optional inclusive end.
#[derive(Debug, Clone, PartialEq, Eq)]
pub struct RangeRequest {
    /// First byte position.
    pub start: u64,
    /// Last byte position; `None` means to the end of the file.
    pub end: Option<u64>,
}

impl RangeRequest {
    /// The inclusive end position, given the file size: the stated end, or
    /// the last byte of the file for an open-ended range.
    pub open spec fn spec_end_position(self, file_size: u64) -> u64 {
        match self.end {
            Some(e) => e,
            None => if file_size == 0 {
                0
            } else {
                (file_size - 1) as u64
            },
        }
    }

    /// Resolve the inclusive end position against the file size.
    pub fn end_position(&self, file_size: u64) -> (r: u64)
        ensures
            r == self.spec_end_position(file_size),
    {
        match self.end {
            Some(e) => e,
            None => if file_size == 0 {
                0
            } else {
                file_size - 1
            },
        }
    }

    /// The number of bytes the range covers.
    pub fn content_length(&self, file_size: u64) -> (r: u64)
        requires
            self.spec_end_position(file_size) < u64::MAX,
        ensures
            r == {
                let e = self.spec_end_position(file_size);
                (if e >= self.start {
                    e - self.start
                } else {
                    0
                }) + 1
            },
    {
        let end = self.end_position(file_size);
        let gap = if end >= self.start {
            end - self.start
        } else {
            0
        };
        gap + 1
    }
}

/// The three outcomes of parsing a `Range` header.
#[derive(Debug)]
pub enum RangeParseResult {
    /// A satisfiable single range.
    Valid(RangeRequest),
    /// Syntactically a range, but not satisfiable for this file: answer 416.
    NotSatisfiable,
    /// No header, or one to ignore: serve the full content.
    NoRange,
}

/// Outcome for a suffix form `bytes=-N`: the last `N` bytes. A zero suffix
/// is not satisfiable; on an empty file, or when nothing parses, the header
/// is ignored.
pub open spec fn spec_suffix_range(suffix: Seq<char>, size: u64) -> RangeParseResult {
    if !spec_parses_as_u64(suffix) {
        RangeParseResult::NoRange
    } else if spec_parsed_u64(suffix) == 0 {
        RangeParseResult::NotSatisfiable
    } else if size == 0 {
        RangeParseResult::NoRange
    } else {
        let v = spec_parsed_u64(suffix);
        RangeParseResult::Valid(
            RangeRequest {
                start: if v >= size {
                    0
                } else {
                    (size - v) as u64
                },
                end: Some((size - 1) as u64),
            },
        )
    }
}

/// Outcome for the standard forms `bytes=S-` and `bytes=S-E`: the start must
/// lie inside the file, the end is clamped to the last byte, and an empty
/// range after clamping is not satisfiable.
pub open spec fn spec_standard_range(start_s: Seq<char>, end_s: Seq<char>, size: u64) -> RangeParseResult {
    if !spec_parses_as_u64(start_s) {
        RangeParseResult::NoRange
    } else {
        let start = spec_parsed_u64(start_s);
        if start >= size {
            RangeParseResult::NotSatisfiable
        } else if end_s.len() == 0 {
            RangeParseResult::Valid(RangeRequest { start: start as u64, end: None })
        } else if !spec_parses_as_u64(end_s) {
            RangeParseResult::NoRange
        } else {
            let e = spec_parsed_u64(end_s);
            let clamped = if e < size - 1 {
                e
            } else {
                (size - 1) as nat
            };
            if start > clamped {
                RangeParseResult::NotSatisfiable
            } else {
                RangeParseResult::Valid(
                    RangeRequest { start: start as u64, end: Some(clamped as u64) },
                )
            }
        }
    }
}

/// The parse of one `Range` header value against a file of `size` bytes.
pub open spec fn spec_parse_range_chars(h: Seq<char>, size: u64) -> RangeParseResult {
    if !spec_starts_with(h, "bytes="@) {
        RangeParseResult::NoRange
    } else {
        let rest = h.skip("bytes="@.len() as int);
        if rest.contains(',') {
            RangeParseResult::NoRange
        } else {
            let parts = spec_split_char(rest, '-');
            if parts.len() != 2 {
                RangeParseResult::NoRange
            } else {
                let s0 = spec_trim(parts[0]);
                let s1 = spec_trim(parts[1]);
                if s0.len() == 0 {
                    spec_suffix_range(s1, size)
                } else {
                    spec_standard_range(s0, s1, size)
                }
            }
        }
    }
}

/// The parse of an optional `Range` header.
pub open spec fn spec_parse_range(header: Option<&str>, size: u64) -> RangeParseResult {
    match header {
        None => RangeParseResult::NoRange,
        Some(h) => spec_parse_range_chars(h@, size),
    }
}

/// Parse the suffix form `-N`.
pub fn parse_suffix_range(suffix_str: &str, file_size: u64) -> (r: RangeParseResult)
    ensures
        r == spec_suffix_range(suffix_str@, file_size),
{
    let suffix = match parse_u64_dec(suffix_str) {
        Some(v) => v,
        None => {
            return RangeParseResult::NoRange;
        },
    };
    if suffix == 0 {
        return RangeParseResult::NotSatisfiable;
    }
    if file_size == 0 {
        return RangeParseResult::NoRange;
    }
    let start = if suffix >= file_size {
        0
    } else {
        file_size - suffix
    };
    RangeParseResult::Valid(RangeRequest { start, end: Some(file_size - 1) })
}

/// Parse the standard forms `S-` and `S-E`.
pub fn parse_standard_range(start_str: &str, end_str: &str, file_size: u64) -> (r: RangeParseResult)
    ensures
        r == spec_standard_range(start_str@, end_str@, file_size),
{
    let start = match parse_u64_dec(start_str) {
        Some(v) => v,
        None => {
            return RangeParseResult::NoRange;
        },
    };
    if start >= file_size {
        return RangeParseResult::NotSatisfiable;
    }
    if end_str.unicode_len() == 0 {
        return RangeParseResult::Valid(RangeRequest { start, end: None });
    }
    let e = match parse_u64_dec(end_str) {
        Some(v) => v,
        None => {
            return RangeParseResult::NoRange;
        },
    };
    let clamped = if e < file_size - 1 {
        e
    } else {
        file_size - 1
    };
    if start > clamped {
        return RangeParseResult::NotSatisfiable;
    }
    RangeParseResult::Valid(RangeRequest { start, end: Some(clamped) })
}

/// Parse an HTTP `Range` header (single range, `bytes` unit only).
pub fn parse_range_header(range_header: Option<&str>, file_size: u64) -> (r: RangeParseResult)
    ensures
        r == spec_parse_range(range_header, file_size),
{
    let h = match range_header {
        Some(h) => h,
        None => {
            return RangeParseResult::NoRange;
        },
    };
    if !str_starts_with(h, "bytes=") {
        return RangeParseResult::NoRange;
    }
    proof {
        reveal_strlit("bytes=");
    }
    let len = h.unicode_len();
    let rest = h.substring_char(6, len);
    proof {
        assert(rest@ =~= h@.skip("bytes="@.len() as int));
    }
    if str_contains_char(rest, ',') {
        return RangeParseResult::NoRange;
    }
    let parts = split_char(rest, '-');
    if parts.len() != 2 {
        return RangeParseResult::NoRange;
    }
    let s0 = trim_ws(parts[0].as_str());
    let s1 = trim_ws(parts[1].as_str());
    if s0.unicode_len() == 0 {
        parse_suffix_range(s1, file_size)
    } else {
        parse_standard_range(s0, s1, file_size)
    }
}

proof fn lemma_prefix_until_no_sep(a: Seq<char>, sep: char)
    requires
        forall|i: int| 0 <= i < a.len() ==> a[i] != sep,
    ensures
        spec_prefix_until(a, sep) == a.len(),
    decreases a.len(),
{
    if a.len() > 0 {
        lemma_prefix_until_no_sep(a.drop_first(), sep);
    }
}

proof fn lemma_prefix_until_concat(a: Seq<char>, b: Seq<char>, sep: char)
    requires
        forall|i: int| 0 <= i < a.len() ==> a[i] != sep,
        b.len() > 0,
        b[0] == sep,
    ensures
        spec_prefix_until(a + b, sep) == a.len(),
    decreases a.len(),
{
    if a.len() == 0 {
        assert(a + b =~= b);
    } else {
        lemma_prefix_until_concat(a.drop_first(), b, sep);
        assert((a + b).drop_first() =~= a.drop_first() + b);
        assert((a + b)[0] == a[0]);
    }
}

proof fn lemma_trim_all_digits(d: Seq<char>)
    requires
        spec_all_digits(d),
    ensures
        spec_trim(d) == d,
{
    if d.len() > 0 {
        assert(spec_is_digit(d[0]));
        assert(!spec_is_ws(d[0]));
        assert(spec_is_digit(d.last()));
        assert(!spec_is_ws(d.last()));
    }
    assert(spec_trim_start(d) == d);
    assert(spec_trim_end(d) == d);
}

proof fn lemma_dec_parses(n: nat)
    requires
        n <= u64::MAX,
    ensures
        spec_parses_as_u64(spec_dec(n)),
        spec_parsed_u64(spec_dec(n)) == n,
        spec_trim(spec_dec(n)) == spec_dec(n),
{
    lemma_dec_roundtrip(n);
    assert(spec_is_digit(spec_dec(n)[0]));
    assert(spec_dec(n)[0] != '+');
    assert(spec_digit_body(spec_dec(n)) == spec_dec(n));
    lemma_trim_all_digits(spec_dec(n));
}

/// For any in-bounds range `bytes=S-E` with `S <= E < size`, the header
/// parses to exactly that range: start `S`, inclusive end `E`.
pub proof fn lemma_exact_range_parses(s: u64, e: u64, size: u64)
    requires
        s <= e < size,
    ensures
        spec_parse_range_chars("bytes="@ + spec_dec(s as nat) + seq!['-'] + spec_dec(e as nat), size)
            == RangeParseResult::Valid(RangeRequest { start: s, end: Some(e) }),
{
    reveal_strlit("bytes=");
    let ds = spec_dec(s as nat);
    let de = spec_dec(e as nat);
    let h = "bytes="@ + ds + seq!['-'] + de;
    lemma_dec_roundtrip(s as nat);
    lemma_dec_roundtrip(e as nat);
    assert(spec_starts_with(h, "bytes="@)) by {
        assert(h.take(6) =~= "bytes="@);
    }
    let rest = h.skip(6);
    assert(rest =~= ds + seq!['-'] + de);
    assert(!rest.contains(',')) by {
        assert forall|i: int| 0 <= i < rest.len() implies rest[i] != ',' by {
            if i < ds.len() {
                assert(rest[i] == ds[i]);
                assert(spec_is_digit(ds[i]));
                assert(spec_digit_value(',') == 10);
            } else if i == ds.len() {
                assert(rest[i] == '-');
            } else {
                assert(rest[i] == de[i - ds.len() - 1]);
                assert(spec_is_digit(de[i - ds.len() - 1]));
                assert(spec_digit_value(',') == 10);
            }
        }
    }
    let parts = spec_split_char(rest, '-');
    assert(forall|i: int| 0 <= i < ds.len() ==> #[trigger] ds[i] != '-') by {
        assert(forall|i: int|
            0 <= i < ds.len() ==> spec_is_digit(#[trigger] ds[i]) && spec_digit_value('-') == 10);
    }
    assert(forall|i: int| 0 <= i < de.len() ==> #[trigger] de[i] != '-') by {
        assert(forall|i: int|
            0 <= i < de.len() ==> spec_is_digit(#[trigger] de[i]) && spec_digit_value('-') == 10);
    }
    let tail = seq!['-'] + de;
    assert(rest =~= ds + tail);
    lemma_prefix_until_concat(ds, tail, '-');
    assert(spec_prefix_until(rest, '-') == ds.len());
    assert(rest.take(ds.len() as int) =~= ds);
    assert(rest.skip(ds.len() as int + 1) =~= de);
    lemma_prefix_until_no_sep(de, '-');
    assert(spec_split_char(de, '-') == seq![de]);
    assert(parts =~= seq![ds] + seq![de]);
    assert(parts.len() == 2);
    assert(parts[0] == ds);
    assert(parts[1] == de);
    lemma_dec_parses(s as nat);
    lemma_dec_parses(e as nat);
    assert(spec_trim(parts[0]) == ds);
    assert(spec_trim(parts[1]) == de);
    assert(ds.len() > 0);
    assert(spec_standard_range(ds, de, size) == RangeParseResult::Valid(
        RangeRequest { start: s, end: Some(e) },
    ));
}

} // verus!
