//! HTTP cache validators: ETag generation and `If-None-Match` evaluation.
//!
//! The content ETag is a 64-bit FNV-1a hash of the body bytes, quoted and in
//! lowercase hex — a pure function of the bytes, so equal content always
//! yields an equal validator. A cheaper mtime-derived tag serves the 304
//! fast path before content is read.

use vstd::prelude::*;
use crate::numfmt::{spec_hex, u64_to_hex};
use crate::text::{spec_prefix_until, spec_split_char, spec_trim, spec_trim_end, spec_trim_start, split_char, str_eq, trim_ws};

verus! {

pub const FNV_OFFSET_BASIS: u64 = 0xcbf2_9ce4_8422_2325;

pub const FNV_PRIME: u64 = 0x0000_0100_0000_01b3;

/// One step of FNV-1a: fold a byte into the running hash.
pub open spec fn spec_fnv1a_step(h: u64, b: u8) -> u64 {
    vstd::wrapping::u64_specs::wrapping_mul(h ^ (b as u64), FNV_PRIME)
}

/// The 64-bit FNV-1a hash of a byte sequence.
pub open spec fn spec_fnv1a(bytes: Seq<u8>) -> u64
    decreases bytes.len(),
{
    if bytes.len() == 0 {
        FNV_OFFSET_BASIS
    } else {
        spec_fnv1a_step(spec_fnv1a(bytes.drop_last()), bytes.last())
    }
}

/// The content ETag: the FNV-1a hash in lowercase hex, double-quoted.
pub open spec fn spec_etag(bytes: Seq<u8>) -> Seq<char> {
    seq!['"'] + spec_hex(spec_fnv1a(bytes) as nat) + seq!['"']
}

fn fnv1a_step(h: u64, b: u8) -> (r: u64)
    ensures
        r == spec_fnv1a_step(h, b),
{
    (h ^ (b as u64)).wrapping_mul(FNV_PRIME)
}

/// Generate the quoted content ETag of `content`.
pub fn generate_etag(content: &[u8]) -> (r: String)
    ensures
        r@ == spec_etag(content@),
{
    let len = content.len();
    let mut h: u64 = FNV_OFFSET_BASIS;
    let mut i: usize = 0;
    while i < len
        invariant
            0 <= i <= len,
            len == content@.len(),
            h == spec_fnv1a(content@.take(i as int)),
        decreases len - i,
    {
        let b = content[i];
        proof {
            assert(content@.take(i as int + 1).drop_last() =~= content@.take(i as int));
            assert(content@.take(i as int + 1).last() == content@[i as int]);
        }
        h = fnv1a_step(h, b);
        i += 1;
    }
    proof {
        assert(content@.take(len as int) =~= content@);
        reveal_strlit("\"");
    }
    let mut out = "\"".to_owned();
    out.append(u64_to_hex(h).as_str());
    out.append("\"");
    proof {
        assert(out@ =~= spec_etag(content@));
    }
    out
}

/// The ETag is a pure function of the content bytes: hashing the same bytes
/// twice always yields the same validator.
pub proof fn lemma_etag_deterministic(a: Seq<u8>, b: Seq<u8>)
    requires
        a == b,
    ensures
        spec_etag(a) == spec_etag(b),
{
}

/// The provisional validator of the 304 fast path: the file's modification
/// time in whole seconds, in lowercase hex, unquoted.
pub fn mtime_to_etag(mtime_secs: u64) -> (r: String)
    ensures
        r@ == spec_hex(mtime_secs as nat),
{
    u64_to_hex(mtime_secs)
}

/// Whether one comma-separated `If-None-Match` entry matches: after
/// trimming, it is the server's ETag or the wildcard `*`.
pub open spec fn spec_entry_matches(entry: Seq<char>, etag: Seq<char>) -> bool {
    spec_trim(entry) == etag || spec_trim(entry) =~= seq!['*']
}

/// Whether an `If-None-Match` header value matches the server's ETag:
/// some comma-separated entry equals it, or is the wildcard.
pub open spec fn spec_etag_list_match(header: Seq<char>, etag: Seq<char>) -> bool {
    exists|i: int|
        0 <= i < spec_split_char(header, ',').len() && spec_entry_matches(
            #[trigger] spec_split_char(header, ',')[i],
            etag,
        )
}

/// Evaluate `If-None-Match` against the server's ETag. True means the
/// client's validator is current and a 304 is due.
pub fn check_etag_match(if_none_match: Option<&str>, etag: &str) -> (r: bool)
    ensures
        if_none_match is None ==> r == false,
        if_none_match matches Some(h) ==> (r <==> spec_etag_list_match(h@, etag@)),
{
    let header = match if_none_match {
        Some(h) => h,
        None => {
            return false;
        },
    };
    let entries = split_char(header, ',');
    let n = entries.len();
    let mut i: usize = 0;
    while i < n
        invariant
            0 <= i <= n,
            n == spec_split_char(header@, ',').len(),
            forall|j: int| 0 <= j < entries@.len() ==> entries@[j]@ == spec_split_char(
                header@,
                ',',
            )[j],
            n == entries@.len(),
            if_none_match == Some(header),
            forall|j: int|
                0 <= j < i ==> !spec_entry_matches(#[trigger] spec_split_char(header@, ',')[j], etag@),
        decreases n - i,
    {
        let entry = trim_ws(entries[i].as_str());
        if str_eq(entry, etag) {
            proof {
                assert(spec_entry_matches(spec_split_char(header@, ',')[i as int], etag@));
                assert(spec_etag_list_match(header@, etag@));
            }
            return true;
        }
        if str_eq(entry, "*") {
            proof {
                reveal_strlit("*");
                assert("*"@ =~= seq!['*']);
                assert(spec_entry_matches(spec_split_char(header@, ',')[i as int], etag@));
                assert(spec_etag_list_match(header@, etag@));
            }
            return true;
        }
        proof {
            reveal_strlit("*");
            assert("*"@ =~= seq!['*']);
            assert(!(spec_trim(spec_split_char(header@, ',')[i as int]) =~= seq!['*']));
        }
        i += 1;
    }
    false
}

/// `If-None-Match: *` matches every ETag: the wildcard header is its own
/// single entry, so any existing resource answers 304.
pub proof fn lemma_wildcard_always_matches(header: Seq<char>, etag: Seq<char>)
    requires
        header =~= seq!['*'],
    ensures
        spec_etag_list_match(header, etag),
{
    let fields = spec_split_char(header, ',');
    assert(header.drop_first().len() == 0);
    assert(spec_prefix_until(header, ',') == 1 + spec_prefix_until(header.drop_first(), ','));
    assert(spec_prefix_until(header, ',') == header.len());
    assert(fields[0] == header);
    assert(spec_trim_start(header) == header);
    assert(spec_trim_end(header) == header);
    assert(spec_entry_matches(fields[0], etag));
}

/// Cache control policy for responses.
#[derive(Debug, Clone, Copy)]
pub enum CachePolicy {
    /// Public cache with the given max-age in seconds.
    Public(u32),
    /// Private (browser-only) cache with the given max-age in seconds.
    Private(u32),
    /// Revalidate before each reuse.
    NoCache,
    /// Never store.
    NoStore,
}

pub open spec fn spec_cache_policy_header(p: CachePolicy) -> Seq<char> {
    match p {
        CachePolicy::Public(age) => "public, max-age="@ + crate::numfmt::spec_dec(age as nat),
        CachePolicy::Private(age) => "private, max-age="@ + crate::numfmt::spec_dec(age as nat),
        CachePolicy::NoCache => "no-cache"@,
        CachePolicy::NoStore => "no-store"@,
    }
}

impl CachePolicy {
    /// The `Cache-Control` header value for this policy.
    pub fn to_header_value(self) -> (r: String)
        ensures
            r@ == spec_cache_policy_header(self),
    {
        match self {
            CachePolicy::Public(age) => {
                let mut s = "public, max-age=".to_owned();
                s.append(crate::numfmt::u64_to_dec(age as u64).as_str());
                proof {
                    assert(s@ =~= spec_cache_policy_header(self));
                }
                s
            },
            CachePolicy::Private(age) => {
                let mut s = "private, max-age=".to_owned();
                s.append(crate::numfmt::u64_to_dec(age as u64).as_str());
                proof {
                    assert(s@ =~= spec_cache_policy_header(self));
                }
                s
            },
            CachePolicy::NoCache => "no-cache".to_owned(),
            CachePolicy::NoStore => "no-store".to_owned(),
        }
    }
}

impl Default for CachePolicy {
    /// Public caching for one hour.
    fn default() -> (r: Self)
        ensures
            r is Public && r->Public_0 == 3600,
    {
        CachePolicy::Public(3600)
    }
}

} // verus!
