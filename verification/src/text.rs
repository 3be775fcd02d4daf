//! Verified text utilities over `&str` and `String`.
//!
//! Header values, paths, domains and dates are all plain text; the routing
//! and caching rules come down to equality, prefix, suffix, splitting and
//! trimming. Each executable function here is pinned to a spec function over
//! the string's view, so the callers' contracts can speak about exactly what
//! was matched.

use vstd::prelude::*;

verus! {

/// ASCII whitespace, the separators of an HTTP date and of header lists.
pub open spec fn spec_is_ws(c: char) -> bool {
    c == ' ' || c == '\t' || c == '\n' || c == '\r'
}

/// Length of the maximal non-whitespace prefix.
pub open spec fn spec_word_len(s: Seq<char>) -> int
    decreases s.len(),
{
    if s.len() == 0 || spec_is_ws(s[0]) {
        0
    } else {
        1 + spec_word_len(s.drop_first())
    }
}

proof fn lemma_word_len_bounds(s: Seq<char>)
    ensures
        0 <= spec_word_len(s) <= s.len(),
        s.len() > 0 && !spec_is_ws(s[0]) ==> spec_word_len(s) >= 1,
    decreases s.len(),
{
    if s.len() > 0 && !spec_is_ws(s[0]) {
        lemma_word_len_bounds(s.drop_first());
    }
}

#[via_fn]
proof fn spec_split_ws_dec(s: Seq<char>) {
    lemma_word_len_bounds(s);
}

/// The whitespace-separated words of `s`, in order, empties dropped —
/// the splitting `str::split_whitespace` performs on ASCII input.
pub open spec fn spec_split_ws(s: Seq<char>) -> Seq<Seq<char>>
    decreases s.len(),
    via spec_split_ws_dec
{
    if s.len() == 0 {
        Seq::empty()
    } else if spec_is_ws(s[0]) {
        spec_split_ws(s.drop_first())
    } else {
        seq![s.take(spec_word_len(s))] + spec_split_ws(s.skip(spec_word_len(s)))
    }
}

/// Length of the prefix of `s` before the first `sep`, or all of `s`.
pub open spec fn spec_prefix_until(s: Seq<char>, sep: char) -> int
    decreases s.len(),
{
    if s.len() == 0 || s[0] == sep {
        0
    } else {
        1 + spec_prefix_until(s.drop_first(), sep)
    }
}

proof fn lemma_prefix_until_bounds(s: Seq<char>, sep: char)
    ensures
        0 <= spec_prefix_until(s, sep) <= s.len(),
    decreases s.len(),
{
    if s.len() > 0 && s[0] != sep {
        lemma_prefix_until_bounds(s.drop_first(), sep);
    }
}

#[via_fn]
proof fn spec_split_char_dec(s: Seq<char>, sep: char) {
    lemma_prefix_until_bounds(s, sep);
}

/// The fields of `s` split on `sep`, empties kept — the splitting
/// `str::split(sep)` performs.
pub open spec fn spec_split_char(s: Seq<char>, sep: char) -> Seq<Seq<char>>
    decreases s.len(),
    via spec_split_char_dec
{
    let k = spec_prefix_until(s, sep);
    if k == s.len() {
        seq![s]
    } else {
        seq![s.take(k)] + spec_split_char(s.skip(k + 1), sep)
    }
}

pub open spec fn spec_trim_start(s: Seq<char>) -> Seq<char>
    decreases s.len(),
{
    if s.len() > 0 && spec_is_ws(s[0]) {
        spec_trim_start(s.drop_first())
    } else {
        s
    }
}

pub open spec fn spec_trim_end(s: Seq<char>) -> Seq<char>
    decreases s.len(),
{
    if s.len() > 0 && spec_is_ws(s.last()) {
        spec_trim_end(s.drop_last())
    } else {
        s
    }
}

/// `s` with ASCII whitespace removed from both ends.
pub open spec fn spec_trim(s: Seq<char>) -> Seq<char> {
    spec_trim_end(spec_trim_start(s))
}

/// Whether the characters of `b` appear at the start of `a`.
pub open spec fn spec_starts_with(a: Seq<char>, b: Seq<char>) -> bool {
    b.len() <= a.len() && a.take(b.len() as int) == b
}

/// Whether the characters of `b` appear at the end of `a`.
pub open spec fn spec_ends_with(a: Seq<char>, b: Seq<char>) -> bool {
    b.len() <= a.len() && a.skip(a.len() - b.len()) == b
}

fn is_ws(c: char) -> (r: bool)
    ensures
        r == spec_is_ws(c),
{
    c == ' ' || c == '\t' || c == '\n' || c == '\r'
}

/// Character-wise string equality.
pub fn str_eq(a: &str, b: &str) -> (r: bool)
    ensures
        r <==> a@ == b@,
{
    let alen = a.unicode_len();
    let blen = b.unicode_len();
    if alen != blen {
        return false;
    }
    let mut i: usize = 0;
    while i < alen
        invariant
            0 <= i <= alen,
            alen == a@.len(),
            alen == b@.len(),
            forall|j: int| 0 <= j < i ==> a@[j] == b@[j],
        decreases alen - i,
    {
        if a.get_char(i) != b.get_char(i) {
            return false;
        }
        i += 1;
    }
    proof {
        assert(a@ =~= b@);
    }
    true
}

/// Whether `s` starts with `p`, as `str::starts_with` decides it.
pub fn str_starts_with(s: &str, p: &str) -> (r: bool)
    ensures
        r == spec_starts_with(s@, p@),
{
    let slen = s.unicode_len();
    let plen = p.unicode_len();
    if plen > slen {
        return false;
    }
    let mut i: usize = 0;
    while i < plen
        invariant
            0 <= i <= plen <= slen,
            slen == s@.len(),
            plen == p@.len(),
            forall|j: int| 0 <= j < i ==> s@[j] == p@[j],
        decreases plen - i,
    {
        if s.get_char(i) != p.get_char(i) {
            proof {
                assert(s@.take(p@.len() as int)[i as int] != p@[i as int]);
            }
            return false;
        }
        i += 1;
    }
    proof {
        assert(s@.take(p@.len() as int) =~= p@);
    }
    true
}

/// Whether `s` ends with `p`, as `str::ends_with` decides it.
pub fn str_ends_with(s: &str, p: &str) -> (r: bool)
    ensures
        r == spec_ends_with(s@, p@),
{
    let slen = s.unicode_len();
    let plen = p.unicode_len();
    if plen > slen {
        return false;
    }
    let off = slen - plen;
    let mut i: usize = 0;
    while i < plen
        invariant
            0 <= i <= plen <= slen,
            off == slen - plen,
            slen == s@.len(),
            plen == p@.len(),
            forall|j: int| 0 <= j < i ==> s@[off + j] == p@[j],
        decreases plen - i,
    {
        if s.get_char(off + i) != p.get_char(i) {
            proof {
                assert(s@.skip(s@.len() - p@.len())[i as int] != p@[i as int]);
            }
            return false;
        }
        i += 1;
    }
    proof {
        assert(s@.skip(s@.len() - p@.len()) =~= p@);
    }
    true
}

/// Whether the character `c` occurs in `s`.
pub fn str_contains_char(s: &str, c: char) -> (r: bool)
    ensures
        r == s@.contains(c),
{
    let len = s.unicode_len();
    let mut i: usize = 0;
    while i < len
        invariant
            0 <= i <= len,
            len == s@.len(),
            forall|j: int| 0 <= j < i ==> s@[j] != c,
        decreases len - i,
    {
        if s.get_char(i) == c {
            return true;
        }
        i += 1;
    }
    proof {
        assert(forall|j: int| 0 <= j < s@.len() ==> s@[j] != c);
    }
    false
}

/// The prefix of `s` before the first `sep` — what `s.split(sep).next()`
/// yields; all of `s` when `sep` does not occur.
pub fn prefix_until_char<'a>(s: &'a str, sep: char) -> (r: &'a str)
    ensures
        r@ == s@.take(spec_prefix_until(s@, sep)),
    decreases s@.len(),
{
    let len = s.unicode_len();
    if len == 0 || s.get_char(0) == sep {
        let r = s.substring_char(0, 0);
        proof {
            assert(r@ =~= s@.take(0));
        }
        r
    } else {
        let rest = s.substring_char(1, len);
        proof {
            assert(rest@ =~= s@.drop_first());
        }
        let sub = prefix_until_char(rest, sep);
        proof {
            lemma_prefix_until_bounds(rest@, sep);
        }
        let k = sub.unicode_len();
        let r = s.substring_char(0, 1 + k);
        proof {
            let k0 = spec_prefix_until(s@, sep);
            assert(k0 == 1 + spec_prefix_until(s@.drop_first(), sep));
            assert(r@ =~= s@.take(k0));
        }
        r
    }
}

/// `s` without ASCII whitespace at its start.
pub fn trim_start<'a>(s: &'a str) -> (r: &'a str)
    ensures
        r@ == spec_trim_start(s@),
    decreases s@.len(),
{
    let len = s.unicode_len();
    if len > 0 && is_ws(s.get_char(0)) {
        let rest = s.substring_char(1, len);
        proof {
            assert(rest@ =~= s@.drop_first());
        }
        trim_start(rest)
    } else {
        s
    }
}

/// `s` without ASCII whitespace at its end.
pub fn trim_end<'a>(s: &'a str) -> (r: &'a str)
    ensures
        r@ == spec_trim_end(s@),
    decreases s@.len(),
{
    let len = s.unicode_len();
    if len > 0 && is_ws(s.get_char(len - 1)) {
        let rest = s.substring_char(0, len - 1);
        proof {
            assert(rest@ =~= s@.drop_last());
        }
        trim_end(rest)
    } else {
        s
    }
}

/// `s` with ASCII whitespace removed from both ends, as `str::trim` does on
/// ASCII input.
pub fn trim_ws<'a>(s: &'a str) -> (r: &'a str)
    ensures
        r@ == spec_trim(s@),
{
    trim_end(trim_start(s))
}

/// The whitespace-separated words of `s`.
pub fn split_ws(s: &str) -> (r: Vec<String>)
    ensures
        r@.len() == spec_split_ws(s@).len(),
        forall|i: int| 0 <= i < r@.len() ==> r@[i]@ == spec_split_ws(s@)[i],
    decreases s@.len(),
{
    let len = s.unicode_len();
    if len == 0 {
        Vec::new()
    } else if is_ws(s.get_char(0)) {
        let rest = s.substring_char(1, len);
        proof {
            assert(rest@ =~= s@.drop_first());
        }
        split_ws(rest)
    } else {
        proof {
            lemma_word_len_bounds(s@);
        }
        let wl = word_len(s);
        let word = s.substring_char(0, wl).to_owned();
        let rest = s.substring_char(wl, len);
        proof {
            assert(rest@ =~= s@.skip(spec_word_len(s@)));
            assert(word@ =~= s@.take(spec_word_len(s@)));
        }
        let ghost tail = spec_split_ws(rest@);
        let mut out = split_ws(rest);
        out.insert(0, word);
        proof {
            let whole = spec_split_ws(s@);
            assert(whole == seq![s@.take(spec_word_len(s@))] + tail);
            assert forall|i: int| 0 <= i < out@.len() implies out@[i]@ == whole[i] by {
                if i == 0 {
                    assert(out@[0] == word);
                    assert(whole[0] == s@.take(spec_word_len(s@)));
                } else {
                    assert(out@[i]@ == tail[i - 1]);
                    assert(whole[i] == tail[i - 1]);
                }
            }
        }
        out
    }
}

fn word_len(s: &str) -> (r: usize)
    ensures
        r == spec_word_len(s@),
        r <= s@.len(),
    decreases s@.len(),
{
    let len = s.unicode_len();
    if len == 0 || is_ws(s.get_char(0)) {
        0
    } else {
        let rest = s.substring_char(1, len);
        proof {
            assert(rest@ =~= s@.drop_first());
        }
        1 + word_len(rest)
    }
}

/// The fields of `s` split on `sep`, empties kept.
pub fn split_char(s: &str, sep: char) -> (r: Vec<String>)
    ensures
        r@.len() == spec_split_char(s@, sep).len(),
        forall|i: int| 0 <= i < r@.len() ==> r@[i]@ == spec_split_char(s@, sep)[i],
    decreases s@.len(),
{
    let len = s.unicode_len();
    proof {
        lemma_prefix_until_bounds(s@, sep);
    }
    let head = prefix_until_char(s, sep);
    let k = head.unicode_len();
    let ghost k0 = spec_prefix_until(s@, sep);
    if k == len {
        proof {
            assert(s@.take(k0) =~= s@);
        }
        let mut out: Vec<String> = Vec::new();
        out.push(head.to_owned());
        out
    } else {
        let rest = s.substring_char(k + 1, len);
        proof {
            assert(rest@ =~= s@.skip(k0 + 1));
        }
        let ghost tail = spec_split_char(rest@, sep);
        let mut out = split_char(rest, sep);
        out.insert(0, head.to_owned());
        proof {
            let whole = spec_split_char(s@, sep);
            assert(whole == seq![s@.take(k0)] + tail);
            assert forall|i: int| 0 <= i < out@.len() implies out@[i]@ == whole[i] by {
                if i == 0 {
                    assert(whole[0] == s@.take(k0));
                } else {
                    assert(out@[i]@ == tail[i - 1]);
                    assert(whole[i] == tail[i - 1]);
                }
            }
        }
        out
    }
}

/// The lowercase form of an ASCII uppercase letter; other characters are
/// unchanged.
pub open spec fn spec_lower_char(c: char) -> char {
    if c == 'A' {
        'a'
    } else if c == 'B' {
        'b'
    } else if c == 'C' {
        'c'
    } else if c == 'D' {
        'd'
    } else if c == 'E' {
        'e'
    } else if c == 'F' {
        'f'
    } else if c == 'G' {
        'g'
    } else if c == 'H' {
        'h'
    } else if c == 'I' {
        'i'
    } else if c == 'J' {
        'j'
    } else if c == 'K' {
        'k'
    } else if c == 'L' {
        'l'
    } else if c == 'M' {
        'm'
    } else if c == 'N' {
        'n'
    } else if c == 'O' {
        'o'
    } else if c == 'P' {
        'p'
    } else if c == 'Q' {
        'q'
    } else if c == 'R' {
        'r'
    } else if c == 'S' {
        's'
    } else if c == 'T' {
        't'
    } else if c == 'U' {
        'u'
    } else if c == 'V' {
        'v'
    } else if c == 'W' {
        'w'
    } else if c == 'X' {
        'x'
    } else if c == 'Y' {
        'y'
    } else if c == 'Z' {
        'z'
    } else {
        c
    }
}

fn lower_char(c: char) -> (r: char)
    ensures
        r == spec_lower_char(c),
{
    match c {
        'A' => 'a',
        'B' => 'b',
        'C' => 'c',
        'D' => 'd',
        'E' => 'e',
        'F' => 'f',
        'G' => 'g',
        'H' => 'h',
        'I' => 'i',
        'J' => 'j',
        'K' => 'k',
        'L' => 'l',
        'M' => 'm',
        'N' => 'n',
        'O' => 'o',
        'P' => 'p',
        'Q' => 'q',
        'R' => 'r',
        'S' => 's',
        'T' => 't',
        'U' => 'u',
        'V' => 'v',
        'W' => 'w',
        'X' => 'x',
        'Y' => 'y',
        'Z' => 'z',
        _ => c,
    }
}

/// The sequence with every ASCII uppercase letter lowered.
pub open spec fn lower_chars(s: Seq<char>) -> Seq<char> {
    s.map_values(|c: char| spec_lower_char(c))
}

/// Case-insensitive equality for ASCII letters, the comparison HTTP header
/// names use.
pub fn eq_ignore_case(a: &str, b: &str) -> (r: bool)
    ensures
        r <==> lower_chars(a@) == lower_chars(b@),
{
    let alen = a.unicode_len();
    let blen = b.unicode_len();
    let ghost la = a@.map_values(|c: char| spec_lower_char(c));
    let ghost lb = b@.map_values(|c: char| spec_lower_char(c));
    if alen != blen {
        proof {
            assert(la.len() == a@.len());
            assert(lb.len() == b@.len());
        }
        return false;
    }
    let mut i: usize = 0;
    while i < alen
        invariant
            0 <= i <= alen,
            alen == a@.len(),
            alen == b@.len(),
            la == a@.map_values(|c: char| spec_lower_char(c)),
            lb == b@.map_values(|c: char| spec_lower_char(c)),
            forall|j: int| 0 <= j < i ==> la[j] == lb[j],
        decreases alen - i,
    {
        if lower_char(a.get_char(i)) != lower_char(b.get_char(i)) {
            proof {
                assert(la[i as int] != lb[i as int]);
            }
            return false;
        }
        i += 1;
    }
    proof {
        assert(la =~= lb);
    }
    true
}

} // verus!
