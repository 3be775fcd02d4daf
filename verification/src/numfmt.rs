//! Decimal and hexadecimal rendering and parsing of unsigned integers.
//!
//! Version numbers, nonces, status codes, content lengths and byte ranges all
//! travel as decimal strings; ETags are lowercase hexadecimal. The spec
//! functions here pin the exact character sequences.

use vstd::prelude::*;

verus! {

/// The character for one decimal or hexadecimal digit value.
pub open spec fn spec_digit(d: nat) -> char {
    if d == 0 {
        '0'
    } else if d == 1 {
        '1'
    } else if d == 2 {
        '2'
    } else if d == 3 {
        '3'
    } else if d == 4 {
        '4'
    } else if d == 5 {
        '5'
    } else if d == 6 {
        '6'
    } else if d == 7 {
        '7'
    } else if d == 8 {
        '8'
    } else if d == 9 {
        '9'
    } else if d == 10 {
        'a'
    } else if d == 11 {
        'b'
    } else if d == 12 {
        'c'
    } else if d == 13 {
        'd'
    } else if d == 14 {
        'e'
    } else {
        'f'
    }
}

/// Decimal rendering of `n`, most significant digit first, no leading zeros
/// (a single `'0'` for zero).
pub open spec fn spec_dec(n: nat) -> Seq<char>
    decreases n,
{
    if n < 10 {
        seq![spec_digit(n)]
    } else {
        spec_dec(n / 10).push(spec_digit(n % 10))
    }
}

/// Lowercase hexadecimal rendering of `n`, no leading zeros.
pub open spec fn spec_hex(n: nat) -> Seq<char>
    decreases n,
{
    if n < 16 {
        seq![spec_digit(n)]
    } else {
        spec_hex(n / 16).push(spec_digit(n % 16))
    }
}

/// The numeric value of a decimal digit character, or 10 for anything else.
pub open spec fn spec_digit_value(c: char) -> nat {
    if c == '0' {
        0
    } else if c == '1' {
        1
    } else if c == '2' {
        2
    } else if c == '3' {
        3
    } else if c == '4' {
        4
    } else if c == '5' {
        5
    } else if c == '6' {
        6
    } else if c == '7' {
        7
    } else if c == '8' {
        8
    } else if c == '9' {
        9
    } else {
        10
    }
}

pub open spec fn spec_is_digit(c: char) -> bool {
    spec_digit_value(c) < 10
}

pub open spec fn spec_all_digits(s: Seq<char>) -> bool {
    forall|i: int| 0 <= i < s.len() ==> spec_is_digit(#[trigger] s[i])
}

/// The value of a sequence of decimal digit characters, most significant
/// first; an empty sequence has value zero.
pub open spec fn spec_dec_value(s: Seq<char>) -> nat
    decreases s.len(),
{
    if s.len() == 0 {
        0
    } else {
        spec_dec_value(s.drop_last()) * 10 + spec_digit_value(s.last())
    }
}

/// A string accepted by `str::parse::<u64>`: an optional leading `'+'`, then
/// one or more decimal digits whose value fits in a `u64`.
pub open spec fn spec_parses_as_u64(s: Seq<char>) -> bool {
    spec_digit_body(s).len() > 0 && spec_all_digits(spec_digit_body(s)) && spec_dec_value(
        spec_digit_body(s),
    ) <= u64::MAX
}

/// The digits of a decimal literal after the optional `'+'` sign.
pub open spec fn spec_digit_body(s: Seq<char>) -> Seq<char> {
    if s.len() > 0 && s[0] == '+' {
        s.subrange(1, s.len() as int)
    } else {
        s
    }
}

/// The value denoted by a decimal literal that `spec_parses_as_u64` accepts.
pub open spec fn spec_parsed_u64(s: Seq<char>) -> nat {
    spec_dec_value(spec_digit_body(s))
}

fn digit_char(d: u64) -> (r: &'static str)
    requires
        d < 16,
    ensures
        r@ =~= seq![spec_digit(d as nat)],
{
    proof {
        reveal_strlit("0");
        reveal_strlit("1");
        reveal_strlit("2");
        reveal_strlit("3");
        reveal_strlit("4");
        reveal_strlit("5");
        reveal_strlit("6");
        reveal_strlit("7");
        reveal_strlit("8");
        reveal_strlit("9");
        reveal_strlit("a");
        reveal_strlit("b");
        reveal_strlit("c");
        reveal_strlit("d");
        reveal_strlit("e");
        reveal_strlit("f");
    }
    if d == 0 {
        "0"
    } else if d == 1 {
        "1"
    } else if d == 2 {
        "2"
    } else if d == 3 {
        "3"
    } else if d == 4 {
        "4"
    } else if d == 5 {
        "5"
    } else if d == 6 {
        "6"
    } else if d == 7 {
        "7"
    } else if d == 8 {
        "8"
    } else if d == 9 {
        "9"
    } else if d == 10 {
        "a"
    } else if d == 11 {
        "b"
    } else if d == 12 {
        "c"
    } else if d == 13 {
        "d"
    } else if d == 14 {
        "e"
    } else {
        "f"
    }
}

/// Render `n` in decimal, exactly as `u64::to_string` would.
pub fn u64_to_dec(n: u64) -> (s: String)
    ensures
        s@ =~= spec_dec(n as nat),
    decreases n,
{
    if n < 10 {
        digit_char(n).to_owned()
    } else {
        let mut s = u64_to_dec(n / 10);
        s.append(digit_char(n % 10));
        s
    }
}

/// Render `n` in lowercase hexadecimal, exactly as `{:x}` formatting would.
pub fn u64_to_hex(n: u64) -> (s: String)
    ensures
        s@ =~= spec_hex(n as nat),
    decreases n,
{
    if n < 16 {
        digit_char(n).to_owned()
    } else {
        let mut s = u64_to_hex(n / 16);
        s.append(digit_char(n % 16));
        s
    }
}

fn char_digit_value(c: char) -> (r: u64)
    ensures
        r == spec_digit_value(c),
{
    if c == '0' {
        0
    } else if c == '1' {
        1
    } else if c == '2' {
        2
    } else if c == '3' {
        3
    } else if c == '4' {
        4
    } else if c == '5' {
        5
    } else if c == '6' {
        6
    } else if c == '7' {
        7
    } else if c == '8' {
        8
    } else if c == '9' {
        9
    } else {
        10
    }
}

/// A longer digit string never has a smaller value: dropping trailing digits
/// cannot increase the value.
proof fn lemma_dec_value_prefix(s: Seq<char>, i: int)
    requires
        0 <= i <= s.len(),
    ensures
        spec_dec_value(s.subrange(0, i)) <= spec_dec_value(s),
    decreases s.len() - i,
{
    if i < s.len() {
        lemma_dec_value_prefix(s, i + 1);
        assert(s.subrange(0, i + 1).drop_last() =~= s.subrange(0, i));
        assert(s.subrange(0, i + 1).last() == s[i]);
    } else {
        assert(s.subrange(0, i) =~= s);
    }
}

/// Parse a decimal `u64` from the characters of `s`, with the semantics of
/// `str::parse::<u64>`: an optional `'+'` sign, at least one digit, and a
/// value that fits; anything else is rejected.
pub fn parse_u64_dec(s: &str) -> (r: Option<u64>)
    ensures
        r is Some <==> spec_parses_as_u64(s@),
        r is Some ==> r->0 == spec_parsed_u64(s@),
{
    let len = s.unicode_len();
    let start: usize = if len > 0 && s.get_char(0) == '+' {
        1
    } else {
        0
    };
    let ghost body = spec_digit_body(s@);
    proof {
        assert(body =~= s@.subrange(start as int, len as int));
    }
    if len == start {
        return None;
    }
    let mut i: usize = start;
    let mut n: u64 = 0;
    while i < len
        invariant
            start <= i <= len,
            len == s@.len(),
            body == spec_digit_body(s@),
            body == s@.subrange(start as int, len as int),
            spec_all_digits(s@.subrange(start as int, i as int)),
            n == spec_dec_value(s@.subrange(start as int, i as int)),
        decreases len - i,
    {
        let c = s.get_char(i);
        let d = char_digit_value(c);
        if d >= 10 {
            proof {
                assert(body[i - start] == c);
                assert(!spec_is_digit(body[i - start]));
            }
            return None;
        }
        let ghost pre = s@.subrange(start as int, i as int + 1);
        proof {
            assert(pre.drop_last() =~= s@.subrange(start as int, i as int));
            assert(pre.last() == c);
            assert(spec_dec_value(pre) == n * 10 + d);
            assert(pre =~= body.subrange(0, i - start + 1));
            lemma_dec_value_prefix(body, i - start + 1);
            assert(spec_dec_value(body) >= spec_dec_value(pre));
        }
        let shifted = n.checked_mul(10);
        if shifted.is_none() {
            proof {
                assert(spec_dec_value(body) > u64::MAX);
            }
            return None;
        }
        let widened = shifted.unwrap().checked_add(d);
        if widened.is_none() {
            proof {
                assert(spec_dec_value(body) > u64::MAX);
            }
            return None;
        }
        n = widened.unwrap();
        i += 1;
    }
    proof {
        assert(s@.subrange(start as int, len as int) =~= body);
    }
    Some(n)
}

/// Decimal renderings are faithful: the value of `spec_dec(n)` is `n` again,
/// every character is a digit, and the sequence is never empty.
pub proof fn lemma_dec_roundtrip(n: nat)
    ensures
        spec_dec_value(spec_dec(n)) == n,
        spec_all_digits(spec_dec(n)),
        spec_dec(n).len() > 0,
    decreases n,
{
    if n < 10 {
        assert(spec_dec(n) =~= seq![spec_digit(n)]);
        assert(spec_dec_value(spec_dec(n).drop_last()) == 0);
    } else {
        lemma_dec_roundtrip(n / 10);
        assert(spec_dec(n).drop_last() =~= spec_dec(n / 10));
        assert(spec_dec(n).last() == spec_digit(n % 10));
    }
}

} // verus!
