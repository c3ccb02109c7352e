//! Decimal text for integers: what std's `FromStr` for `i64` and `u32`
//! accepts, and what `Display` for `i64` writes.

use vstd::prelude::*;
use crate::text::{chars_of, push_char};

verus! {

pub open spec fn is_digit(c: char) -> bool {
    '0' <= c && c <= '9'
}

pub open spec fn digit_value(c: char) -> int {
    c as int - '0' as int
}

pub open spec fn all_digits(s: Seq<char>) -> bool {
    forall|i: int| 0 <= i < s.len() ==> is_digit(#[trigger] s[i])
}

/// The number that the decimal digits `s` denote (most significant first).
pub open spec fn digits_value(s: Seq<char>) -> int
    decreases s.len(),
{
    if s.len() == 0 {
        0
    } else {
        digits_value(s.drop_last()) * 10 + digit_value(s.last())
    }
}

/// A non-empty run of digits whose value is at most `bound`.
pub open spec fn bounded_digits(d: Seq<char>, bound: int) -> Option<int> {
    if d.len() > 0 && all_digits(d) && digits_value(d) <= bound {
        Some(digits_value(d))
    } else {
        None
    }
}

/// What `s.parse::<i64>()` gives: an optional sign, then one or more
/// ASCII digits, and a value within the range of `i64`.
pub open spec fn spec_parse_i64(s: Seq<char>) -> Option<i64> {
    if s.len() > 0 && s[0] == '-' {
        match bounded_digits(s.drop_first(), 0x8000_0000_0000_0000) {
            Some(v) => Some((-v) as i64),
            None => None,
        }
    } else {
        let d = if s.len() > 0 && s[0] == '+' { s.drop_first() } else { s };
        match bounded_digits(d, 0x7fff_ffff_ffff_ffff) {
            Some(v) => Some(v as i64),
            None => None,
        }
    }
}

/// What `s.parse::<u32>()` gives: an optional `+`, then one or more ASCII
/// digits, and a value within the range of `u32`.
pub open spec fn spec_parse_u32(s: Seq<char>) -> Option<u32> {
    let d = if s.len() > 0 && s[0] == '+' { s.drop_first() } else { s };
    match bounded_digits(d, 0xffff_ffff) {
        Some(v) => Some(v as u32),
        None => None,
    }
}

pub open spec fn digit_char(d: int) -> char {
    (d + '0' as int) as char
}

/// The decimal digits of `n`, without leading zeros.
pub open spec fn decimal_digits(n: nat) -> Seq<char>
    decreases n,
{
    if n < 10 {
        seq![digit_char(n as int)]
    } else {
        decimal_digits(n / 10).push(digit_char((n % 10) as int))
    }
}

/// What `n.to_string()` writes for an `i64`.
pub open spec fn spec_i64_text(n: int) -> Seq<char> {
    if n < 0 {
        seq!['-'] + decimal_digits((-n) as nat)
    } else {
        decimal_digits(n as nat)
    }
}

/// Scans `v[start..]` as a run of digits whose value must not exceed `bound`.
fn scan_digits(v: &Vec<char>, start: usize, bound: u64) -> (r: Option<u64>)
    requires
        start <= v@.len(),
    ensures
        r matches Some(x) ==> bounded_digits(v@.subrange(start as int, v@.len() as int), bound as int)
            == Some(x as int),
        r is None ==> bounded_digits(v@.subrange(start as int, v@.len() as int), bound as int)
            is None,
{
    let n = v.len();
    if start == n {
        return None;
    }
    let ghost d = v@.subrange(start as int, n as int);
    let mut i = start;
    let mut acc: u64 = 0;
    let mut over = false;
    while i < n
        invariant
            start <= i <= n,
            n == v@.len(),
            d == v@.subrange(start as int, n as int),
            all_digits(d.subrange(0, i - start)),
            !over ==> acc as int == digits_value(d.subrange(0, i - start)),
            !over ==> acc <= bound,
            over ==> digits_value(d.subrange(0, i - start)) > bound,
            digits_value(d.subrange(0, i - start)) >= 0,
        decreases n - i,
    {
        let c = v[i];
        let ghost pre = d.subrange(0, i - start);
        let ghost next = d.subrange(0, i + 1 - start);
        assert(next.drop_last() =~= pre);
        assert(next.last() == c);
        if !('0' <= c && c <= '9') {
            assert(!is_digit(d[i - start]));
            return None;
        }
        let dv = (c as u32 - '0' as u32) as u64;
        assert(dv as int == digit_value(c));
        if !over {
            if dv > bound || acc > (bound - dv) / 10 {
                over = true;
            } else {
                acc = acc * 10 + dv;
            }
        }
        i = i + 1;
        assert(all_digits(d.subrange(0, i - start)));
    }
    assert(d.subrange(0, n - start) =~= d);
    if over {
        None
    } else {
        Some(acc)
    }
}

/// `s.parse::<i64>()`, as std defines it for decimal text.
pub fn parse_i64(s: &str) -> (r: Option<i64>)
    ensures
        r == spec_parse_i64(s@),
{
    let v = chars_of(s);
    let n = v.len();
    if n > 0 && v[0] == '-' {
        assert(v@.subrange(1, n as int) =~= s@.drop_first());
        match scan_digits(&v, 1, 0x8000_0000_0000_0000) {
            Some(m) => {
                let x = (0i128 - m as i128) as i64;
                Some(x)
            },
            None => None,
        }
    } else {
        let start: usize = if n > 0 && v[0] == '+' { 1 } else { 0 };
        assert(v@.subrange(start as int, n as int) =~= (if s@.len() > 0 && s@[0] == '+' {
            s@.drop_first()
        } else {
            s@
        }));
        match scan_digits(&v, start, 0x7fff_ffff_ffff_ffff) {
            Some(m) => Some(m as i64),
            None => None,
        }
    }
}

/// `s.parse::<u32>()`, as std defines it for decimal text.
pub fn parse_u32(s: &str) -> (r: Option<u32>)
    ensures
        r == spec_parse_u32(s@),
{
    let v = chars_of(s);
    let n = v.len();
    let start: usize = if n > 0 && v[0] == '+' { 1 } else { 0 };
    assert(v@.subrange(start as int, n as int) =~= (if s@.len() > 0 && s@[0] == '+' {
        s@.drop_first()
    } else {
        s@
    }));
    match scan_digits(&v, start, 0xffff_ffff) {
        Some(m) => Some(m as u32),
        None => None,
    }
}

fn push_decimal(out: &mut String, m: u64)
    ensures
        final(out)@ == old(out)@ + decimal_digits(m as nat),
    decreases m,
{
    if m >= 10 {
        push_decimal(out, m / 10);
    }
    let d = m % 10;
    let c = if d == 0 { '0' } else if d == 1 { '1' } else if d == 2 { '2' } else if d == 3 {
        '3'
    } else if d == 4 { '4' } else if d == 5 { '5' } else if d == 6 { '6' } else if d == 7 {
        '7'
    } else if d == 8 { '8' } else { '9' };
    assert(c == digit_char((m % 10) as int));
    push_char(out, c);
    assert(out@ =~= old(out)@ + decimal_digits(m as nat));
}

/// `n.to_string()` for an `i64`: a `-` for negative numbers, then the
/// decimal digits of the magnitude.
pub fn i64_to_text(n: i64) -> (r: String)
    ensures
        r@ == spec_i64_text(n as int),
{
    let mut out = String::new();
    if n < 0 {
        push_char(&mut out, '-');
        let m = (0i128 - n as i128) as u64;
        push_decimal(&mut out, m);
    } else {
        push_decimal(&mut out, n as u64);
    }
    out
}

/// The digits of `n` are a non-empty run of digits that denotes `n`.
pub proof fn lemma_decimal_digits(n: nat)
    ensures
        decimal_digits(n).len() > 0,
        all_digits(decimal_digits(n)),
        digits_value(decimal_digits(n)) == n,
    decreases n,
{
    let k = (n % 10) as int;
    assert(digit_value(digit_char(k)) == k);
    if n < 10 {
        let s = decimal_digits(n);
        assert(s.drop_last() =~= Seq::<char>::empty());
        assert(s.last() == digit_char(k));
        assert(digits_value(s) == digits_value(s.drop_last()) * 10 + digit_value(s.last()));
    }
    if n >= 10 {
        lemma_decimal_digits(n / 10);
        let s = decimal_digits(n);
        assert(n == (n / 10) * 10 + k);
        assert(s.drop_last() =~= decimal_digits(n / 10));
        assert(s.last() == digit_char(k));
        assert(digits_value(s) == digits_value(s.drop_last()) * 10 + digit_value(s.last()));
        assert(all_digits(s)) by {
            assert forall|i: int| 0 <= i < s.len() implies is_digit(#[trigger] s[i]) by {
                if i < s.len() - 1 {
                    assert(s[i] == decimal_digits(n / 10)[i]);
                }
            }
        }
    }
}

/// Reading back what `i64_to_text` writes gives the same number: the text
/// of every `i64` parses to that `i64`.
pub proof fn law_i64_text_round_trip(n: i64)
    ensures
        spec_parse_i64(spec_i64_text(n as int)) == Some(n),
{
    if n < 0 {
        let m = (-(n as int)) as nat;
        lemma_decimal_digits(m);
        let t = spec_i64_text(n as int);
        assert(t.drop_first() =~= decimal_digits(m));
    } else {
        let m = n as nat;
        lemma_decimal_digits(m);
        let d = decimal_digits(m);
        assert(is_digit(d[0]));
    }
}

/// The decimal digits of every `u32` parse back to it, as they do with an
/// explicit `+` before them; text with no digits parses to nothing.
pub proof fn law_u32_text_round_trip(n: u32)
    ensures
        spec_parse_u32(decimal_digits(n as nat)) == Some(n),
        spec_parse_u32(seq!['+'] + decimal_digits(n as nat)) == Some(n),
        spec_parse_u32(Seq::<char>::empty()) is None,
        spec_parse_u32(seq!['+']) is None,
{
    lemma_decimal_digits(n as nat);
    let d = decimal_digits(n as nat);
    assert(is_digit(d[0]));
    assert((seq!['+'] + d).drop_first() =~= d);
    assert(seq!['+'].drop_first() =~= Seq::<char>::empty());
}

} // verus!
