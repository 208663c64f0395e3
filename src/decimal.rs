//! Decimal text of unsigned integers, as stored for collection timestamps.
use vstd::prelude::*;
use crate::hex::hex_char;

verus! {

pub open spec fn is_digit(c: char) -> bool {
    '0' <= c && c <= '9'
}

pub open spec fn digit_value(c: char) -> nat {
    (c as u32 - '0' as u32) as nat
}

pub open spec fn all_digits(s: Seq<char>) -> bool {
    forall|i: int| 0 <= i < s.len() ==> is_digit(#[trigger] s[i])
}

/// The number that a string of decimal digits denotes.
pub open spec fn digits_value(s: Seq<char>) -> nat
    decreases s.len(),
{
    if s.len() == 0 {
        0
    } else {
        digits_value(s.drop_last()) * 10 + digit_value(s.last())
    }
}

/// What parsing `s` as a `u64` gives: an optional `'+'`, then one or more
/// decimal digits whose value fits in 64 bits.
pub open spec fn parse_u64_spec(s: Seq<char>) -> Option<u64> {
    let t = if s.len() > 0 && s[0] == '+' { s.drop_first() } else { s };
    if t.len() > 0 && all_digits(t) && digits_value(t) <= u64::MAX {
        Some(digits_value(t) as u64)
    } else {
        None
    }
}

/// The shortest decimal text of `v`.
pub open spec fn decimal_text(v: nat) -> Seq<char>
    decreases v,
{
    if v < 10 {
        seq![digit_char(v)]
    } else {
        decimal_text(v / 10).push(digit_char(v % 10))
    }
}

pub open spec fn digit_char(d: nat) -> char {
    hex_char(d)
}

proof fn lemma_digit_char(d: nat)
    requires
        d < 10,
    ensures
        digit_value(digit_char(d)) == d,
        is_digit(digit_char(d)),
{
    if d == 0 {
    } else if d == 1 {
    } else if d == 2 {
    } else if d == 3 {
    } else if d == 4 {
    } else if d == 5 {
    } else if d == 6 {
    } else if d == 7 {
    } else if d == 8 {
    } else {
        assert(d == 9);
    }
}

proof fn lemma_digits_prefix_le(s: Seq<char>, i: int)
    requires
        0 <= i <= s.len(),
        all_digits(s),
    ensures
        digits_value(s.subrange(0, i)) <= digits_value(s),
    decreases s.len() - i,
{
    if i < s.len() {
        lemma_digits_prefix_le(s, i + 1);
        let p = s.subrange(0, i + 1);
        assert(p.drop_last() =~= s.subrange(0, i));
    } else {
        assert(s.subrange(0, i) =~= s);
    }
}

/// Decimal text reads back as the value it was written from.
pub proof fn lemma_decimal_round_trip(v: nat)
    requires
        v <= u64::MAX,
    ensures
        parse_u64_spec(decimal_text(v)) == Some(v as u64),
        decimal_text(v).len() > 0,
        all_digits(decimal_text(v)),
        digits_value(decimal_text(v)) == v,
    decreases v,
{
    let s = decimal_text(v);
    if v < 10 {
        lemma_digit_char(v);
        assert(s.drop_last() =~= Seq::<char>::empty());
        assert(digits_value(Seq::<char>::empty()) == 0);
        assert(s.last() == digit_char(v));
        assert(digits_value(s) == digits_value(s.drop_last()) * 10 + digit_value(s.last()));
    } else {
        lemma_decimal_round_trip(v / 10);
        assert(s.drop_last() =~= decimal_text(v / 10));
        lemma_digit_char(v % 10);
        assert(s.last() == digit_char(v % 10));
        assert(digits_value(s) == digits_value(s.drop_last()) * 10 + digit_value(s.last()));
        assert(v == (v / 10) * 10 + v % 10);
        assert forall|i: int| 0 <= i < s.len() implies is_digit(#[trigger] s[i]) by {
            if i < s.len() - 1 {
                assert(s[i] == decimal_text(v / 10)[i]);
            }
        }
    }
    assert(s[0] != '+');
}

/// Parses `s` as a `u64` in decimal, as `str::parse::<u64>` does.
pub fn parse_u64(s: &str) -> (r: Option<u64>)
    ensures
        r == parse_u64_spec(s@),
{
    let n = s.unicode_len();
    let mut start: usize = 0;
    if n > 0 && s.get_char(0) == '+' {
        start = 1;
    }
    let ghost t = if s@.len() > 0 && s@[0] == '+' { s@.drop_first() } else { s@ };
    assert(t =~= s@.subrange(start as int, n as int));
    if start == n {
        return None;
    }
    let mut acc: u64 = 0;
    let mut i: usize = start;
    while i < n
        invariant
            start <= i <= n,
            n == s@.len(),
            t =~= s@.subrange(start as int, n as int),
            t == (if s@.len() > 0 && s@[0] == '+' { s@.drop_first() } else { s@ }),
            all_digits(t.subrange(0, i - start)),
            acc as nat == digits_value(t.subrange(0, i - start)),
        decreases n - i,
    {
        let c = s.get_char(i);
        let ghost k = i - start;
        assert(t[k] == c);
        if c < '0' || c > '9' {
            assert(!all_digits(t));
            assert(parse_u64_spec(s@) is None);
            return None;
        }
        let d = (c as u32 - '0' as u32) as u64;
        assert(t.subrange(0, k + 1).drop_last() =~= t.subrange(0, k));
        assert(all_digits(t.subrange(0, k + 1)));
        assert(digits_value(t.subrange(0, k + 1)) == acc * 10 + d);
        match acc.checked_mul(10) {
            Some(m) => match m.checked_add(d) {
                Some(x) => {
                    acc = x;
                },
                None => {
                    proof {
                        lemma_over(t, k);
                    }
                    assert(parse_u64_spec(s@) is None);
                    return None;
                },
            },
            None => {
                proof {
                    lemma_over(t, k);
                }
                assert(parse_u64_spec(s@) is None);
                return None;
            },
        }
        i = i + 1;
    }
    assert(t.subrange(0, n - start) =~= t);
    Some(acc)
}

proof fn lemma_over(t: Seq<char>, k: int)
    requires
        0 <= k < t.len(),
        all_digits(t.subrange(0, k + 1)),
        digits_value(t.subrange(0, k + 1)) > u64::MAX,
    ensures
        !(all_digits(t) && digits_value(t) <= u64::MAX),
{
    if all_digits(t) {
        lemma_digits_prefix_le(t, k + 1);
    }
}

} // verus!
