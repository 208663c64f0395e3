//! Lowercase hexadecimal rendering of integers, with an optional minimum width.
use vstd::prelude::*;

verus! {

/// Lowercase hexadecimal digit for `d < 16`.
pub open spec fn hex_char(d: nat) -> char {
    if d == 0 { '0' } else if d == 1 { '1' } else if d == 2 { '2' } else if d == 3 { '3' }
    else if d == 4 { '4' } else if d == 5 { '5' } else if d == 6 { '6' } else if d == 7 { '7' }
    else if d == 8 { '8' } else if d == 9 { '9' } else if d == 10 { 'a' } else if d == 11 { 'b' }
    else if d == 12 { 'c' } else if d == 13 { 'd' } else if d == 14 { 'e' } else { 'f' }
}

/// `v` in lowercase hexadecimal, left-padded with `'0'` to at least `width`
/// digits. With `width == 1` this is the plain form (`"0"` for zero).
pub open spec fn hex_pad(v: nat, width: nat) -> Seq<char>
    decreases v, width,
{
    if v == 0 && width == 0 {
        Seq::empty()
    } else {
        hex_pad(v / 16, if width > 0 { (width - 1) as nat } else { 0 }).push(hex_char(v % 16))
    }
}

pub open spec fn pow16(k: nat) -> nat
    decreases k,
{
    if k == 0 { 1 } else { 16 * pow16((k - 1) as nat) }
}

/// Strict lexicographic order on character sequences of equal length.
pub open spec fn lex_lt(a: Seq<char>, b: Seq<char>) -> bool {
    &&& a.len() == b.len()
    &&& exists|i: int|
        0 <= i < a.len() && a.subrange(0, i) == b.subrange(0, i) && (#[trigger] a[i] as u32) < (
            b[i] as u32)
}

pub proof fn lemma_pow16_positive(k: nat)
    ensures
        pow16(k) >= 1,
    decreases k,
{
    if k > 0 {
        lemma_pow16_positive((k - 1) as nat);
    }
}

/// `2^128` has thirty-two hexadecimal digits.
pub proof fn lemma_pow16_32()
    ensures
        pow16(32) == u128::MAX as nat + 1,
{
    reveal_with_fuel(pow16, 33);
}

/// `16^k` is at most `16^m` for `k <= m`, and `16^64 == (16^32)^2`.
pub proof fn lemma_pow16_split(k: nat, m: nat)
    requires
        k <= m,
    ensures
        pow16(k) <= pow16(m),
        pow16(64) == pow16(32) * pow16(32),
    decreases m,
{
    if k < m {
        lemma_pow16_split(k, (m - 1) as nat);
        lemma_pow16_positive((m - 1) as nat);
    }
    lemma_pow16_mul(32, 32);
}

proof fn lemma_pow16_mul(a: nat, b: nat)
    ensures
        pow16(a + b) == pow16(a) * pow16(b),
    decreases b,
{
    if b > 0 {
        lemma_pow16_mul(a, (b - 1) as nat);
        assert(pow16(a + b) == 16 * pow16((a + b - 1) as nat));
        assert((a + b - 1) as nat == a + (b - 1) as nat);
        assert(pow16(b) == 16 * pow16((b - 1) as nat));
        assert(pow16(a) * (16 * pow16((b - 1) as nat)) == 16 * (pow16(a) * pow16((b - 1) as nat)))
            by (nonlinear_arith);
    } else {
        assert(pow16(0) == 1);
        assert(a + b == a);
    }
}

/// A value below `16^k` padded to `k` digits has exactly `k` digits.
pub proof fn lemma_hex_pad_len(v: nat, k: nat)
    requires
        v < pow16(k),
    ensures
        hex_pad(v, k).len() == k,
    decreases k,
{
    if k > 0 {
        assert(v / 16 < pow16((k - 1) as nat));
        lemma_hex_pad_len(v / 16, (k - 1) as nat);
    }
}

/// Once a value has at least `width` digits, the width no longer matters.
pub proof fn lemma_hex_pad_wide(v: nat, width: nat)
    requires
        width > 0 ==> v >= pow16((width - 1) as nat),
    ensures
        hex_pad(v, width) == hex_pad(v, 0),
    decreases width,
{
    if width > 0 {
        lemma_pow16_positive((width - 1) as nat);
        if width > 1 {
            assert(v / 16 >= pow16((width - 2) as nat));
        }
        lemma_hex_pad_wide(v / 16, (width - 1) as nat);
    }
}

/// Splitting off the last `k` digits: `h * 16^k + l` renders as `h` followed
/// by `l` padded to `k` digits.
pub proof fn lemma_hex_pad_split(h: nat, l: nat, k: nat, width: nat)
    requires
        l < pow16(k),
    ensures
        hex_pad(h * pow16(k) + l, width + k) == hex_pad(h, width) + hex_pad(l, k),
    decreases k,
{
    if k == 0 {
        assert(l == 0);
        assert(hex_pad(h, width) + hex_pad(0, 0) =~= hex_pad(h, width));
    } else {
        let k1 = (k - 1) as nat;
        let v = h * pow16(k) + l;
        let p = pow16(k1);
        assert(h * pow16(k) == (h * p) * 16) by (nonlinear_arith)
            requires
                pow16(k) == 16 * p,
        ;
        assert(v / 16 == h * p + l / 16 && v % 16 == l % 16) by (nonlinear_arith)
            requires
                v == (h * p) * 16 + l,
        ;
        assert(l / 16 < p) by (nonlinear_arith)
            requires
                l < 16 * p,
        ;
        lemma_hex_pad_split(h, l / 16, k1, width);
        assert((width + k1) as nat == (width + k - 1) as nat);
        assert(hex_pad(v, width + k) == hex_pad(v / 16, (width + k - 1) as nat).push(
            hex_char(v % 16),
        ));
        assert(hex_pad(l, k) == hex_pad(l / 16, k1).push(hex_char(l % 16)));
        assert(hex_pad(v, width + k) =~= hex_pad(h, width) + hex_pad(l, k));
    }
}

proof fn lemma_hex_char_order(a: nat, b: nat)
    requires
        a < b < 16,
    ensures
        (hex_char(a) as u32) < (hex_char(b) as u32),
{
}

/// Fixed-width rendering preserves order: for values below `16^k`, the
/// smaller value's `k`-digit form sorts first.
pub proof fn lemma_hex_pad_order(a: nat, b: nat, k: nat)
    requires
        a < b < pow16(k),
    ensures
        lex_lt(hex_pad(a, k), hex_pad(b, k)),
    decreases k,
{
    let k1 = (k - 1) as nat;
    assert(k > 0);
    assert(a / 16 <= b / 16);
    assert(a / 16 < pow16(k1) && b / 16 < pow16(k1));
    lemma_hex_pad_len(a / 16, k1);
    lemma_hex_pad_len(b / 16, k1);
    let sa = hex_pad(a, k);
    let sb = hex_pad(b, k);
    lemma_hex_pad_len(a, k);
    lemma_hex_pad_len(b, k);
    assert(sa == hex_pad(a / 16, k1).push(hex_char(a % 16)));
    assert(sb == hex_pad(b / 16, k1).push(hex_char(b % 16)));
    if a / 16 < b / 16 {
        lemma_hex_pad_order(a / 16, b / 16, k1);
        let pa = hex_pad(a / 16, k1);
        let pb = hex_pad(b / 16, k1);
        let i = choose|i: int|
            0 <= i < pa.len() && pa.subrange(0, i) == pb.subrange(0, i) && (#[trigger] pa[i] as u32)
                < (pb[i] as u32);
        assert(sa.subrange(0, i) =~= pa.subrange(0, i));
        assert(sb.subrange(0, i) =~= pb.subrange(0, i));
        assert(sa[i] == pa[i]);
        assert(sb[i] == pb[i]);
        assert(0 <= i < sa.len() && sa.subrange(0, i) == sb.subrange(0, i) && (sa[i] as u32) < (
            sb[i] as u32));
    } else {
        assert(a % 16 < b % 16);
        lemma_hex_char_order(a % 16, b % 16);
        let i = k1 as int;
        assert(sa.subrange(0, i) =~= hex_pad(a / 16, k1));
        assert(sb.subrange(0, i) =~= hex_pad(b / 16, k1));
        assert(sa[i] == hex_char(a % 16));
        assert(sb[i] == hex_char(b % 16));
        assert(0 <= i < sa.len() && sa.subrange(0, i) == sb.subrange(0, i) && (sa[i] as u32) < (
            sb[i] as u32));
    }
}

/// Appends the hexadecimal digit `d` to `out`.
fn push_hex_digit(out: &mut String, d: u8)
    requires
        d < 16,
    ensures
        final(out)@ == old(out)@.push(hex_char(d as nat)),
{
    let alphabet = "0123456789abcdef";
    proof {
        reveal_strlit("0123456789abcdef");
    }
    let one = alphabet.substring_char(d as usize, d as usize + 1);
    assert(one@ =~= seq![hex_char(d as nat)]);
    out.append(one);
}

/// Appends `v` in lowercase hexadecimal, padded to at least `width` digits.
pub fn push_hex(out: &mut String, v: u128, width: usize)
    ensures
        final(out)@ == old(out)@ + hex_pad(v as nat, width as nat),
    decreases v, width,
{
    if v == 0 && width == 0 {
        assert(old(out)@ + Seq::<char>::empty() =~= old(out)@);
        return;
    }
    let w: usize = if width > 0 { width - 1 } else { 0 };
    push_hex(out, v / 16, w);
    push_hex_digit(out, (v % 16) as u8);
    assert(out@ =~= old(out)@ + hex_pad(v as nat, width as nat));
}

} // verus!
