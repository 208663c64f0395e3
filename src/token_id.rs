//! Token identifiers: two 128-bit halves forming one 256-bit value.
use vstd::prelude::*;
use crate::hex::{hex_pad, lex_lt, pow16, push_hex, lemma_hex_pad_split, lemma_hex_pad_wide,
    lemma_hex_pad_order, lemma_pow16_32, lemma_pow16_positive};

verus! {

/// A token identifier, given by its low and high 128-bit halves.
#[derive(Clone, Copy, Debug, PartialEq, Eq, Structural)]
pub struct TokenId {
    pub low: u128,
    pub high: u128,
}

/// `2^128`, the weight of the high half.
pub open spec fn half_base() -> nat {
    u128::MAX as nat + 1
}

impl TokenId {
    /// The logical identifier `high * 2^128 + low`.
    pub open spec fn value(self) -> nat {
        self.high as nat * half_base() + self.low as nat
    }

    /// The sortable storage-key form: sixty-four hexadecimal digits.
    pub open spec fn padded_spec(self) -> Seq<char> {
        hex_pad(self.value(), 64)
    }

    pub fn new(low: u128, high: u128) -> (r: TokenId)
        ensures
            r.low == low,
            r.high == high,
    {
        TokenId { low, high }
    }

    /// Fixed-width, zero-padded form whose string order is numeric order.
    pub fn padded_token_id(&self) -> (r: String)
        ensures
            r@ == self.padded_spec(),
    {
        let mut out = String::new();
        push_hex(&mut out, self.high, 32);
        push_hex(&mut out, self.low, 32);
        proof {
            lemma_pow16_32();
            lemma_hex_pad_split(self.high as nat, self.low as nat, 32, 32);
            assert(out@ =~= hex_pad(self.value(), 64));
        }
        out
    }

    /// Lowercase hexadecimal form of the whole identifier, without padding.
    pub fn token_id_hex(&self) -> (r: String)
        ensures
            r@ == hex_pad(self.value(), 1),
    {
        let mut out = String::new();
        proof {
            lemma_pow16_32();
        }
        if self.high == 0 {
            push_hex(&mut out, self.low, 1);
            assert(out@ =~= hex_pad(self.value(), 1));
        } else {
            push_hex(&mut out, self.high, 1);
            push_hex(&mut out, self.low, 32);
            proof {
                let v = self.value();
                let h = self.high as nat;
                let l = self.low as nat;
                assert(v >= pow16(32)) by (nonlinear_arith)
                    requires
                        v == h * pow16(32) + l,
                        h >= 1,
                ;
                assert(pow16(32) == 16 * pow16(31));
                lemma_pow16_positive(31);
                lemma_hex_pad_wide(v, 1);
                lemma_hex_pad_wide(v, 32);
                lemma_hex_pad_split(h, l, 32, 0);
                lemma_hex_pad_wide(h, 1);
                assert(pow16(0) == 1);
                assert(out@ =~= hex_pad(v, 1));
            }
        }
        out
    }

    /// Hexadecimal form of the low half, as passed in contract calldata.
    pub fn low_hex(&self) -> (r: String)
        ensures
            r@ == hex_pad(self.low as nat, 1),
    {
        let mut out = String::new();
        push_hex(&mut out, self.low, 1);
        assert(out@ =~= hex_pad(self.low as nat, 1));
        out
    }

    /// Hexadecimal form of the high half, as passed in contract calldata.
    pub fn high_hex(&self) -> (r: String)
        ensures
            r@ == hex_pad(self.high as nat, 1),
    {
        let mut out = String::new();
        push_hex(&mut out, self.high, 1);
        assert(out@ =~= hex_pad(self.high as nat, 1));
        out
    }
}

/// Padded identifiers sort as their numeric values do: whenever `a` is
/// numerically below `b`, the padded form of `a` is lexicographically below
/// that of `b`.
pub proof fn lemma_padded_order(a: TokenId, b: TokenId)
    requires
        a.value() < b.value(),
    ensures
        lex_lt(a.padded_spec(), b.padded_spec()),
{
    lemma_pow16_32();
    let base = half_base();
    let (ah, al, bh, bl) = (a.high as nat, a.low as nat, b.high as nat, b.low as nat);
    assert(b.value() < pow16(64)) by {
        reveal_with_fuel(pow16, 65);
        assert(bh * base + bl < base * base) by (nonlinear_arith)
            requires
                bh < base,
                bl < base,
        ;
    }
    lemma_hex_pad_order(a.value(), b.value(), 64);
}

} // verus!
