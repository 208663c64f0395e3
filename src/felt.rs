//! Ledger words: the fixed-width values that addresses, hashes and event
//! data are made of.
use vstd::prelude::*;
use crate::hex::{hex_pad, push_hex, lemma_hex_pad_split, lemma_pow16_32};
use crate::token_id::half_base;

verus! {

/// A 256-bit ledger word, held as its high and low 128-bit halves.
#[derive(Clone, Copy, Debug, PartialEq, Eq, Structural)]
pub struct Felt {
    pub high: u128,
    pub low: u128,
}

/// Number of hexadecimal digits in a rendered word.
pub const WORD_DIGITS: usize = 64;

/// The value of a hexadecimal digit of either case.
pub open spec fn hex_digit_value(c: char) -> Option<nat> {
    if '0' <= c && c <= '9' {
        Some((c as u32 - '0' as u32) as nat)
    } else if 'a' <= c && c <= 'f' {
        Some((c as u32 - 'a' as u32 + 10) as nat)
    } else if 'A' <= c && c <= 'F' {
        Some((c as u32 - 'A' as u32 + 10) as nat)
    } else {
        None
    }
}

pub open spec fn all_hex(s: Seq<char>) -> bool {
    forall|i: int| 0 <= i < s.len() ==> (#[trigger] hex_digit_value(s[i])) is Some
}

/// The number that a string of hexadecimal digits denotes.
pub open spec fn hex_value(s: Seq<char>) -> nat
    decreases s.len(),
{
    if s.len() == 0 {
        0
    } else {
        hex_value(s.drop_last()) * 16 + hex_digit_value(s.last()).unwrap_or(0)
    }
}

/// The digits of a word's text: what follows an optional `0x`.
pub open spec fn word_digits(s: Seq<char>) -> Seq<char> {
    if s.len() >= 2 && s[0] == '0' && s[1] == 'x' {
        s.subrange(2, s.len() as int)
    } else {
        s
    }
}

/// High half of the ledger's field modulus `2^251 + 17 * 2^192 + 1`.
pub const FIELD_MODULUS_HIGH: u128 = 0x0800_0000_0000_0011_0000_0000_0000_0000;

/// The ledger's field modulus; every word of the ledger lies below it.
pub open spec fn field_modulus() -> nat {
    FIELD_MODULUS_HIGH as nat * half_base() + 1
}

/// The value of a word's text: one to sixty-four hexadecimal digits after
/// an optional `0x`, denoting a value below the field modulus.
pub open spec fn parse_word_spec(s: Seq<char>) -> Option<nat> {
    let d = word_digits(s);
    if 0 < d.len() <= 64 && all_hex(d) && hex_value(d) < field_modulus() {
        Some(hex_value(d))
    } else {
        None
    }
}

/// `2^124`: a low half shifted by one digit carries what is above it.
pub const CARRY_BASE: u128 = 0x1000_0000_0000_0000_0000_0000_0000_0000;

fn digit_of(c: char) -> (r: Option<u128>)
    ensures
        r matches Some(v) ==> hex_digit_value(c) == Some(v as nat) && v < 16,
        r is None ==> hex_digit_value(c) is None,
{
    if '0' <= c && c <= '9' {
        Some((c as u32 - '0' as u32) as u128)
    } else if 'a' <= c && c <= 'f' {
        Some((c as u32 - 'a' as u32 + 10) as u128)
    } else if 'A' <= c && c <= 'F' {
        Some((c as u32 - 'A' as u32 + 10) as u128)
    } else {
        None
    }
}

proof fn lemma_hex_value_bound(s: Seq<char>)
    requires
        all_hex(s),
    ensures
        hex_value(s) < crate::hex::pow16(s.len()),
    decreases s.len(),
{
    if s.len() > 0 {
        assert(all_hex(s.drop_last()) && hex_digit_value(s[s.len() - 1]) is Some);
        lemma_hex_value_bound(s.drop_last());
        let p = crate::hex::pow16((s.len() - 1) as nat);
        let v = hex_value(s.drop_last());
        let d = hex_digit_value(s.last()).unwrap_or(0);
        assert(d < 16);
        assert(v * 16 + d < 16 * p) by (nonlinear_arith)
            requires
                v < p,
                d < 16,
        ;
    }
}

impl Felt {
    /// Reads a word from its text: one to sixty-four hexadecimal digits
    /// (either case) after an optional `0x`, for a value below the field
    /// modulus.
    pub fn from_hex(s: &str) -> (r: Option<Felt>)
        ensures
            r matches Some(f) ==> parse_word_spec(s@) == Some(f.value()),
            r is None ==> parse_word_spec(s@) is None,
    {
        let n = s.unicode_len();
        let mut start: usize = 0;
        if n >= 2 && s.get_char(0) == '0' && s.get_char(1) == 'x' {
            start = 2;
        }
        let ghost d = word_digits(s@);
        assert(d =~= s@.subrange(start as int, n as int));
        if start == n || n - start > 64 {
            return None;
        }
        let mut high: u128 = 0;
        let mut low: u128 = 0;
        let mut i: usize = start;
        proof {
            lemma_pow16_32();
            assert(d.subrange(0, 0) =~= Seq::<char>::empty());
        }
        while i < n
            invariant
                start <= i <= n,
                n == s@.len(),
                n - start <= 64,
                d =~= s@.subrange(start as int, n as int),
                d == word_digits(s@),
                all_hex(d.subrange(0, i - start)),
                high as nat * half_base() + low as nat == hex_value(d.subrange(0, i - start)),
                crate::hex::pow16(32) == half_base(),
            decreases n - i,
        {
            let c = s.get_char(i);
            let ghost k = i - start;
            assert(d[k] == c);
            let x = match digit_of(c) {
                Some(x) => x,
                None => {
                    assert(!all_hex(d));
                    assert(parse_word_spec(s@) is None);
                    return None;
                },
            };
            let ghost prefix = d.subrange(0, k + 1);
            assert(prefix.drop_last() =~= d.subrange(0, k));
            assert(all_hex(prefix));
            assert(hex_value(prefix) == hex_value(d.subrange(0, k)) * 16 + x);
            proof {
                lemma_hex_value_bound(prefix);
                crate::hex::lemma_pow16_split((k + 1) as nat, 64);
                let v = hex_value(d.subrange(0, k));
                let b = half_base();
                let (h, l) = (high as nat, low as nat);
                let c = CARRY_BASE as nat;
                assert(b == c * 16);
                assert(v * 16 + x < b * b);
                assert(h * 16 + l / c < b && (l % c) * 16 + x < b && (h * 16 + l / c) * b + (l % c)
                    * 16 + x == v * 16 + x) by (nonlinear_arith)
                    requires
                        h * b + l == v,
                        v * 16 + x < b * b,
                        b == c * 16,
                        c > 0,
                        l < b,
                        x < 16,
                ;
            }
            high = high * 16 + low / CARRY_BASE;
            low = (low % CARRY_BASE) * 16 + x;
            i = i + 1;
        }
        assert(d.subrange(0, n - start) =~= d);
        proof {
            let (h, l, b, fh) = (high as nat, low as nat, half_base(), FIELD_MODULUS_HIGH as nat);
            assert(h > fh ==> h * b + l >= fh * b + 1) by (nonlinear_arith)
                requires
                    b > 1,
            ;
            assert(h < fh ==> h * b + l < fh * b + 1) by (nonlinear_arith)
                requires
                    l < b,
            ;
        }
        if high > FIELD_MODULUS_HIGH || (high == FIELD_MODULUS_HIGH && low >= 1) {
            return None;
        }
        Some(Felt { high, low })
    }

    pub open spec fn value(self) -> nat {
        self.high as nat * half_base() + self.low as nat
    }

    /// `"0x"` followed by the value in lowercase hexadecimal, zero-padded to
    /// sixty-four digits, so every word renders at the same length.
    pub open spec fn rendered(self) -> Seq<char> {
        seq!['0', 'x'] + hex_pad(self.value(), WORD_DIGITS as nat)
    }

    /// Every word renders at the same length: `"0x"` and sixty-four digits.
    pub proof fn lemma_rendered_len(self)
        ensures
            self.rendered().len() == 66,
    {
        lemma_pow16_32();
        crate::hex::lemma_pow16_split(64, 64);
        let (h, l, b) = (self.high as nat, self.low as nat, half_base());
        assert(h * b + l < b * b) by (nonlinear_arith)
            requires
                h < b,
                l < b,
        ;
        crate::hex::lemma_hex_pad_len(self.value(), 64);
    }

    pub fn new(high: u128, low: u128) -> (r: Felt)
        ensures
            r.high == high,
            r.low == low,
    {
        Felt { high, low }
    }

    pub fn zero() -> (r: Felt)
        ensures
            r.value() == 0,
    {
        Felt { high: 0, low: 0 }
    }

    /// Whether this word is the zero sentinel.
    pub fn is_zero(&self) -> (r: bool)
        ensures
            r == (self.value() == 0),
    {
        proof {
            let (h, l) = (self.high as nat, self.low as nat);
            assert(h > 0 ==> h * half_base() + l >= half_base()) by (nonlinear_arith);
        }
        self.high == 0 && self.low == 0
    }

    /// The word as a 128-bit integer, when it fits.
    pub fn to_u128(&self) -> (r: Option<u128>)
        ensures
            r == (if self.value() < half_base() {
                Some(self.low)
            } else {
                None::<u128>
            }),
    {
        proof {
            let (h, l) = (self.high as nat, self.low as nat);
            assert(h > 0 ==> h * half_base() + l >= half_base()) by (nonlinear_arith);
        }
        if self.high == 0 {
            Some(self.low)
        } else {
            None
        }
    }

    /// Plain lowercase hexadecimal form, as passed in contract calldata.
    pub fn to_hex(&self) -> (r: String)
        ensures
            r@ == hex_pad(self.value(), 1),
    {
        let mut out = String::new();
        if self.high == 0 {
            push_hex(&mut out, self.low, 1);
            assert(out@ =~= hex_pad(self.value(), 1));
        } else {
            let t = crate::token_id::TokenId::new(self.low, self.high);
            out = t.token_id_hex();
        }
        out
    }

    /// The canonical `0x`-prefixed, zero-padded rendering of the word.
    pub fn to_padded_hex(&self) -> (r: String)
        ensures
            r@ == self.rendered(),
    {
        let mut out = String::from_str("0x");
        proof {
            reveal_strlit("0x");
        }
        push_hex(&mut out, self.high, 32);
        push_hex(&mut out, self.low, 32);
        proof {
            lemma_pow16_32();
            lemma_hex_pad_split(self.high as nat, self.low as nat, 32, 32);
            assert(out@ =~= self.rendered());
        }
        out
    }
}

} // verus!
