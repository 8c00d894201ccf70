//! Unsigned 256-bit amounts (native gas, transferred value), held as four
//! little-endian 64-bit words, with the arithmetic taken from `ethereum_types::U256`.

use vstd::prelude::*;

verus! {

/// 2^64.
pub open spec fn word_base() -> int {
    0x1_0000_0000_0000_0000
}

/// 2^256: the first value a 256-bit word cannot hold.
pub open spec fn word256_bound() -> int {
    word_base() * word_base() * word_base() * word_base()
}

/// The number that four little-endian words stand for.
pub open spec fn words_value(w: Seq<u64>) -> nat
    recommends
        w.len() == 4,
{
    (w[0] as int + word_base() * (w[1] as int + word_base() * (w[2] as int + word_base()
        * w[3] as int))) as nat
}

/// The low `n` bytes of `x`, least significant first.
pub open spec fn le_bytes(x: nat, n: nat) -> Seq<u8>
    decreases n,
{
    if n == 0 {
        Seq::empty()
    } else {
        seq![(x % 256) as u8] + le_bytes(x / 256, (n - 1) as nat)
    }
}

/// The 32-byte big-endian encoding of four little-endian words.
pub open spec fn be_bytes_of_words(w: Seq<u64>) -> Seq<u8> {
    (le_bytes(w[0] as nat, 8) + le_bytes(w[1] as nat, 8) + le_bytes(w[2] as nat, 8) + le_bytes(
        w[3] as nat,
        8,
    )).reverse()
}

/// Appends the eight bytes of `x`, least significant first.
fn push_le_u64(out: &mut Vec<u8>, x: u64)
    ensures
        final(out)@ == old(out)@ + le_bytes(x as nat, 8),
{
    let mut v: u64 = x;
    let mut k: usize = 0;
    while k < 8
        invariant
            k <= 8,
            out@ + le_bytes(v as nat, (8 - k) as nat) == old(out)@ + le_bytes(x as nat, 8),
        decreases 8 - k,
    {
        let ghost before = out@;
        let ghost pv = v;
        assert(le_bytes(v as nat, (8 - k) as nat) == seq![(v % 256) as u8] + le_bytes(
            (v / 256) as nat,
            (8 - k - 1) as nat,
        ));
        out.push((v % 256) as u8);
        v = v / 256;
        k = k + 1;
        assert(before + (seq![(pv % 256) as u8] + le_bytes(v as nat, (8 - k) as nat)) =~= out@
            + le_bytes(v as nat, (8 - k) as nat)) by {
            assert(out@ == before.push((pv % 256) as u8));
        }
    }
    assert(le_bytes(v as nat, 0) == Seq::<u8>::empty());
    assert(out@ + Seq::<u8>::empty() =~= out@);
}

/// An unsigned 256-bit integer.
#[derive(Clone, Copy, Debug)]
pub struct Uint256 {
    /// Least significant word first.
    pub words: [u64; 4],
}

impl Uint256 {
    pub open spec fn value(&self) -> nat {
        words_value(self.words@)
    }

    pub fn zero() -> (r: Uint256)
        ensures
            r.value() == 0,
    {
        Uint256 { words: [0u64, 0u64, 0u64, 0u64] }
    }

    pub fn from_u64(x: u64) -> (r: Uint256)
        ensures
            r.value() == x,
    {
        Uint256 { words: [x, 0u64, 0u64, 0u64] }
    }

    /// The value as a `u64`, when it fits.
    pub fn to_u64(&self) -> (r: Option<u64>)
        ensures
            r.is_some() <==> self.value() <= u64::MAX,
            r.is_some() ==> r.unwrap() == self.value(),
    {
        let w = self.words;
        proof {
            lemma_words_value_bounds(w@);
        }
        if w[1] == 0 && w[2] == 0 && w[3] == 0 {
            Some(w[0])
        } else {
            None
        }
    }

    /// The 32-byte big-endian encoding.
    pub fn to_be_bytes(&self) -> (r: Vec<u8>)
        ensures
            r@ == be_bytes_of_words(self.words@),
            r@.len() == 32,
    {
        let mut le: Vec<u8> = Vec::new();
        push_le_u64(&mut le, self.words[0]);
        push_le_u64(&mut le, self.words[1]);
        push_le_u64(&mut le, self.words[2]);
        push_le_u64(&mut le, self.words[3]);
        proof {
            lemma_le_bytes_len(self.words@[0] as nat, 8);
            lemma_le_bytes_len(self.words@[1] as nat, 8);
            lemma_le_bytes_len(self.words@[2] as nat, 8);
            lemma_le_bytes_len(self.words@[3] as nat, 8);
            assert(le@ =~= le_bytes(self.words@[0] as nat, 8) + le_bytes(self.words@[1] as nat, 8)
                + le_bytes(self.words@[2] as nat, 8) + le_bytes(self.words@[3] as nat, 8));
        }
        let mut out: Vec<u8> = Vec::new();
        let mut i: usize = 32;
        while i > 0
            invariant
                i <= 32,
                le@.len() == 32,
                out@ == le@.reverse().subrange(0, 32 - i),
            decreases i,
        {
            i = i - 1;
            out.push(le[i]);
            assert(out@ =~= le@.reverse().subrange(0, 32 - i));
        }
        assert(out@ =~= le@.reverse());
        out
    }

    /// The product, or `None` when it does not fit in 256 bits.
    pub fn checked_mul(&self, other: &Uint256) -> (r: Option<Uint256>)
        ensures
            r.is_some() <==> self.value() * other.value() < word256_bound(),
            r.is_some() ==> r.unwrap().value() == self.value() * other.value(),
    {
        match u256_checked_mul(self.words, other.words) {
            Some(w) => Some(Uint256 { words: w }),
            None => None,
        }
    }

    /// The quotient, rounded down.
    pub fn div(&self, other: &Uint256) -> (r: Uint256)
        requires
            other.value() > 0,
        ensures
            r.value() == self.value() / other.value(),
    {
        Uint256 { words: u256_div(self.words, other.words) }
    }
}

pub proof fn lemma_le_bytes_len(x: nat, n: nat)
    ensures
        le_bytes(x, n).len() == n,
    decreases n,
{
    if n > 0 {
        lemma_le_bytes_len(x / 256, (n - 1) as nat);
    }
}

/// A value is below 2^64 exactly when its three upper words are zero, and
/// every value is below 2^256.
pub proof fn lemma_words_value_bounds(w: Seq<u64>)
    requires
        w.len() == 4,
    ensures
        (words_value(w) <= u64::MAX) <==> (w[1] == 0 && w[2] == 0 && w[3] == 0),
        words_value(w) < word256_bound(),
{
    let b = word_base();
    let a0 = w[0] as int;
    let a1 = w[1] as int;
    let a2 = w[2] as int;
    let a3 = w[3] as int;
    let hi = a1 + b * (a2 + b * a3);
    assert(0 <= b * a3) by (nonlinear_arith)
        requires
            a3 >= 0,
            b > 0,
    ;
    assert(0 <= b * (a2 + b * a3)) by (nonlinear_arith)
        requires
            a2 + b * a3 >= 0,
            b > 0,
    ;
    assert(hi == 0 <==> (a1 == 0 && a2 == 0 && a3 == 0)) by (nonlinear_arith)
        requires
            hi == a1 + b * (a2 + b * a3),
            a1 >= 0,
            a2 >= 0,
            a3 >= 0,
            b > 0,
    ;
    assert(hi >= 1 ==> b * hi >= b) by (nonlinear_arith)
        requires
            b > 0,
    ;
    assert(b * hi >= 0) by (nonlinear_arith)
        requires
            hi >= 0,
            b > 0,
    ;
    assert(a2 + b * a3 <= (b - 1) + b * (b - 1)) by (nonlinear_arith)
        requires
            0 <= a2 < b,
            0 <= a3 < b,
    ;
    assert(hi <= b * b * b - 1) by (nonlinear_arith)
        requires
            hi == a1 + b * (a2 + b * a3),
            0 <= a1 < b,
            a2 + b * a3 <= (b - 1) + b * (b - 1),
            b > 0,
    ;
    assert(a0 + b * hi < b * b * b * b) by (nonlinear_arith)
        requires
            0 <= a0 < b,
            0 <= hi <= b * b * b - 1,
            b > 0,
    ;
}

/// Relies on `ethereum_types::U256::checked_mul`: the 256-bit product, or
/// `None` when the product overflows 256 bits.
#[verifier::external_body]
fn u256_checked_mul(a: [u64; 4], b: [u64; 4]) -> (r: Option<[u64; 4]>)
    ensures
        r.is_some() <==> words_value(a@) * words_value(b@) < word256_bound(),
        r.is_some() ==> words_value(r.unwrap()@) == words_value(a@) * words_value(b@),
{
    ethereum_types::U256(a).checked_mul(ethereum_types::U256(b)).map(|p| p.0)
}

/// Relies on `ethereum_types::U256`'s `/`: the quotient rounded down; it
/// panics on a zero divisor, which is excluded.
#[verifier::external_body]
fn u256_div(a: [u64; 4], b: [u64; 4]) -> (r: [u64; 4])
    requires
        words_value(b@) > 0,
    ensures
        words_value(r@) == words_value(a@) / words_value(b@),
{
    (ethereum_types::U256(a) / ethereum_types::U256(b)).0
}

} // verus!
