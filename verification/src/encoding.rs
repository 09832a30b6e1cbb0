//! Encoding of scalar field elements as constant ring elements.
//!
//! A scalar is given by its canonical byte representation (what the field's
//! `to_repr` returns). Its first eight bytes are read as a little-endian
//! two's complement 64-bit integer, which is reduced modulo `q`; the scalar
//! becomes the constant polynomial whose `N` coefficients all equal that value.

use vstd::prelude::*;
use crate::greyhound_ffi::{N, MODULUS};

verus! {

/// `256^k`.
pub open spec fn pow256(k: nat) -> nat
    decreases k,
{
    if k == 0 {
        1
    } else {
        256 * pow256((k - 1) as nat)
    }
}

/// The unsigned little-endian value of a byte string.
pub open spec fn le_value(b: Seq<u8>) -> nat
    decreases b.len(),
{
    if b.len() == 0 {
        0
    } else {
        b[0] as nat + 256 * le_value(b.drop_first())
    }
}

/// The bytes that form the low 64-bit word: the first eight, or all of them
/// when there are fewer.
pub open spec fn low_word(repr: Seq<u8>) -> Seq<u8> {
    if repr.len() < 8 {
        repr
    } else {
        repr.take(8)
    }
}

/// A 64-bit pattern read as a two's complement integer.
pub open spec fn signed_word(u: nat) -> int {
    if u < 0x8000_0000_0000_0000 {
        u as int
    } else {
        u - 0x1_0000_0000_0000_0000
    }
}

/// The coefficient that encodes a scalar: its low word, signed, reduced into `[0, q)`.
pub open spec fn repr_coeff(repr: Seq<u8>) -> int {
    signed_word(le_value(low_word(repr))) % (MODULUS as int)
}

/// The constant polynomial that encodes one scalar.
pub open spec fn repr_coeffs(repr: Seq<u8>) -> Seq<i64> {
    Seq::new(N as nat, |_i: int| repr_coeff(repr) as i64)
}

/// The coefficients of a sequence of scalars, one constant polynomial after another.
pub open spec fn coeff_vector(reprs: Seq<Vec<u8>>) -> Seq<i64>
    decreases reprs.len(),
{
    if reprs.len() == 0 {
        Seq::empty()
    } else {
        coeff_vector(reprs.drop_last()) + repr_coeffs(reprs.last()@)
    }
}

proof fn lemma_pow256_seven()
    ensures
        pow256(7) == 0x100_0000_0000_0000,
{
    reveal_with_fuel(pow256, 8);
}

proof fn lemma_pow256_mono(a: nat, b: nat)
    requires
        a <= b,
    ensures
        pow256(a) <= pow256(b),
    decreases b,
{
    if a < b {
        lemma_pow256_mono(a, (b - 1) as nat);
    }
}

/// The coefficient that encodes the scalar whose representation is `repr`.
#[verifier::rlimit(40)]
pub fn repr_to_coeff(repr: &[u8]) -> (c: i64)
    ensures
        c == repr_coeff(repr@),
        0 <= c < MODULUS,
{
    let k: usize = if repr.len() < 8 { repr.len() } else { 8 };
    let ghost w = low_word(repr@);
    assert(w =~= repr@.subrange(0, k as int));
    let mut v: u64 = 0;
    let mut j: usize = k;
    assert(w.subrange(k as int, k as int) =~= Seq::<u8>::empty());
    while j > 0
        invariant
            j <= k <= 8,
            k <= repr@.len(),
            w == repr@.subrange(0, k as int),
            v == le_value(w.subrange(j as int, k as int)),
            v < pow256((k - j) as nat),
        decreases j,
    {
        proof {
            let s = w.subrange(j - 1, k as int);
            assert(s.drop_first() =~= w.subrange(j as int, k as int));
            assert(s[0] == repr@[j - 1]);
            lemma_pow256_mono((k - j) as nat, 7);
            lemma_pow256_seven();
        }
        v = v * 256 + repr[j - 1] as u64;
        j = j - 1;
    }
    assert(w.subrange(0, k as int) =~= w);
    let s: i64 = if v <= 0x7fff_ffff_ffff_ffffu64 {
        v as i64
    } else {
        -((0xffff_ffff_ffff_ffffu64 - v) as i64) - 1
    };
    assert(s == signed_word(le_value(w)));
    let mut c: i64 = s % MODULUS;
    if c < 0 {
        c = c + MODULUS;
    }
    c
}

/// The `N` coefficients of the constant polynomial that encodes one scalar.
pub fn scalar_to_int64_array(repr: &[u8]) -> (r: Vec<i64>)
    ensures
        r@ == repr_coeffs(repr@),
{
    let c = repr_to_coeff(repr);
    let mut r: Vec<i64> = Vec::with_capacity(N);
    let mut i: usize = 0;
    while i < N
        invariant
            i <= N,
            c == repr_coeff(repr@),
            r@ =~= Seq::new(i as nat, |_j: int| c),
        decreases N - i,
    {
        r.push(c);
        i = i + 1;
    }
    r
}

/// The coefficients of a vector of scalars: each becomes `N` equal
/// coefficients, in the order of the scalars.
pub fn scalars_to_int64_vec(reprs: &[Vec<u8>]) -> (r: Vec<i64>)
    requires
        reprs@.len() * N <= usize::MAX,
    ensures
        r@ == coeff_vector(reprs@),
{
    let total: usize = reprs.len() * N;
    let mut r: Vec<i64> = Vec::with_capacity(total);
    let mut i: usize = 0;
    assert(reprs@.take(0) =~= Seq::<Vec<u8>>::empty());
    while i < reprs.len()
        invariant
            i <= reprs@.len(),
            r@ == coeff_vector(reprs@.take(i as int)),
        decreases reprs@.len() - i,
    {
        let mut block = scalar_to_int64_array(reprs[i].as_slice());
        assert(reprs@.take(i + 1).drop_last() =~= reprs@.take(i as int));
        r.append(&mut block);
        i = i + 1;
    }
    assert(reprs@.take(reprs@.len() as int) =~= reprs@);
    r
}

/// The encoding of a vector of `n` scalars has `n * N` coefficients; the
/// coefficient at position `j` encodes scalar `j / N`, and lies in `[0, q)`.
pub proof fn lemma_coeff_vector_layout(reprs: Seq<Vec<u8>>, j: int)
    requires
        0 <= j < reprs.len() * N,
    ensures
        coeff_vector(reprs).len() == reprs.len() * N,
        coeff_vector(reprs)[j] == repr_coeff(reprs[j / (N as int)]@),
        0 <= coeff_vector(reprs)[j] < MODULUS,
    decreases reprs.len(),
{
    let n = reprs.len() as int;
    let pre = reprs.drop_last();
    lemma_coeff_vector_len(reprs);
    if j < (n - 1) * (N as int) {
        lemma_coeff_vector_layout(pre, j);
        lemma_coeff_vector_len(pre);
        assert(j / (N as int) < n - 1) by (nonlinear_arith)
            requires j < (n - 1) * 64, 0 <= j;
        assert(pre[j / (N as int)] == reprs[j / (N as int)]);
    } else {
        lemma_coeff_vector_len(pre);
        assert(j / (N as int) == n - 1) by (nonlinear_arith)
            requires (n - 1) * 64 <= j < n * 64;
    }
}

/// The encoding of two vectors of scalars one after the other is the encoding
/// of the first, then that of the second; the empty vector encodes to nothing.
pub proof fn lemma_coeff_vector_concat(a: Seq<Vec<u8>>, b: Seq<Vec<u8>>)
    ensures
        coeff_vector(a + b) == coeff_vector(a) + coeff_vector(b),
        coeff_vector(Seq::<Vec<u8>>::empty()) == Seq::<i64>::empty(),
    decreases b.len(),
{
    if b.len() == 0 {
        assert(a + b =~= a);
        assert(coeff_vector(a) + coeff_vector(b) =~= coeff_vector(a));
    } else {
        assert((a + b).drop_last() =~= a + b.drop_last());
        lemma_coeff_vector_concat(a, b.drop_last());
        assert(coeff_vector(a + b) =~= coeff_vector(a) + coeff_vector(b));
    }
}

/// The encoding of `n` scalars has `n * N` coefficients.
pub proof fn lemma_coeff_vector_len(reprs: Seq<Vec<u8>>)
    ensures
        coeff_vector(reprs).len() == reprs.len() * N,
    decreases reprs.len(),
{
    if reprs.len() > 0 {
        lemma_coeff_vector_len(reprs.drop_last());
        assert(reprs.len() * N == (reprs.len() - 1) * N + N) by (nonlinear_arith)
            requires reprs.len() > 0;
    }
}

} // verus!
