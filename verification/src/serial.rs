//! Byte encodings: little-endian integers, and the `bincode` serialisation
//! of the plain fields of the Greyhound library's structures.

use vstd::prelude::*;
use crate::encoding::{le_value, pow256, signed_word};
use crate::greyhound_pc::{CommitContext, EvalProofFields};

verus! {

/// The `k` low bytes of `x`, least significant first.
pub open spec fn le_bytes(x: nat, k: nat) -> Seq<u8>
    decreases k,
{
    if k == 0 {
        Seq::empty()
    } else {
        seq![(x % 256) as u8] + le_bytes(x / 256, (k - 1) as nat)
    }
}

/// The number of bytes of a `usize` on the target (`size_of::<usize>()`).
pub open spec fn usize_width() -> nat {
    (usize::BITS / 8) as nat
}

/// Appends the little-endian bytes of `value`, as many as a `usize` has
/// (what `usize::to_le_bytes` gives).
pub fn push_le_usize(out: &mut Vec<u8>, value: usize)
    ensures
        final(out)@ == old(out)@ + le_bytes(value as nat, usize_width()),
{
    let ghost start = out@;
    let width: usize = (usize::BITS / 8) as usize;
    let mut x: usize = value;
    let mut i: usize = 0;
    while i < width
        invariant
            width == usize_width(),
            i <= width,
            out@ + le_bytes(x as nat, (width - i) as nat) == start + le_bytes(value as nat, usize_width()),
        decreases width - i,
    {
        let ghost before = out@;
        let b: u8 = (x % 256) as u8;
        assert(le_bytes(x as nat, (width - i) as nat) == seq![b] + le_bytes((x / 256) as nat, (width - i - 1) as nat));
        out.push(b);
        assert(before + (seq![b] + le_bytes((x / 256) as nat, (width - i - 1) as nat)) =~= out@ + le_bytes((x / 256) as nat, (width - i - 1) as nat));
        x = x / 256;
        i = i + 1;
    }
    assert(out@ + le_bytes(x as nat, 0) =~= out@);
}

/// What `bincode::serialize` writes for the tuple `(len, m, n, h, normsq)` of
/// a commitment context: each integer as eight little-endian bytes, the hash
/// as its sixteen bytes, in this order.
pub open spec fn context_bytes(ctx: CommitContext) -> Seq<u8> {
    le_bytes(ctx.len as nat, 8) + le_bytes(ctx.m as nat, 8) + le_bytes(ctx.n as nat, 8) + ctx.h@
        + le_bytes(ctx.normsq as nat, 8)
}

/// What `bincode::serialize` writes for the tuple `(len, m, n, x, y, normsq)`
/// of an evaluation proof: each integer as eight little-endian bytes (two's
/// complement for `x` and `y`), in this order.
pub open spec fn proof_bytes(p: EvalProofFields) -> Seq<u8> {
    le_bytes(p.len as nat, 8) + le_bytes(p.m as nat, 8) + le_bytes(p.n as nat, 8)
        + le_bytes((p.x as u64) as nat, 8) + le_bytes((p.y as u64) as nat, 8)
        + le_bytes(p.normsq as nat, 8)
}

/// What `bincode::serialize` writes for the tuple `(r,)` of a witness: `r` as
/// eight little-endian bytes.
pub open spec fn witness_bytes(r: usize) -> Seq<u8> {
    le_bytes(r as nat, 8)
}

/// Calls `bincode::serialize` on the tuple `(len, m, n, h, normsq)`.
/// Trusted: bincode's default configuration (fixed-width little-endian
/// integers, `usize` written as `u64`, an array and a tuple as their elements
/// in order, no size limit) gives `context_bytes`, and writing into a `Vec`
/// cannot fail.
#[verifier::external_body]
pub(crate) fn bincode_context(ctx: &CommitContext) -> (r: Vec<u8>)
    ensures
        r@ == context_bytes(*ctx),
{
    bincode::serialize(&(ctx.len, ctx.m, ctx.n, ctx.h, ctx.normsq)).unwrap_or_default()
}

/// Calls `bincode::serialize` on the tuple `(len, m, n, x, y, normsq)`.
/// Trusted: bincode's default configuration (fixed-width little-endian
/// integers, `usize` written as `u64`, a tuple as its elements in order, no
/// size limit) gives `proof_bytes`, and writing into a `Vec` cannot fail.
#[verifier::external_body]
pub(crate) fn bincode_proof(p: &EvalProofFields) -> (r: Vec<u8>)
    ensures
        r@ == proof_bytes(*p),
{
    bincode::serialize(&(p.len, p.m, p.n, p.x, p.y, p.normsq)).unwrap_or_default()
}

/// Calls `bincode::serialize` on the tuple `(r,)`.
/// Trusted: bincode's default configuration writes the `usize` as eight
/// little-endian bytes (`witness_bytes`), and writing into a `Vec` cannot fail.
#[verifier::external_body]
pub(crate) fn bincode_witness(r: usize) -> (out: Vec<u8>)
    ensures
        out@ == witness_bytes(r),
{
    bincode::serialize(&(r,)).unwrap_or_default()
}

/// The unsigned value of the `i`-th eight-byte word of `b`.
pub open spec fn word(b: Seq<u8>, i: int) -> nat {
    le_value(b.subrange(8 * i, 8 * i + 8))
}

/// What `bincode::deserialize` reads as the tuple `(len, m, n, x, y, normsq)`
/// of an evaluation proof from `b`: six little-endian eight-byte words (the
/// fourth and fifth read as two's complement), trailing bytes ignored. It
/// fails when `b` is shorter than 48 bytes, or when one of the first three
/// words does not fit a `usize`.
pub open spec fn decode_proof(b: Seq<u8>) -> Option<EvalProofFields> {
    if b.len() >= 48 && word(b, 0) <= usize::MAX && word(b, 1) <= usize::MAX && word(b, 2) <= usize::MAX {
        Some(EvalProofFields {
            len: word(b, 0) as usize,
            m: word(b, 1) as usize,
            n: word(b, 2) as usize,
            x: signed_word(word(b, 3)) as i64,
            y: signed_word(word(b, 4)) as i64,
            normsq: word(b, 5) as u64,
        })
    } else {
        None
    }
}

/// What `bincode::deserialize` reads as the tuple `(r,)` of a witness from
/// `b`: one little-endian eight-byte word, trailing bytes ignored. It fails
/// when `b` is shorter than 8 bytes or the word does not fit a `usize`.
pub open spec fn decode_witness(b: Seq<u8>) -> Option<usize> {
    if b.len() >= 8 && word(b, 0) <= usize::MAX {
        Some(word(b, 0) as usize)
    } else {
        None
    }
}

/// Calls `bincode::deserialize` for the tuple `(len, m, n, x, y, normsq)`
/// (`usize`, `usize`, `usize`, `i64`, `i64`, `u64`).
/// Trusted: bincode's default configuration reads fixed-width little-endian
/// integers (a `usize` as a `u64` that must fit, an `i64` as the two's
/// complement of a `u64`), a tuple as its elements in order, fails on too few
/// bytes and allows trailing ones; this is `decode_proof`.
#[verifier::external_body]
pub(crate) fn bincode_decode_proof(bytes: &[u8]) -> (r: Option<EvalProofFields>)
    ensures
        r == decode_proof(bytes@),
{
    match bincode::deserialize::<(usize, usize, usize, i64, i64, u64)>(bytes) {
        Ok((len, m, n, x, y, normsq)) => Some(EvalProofFields { len, m, n, x, y, normsq }),
        Err(_) => None,
    }
}

/// Calls `bincode::deserialize` for the tuple `(r,)` (`usize`).
/// Trusted: bincode's default configuration reads the `usize` as a
/// little-endian `u64` that must fit, fails on too few bytes and allows
/// trailing ones; this is `decode_witness`.
#[verifier::external_body]
pub(crate) fn bincode_decode_witness(bytes: &[u8]) -> (r: Option<usize>)
    ensures
        r == decode_witness(bytes@),
{
    match bincode::deserialize::<(usize,)>(bytes) {
        Ok((r,)) => Some(r),
        Err(_) => None,
    }
}

/// `le_bytes(x, k)` has `k` bytes.
pub proof fn lemma_le_bytes_len(x: nat, k: nat)
    ensures
        le_bytes(x, k).len() == k,
    decreases k,
{
    if k > 0 {
        lemma_le_bytes_len(x / 256, (k - 1) as nat);
    }
}

/// Reading back `k` little-endian bytes of a value below `256^k` gives the value.
pub proof fn lemma_le_value_le_bytes(x: nat, k: nat)
    requires
        x < pow256(k),
    ensures
        le_value(le_bytes(x, k)) == x,
    decreases k,
{
    if k > 0 {
        let p = pow256((k - 1) as nat);
        assert(x / 256 < p) by (nonlinear_arith)
            requires x < 256 * p;
        lemma_le_value_le_bytes(x / 256, (k - 1) as nat);
        let s = le_bytes(x, k);
        assert(s.drop_first() =~= le_bytes(x / 256, (k - 1) as nat));
        assert((x % 256) + 256 * (x / 256) == x) by (nonlinear_arith);
    } else {
        assert(le_bytes(x, k) =~= Seq::<u8>::empty());
    }
}

proof fn lemma_word_of_u64(x: nat)
    requires
        x < 0x1_0000_0000_0000_0000,
    ensures
        le_value(le_bytes(x, 8)) == x,
        le_bytes(x, 8).len() == 8,
{
    reveal_with_fuel(pow256, 9);
    lemma_le_value_le_bytes(x, 8);
    lemma_le_bytes_len(x, 8);
}

proof fn lemma_i64_pattern(x: i64)
    ensures
        signed_word((x as u64) as nat) == x,
{
    assert(x >= 0 ==> (x as u64) == x) by (bit_vector);
    assert(x < 0 ==> (x as u64) == x + 0x1_0000_0000_0000_0000) by (bit_vector);
}

/// Reading back what `bincode_proof` and `bincode_witness` wrote gives the
/// same fields (on targets where `usize` has at most 64 bits, as Verus assumes).
pub proof fn lemma_decode_encoded(p: EvalProofFields, r: usize)
    ensures
        decode_proof(proof_bytes(p)) == Some(p),
        decode_witness(witness_bytes(r)) == Some(r),
{
    let b = proof_bytes(p);
    lemma_word_of_u64(p.len as nat);
    lemma_word_of_u64(p.m as nat);
    lemma_word_of_u64(p.n as nat);
    lemma_word_of_u64((p.x as u64) as nat);
    lemma_word_of_u64((p.y as u64) as nat);
    lemma_word_of_u64(p.normsq as nat);
    lemma_i64_pattern(p.x);
    lemma_i64_pattern(p.y);
    assert(b.subrange(0, 8) =~= le_bytes(p.len as nat, 8));
    assert(b.subrange(8, 16) =~= le_bytes(p.m as nat, 8));
    assert(b.subrange(16, 24) =~= le_bytes(p.n as nat, 8));
    assert(b.subrange(24, 32) =~= le_bytes((p.x as u64) as nat, 8));
    assert(b.subrange(32, 40) =~= le_bytes((p.y as u64) as nat, 8));
    assert(b.subrange(40, 48) =~= le_bytes(p.normsq as nat, 8));
    lemma_word_of_u64(r as nat);
    assert(witness_bytes(r).subrange(0, 8) =~= le_bytes(r as nat, 8));
}

proof fn lemma_pow256_pos(k: nat)
    ensures
        pow256(k) > 0,
    decreases k,
{
    if k > 0 {
        lemma_pow256_pos((k - 1) as nat);
    }
}

/// Byte `j` of the `k` little-endian bytes of `x` is digit `j` of `x` in base 256.
pub proof fn lemma_le_bytes_index(x: nat, k: nat, j: nat)
    requires
        j < k,
    ensures
        le_bytes(x, k)[j as int] == ((x / pow256(j)) % 256) as u8,
    decreases k,
{
    lemma_le_bytes_len(x, k);
    let rest = le_bytes(x / 256, (k - 1) as nat);
    assert(le_bytes(x, k) == seq![(x % 256) as u8] + rest);
    if j > 0 {
        lemma_le_bytes_index(x / 256, (k - 1) as nat, (j - 1) as nat);
        lemma_le_bytes_len(x / 256, (k - 1) as nat);
        let p = pow256((j - 1) as nat);
        assert(p > 0) by {
            lemma_pow256_pos((j - 1) as nat);
        }
        vstd::arithmetic::div_mod::lemma_div_denominator(x as int, 256, p as int);
        assert(pow256(j) == 256 * p);
        assert(le_bytes(x, k)[j as int] == rest[j - 1]);
    } else {
        assert(pow256(0) == 1);
        assert(x / 1 == x);
    }
}

} // verus!
